//! The side panel of the screen of a times: the todo list, the detail of a
//! todo, the tag list and the choice of a tag to assign.

use vstd::prelude::*;

use super::times::UIRequest;
use crate::types::{Tag, TagId, TagV, Todo, TodoV};

verus! {

/// Which side panel is shown.
#[derive(Clone, Copy, Debug, PartialEq, Eq)]
pub enum SidePanelType {
    Todo,
    TodoDetail,
    Tag,
    TagAssigne,
}

/// The state of the side panel.
pub struct SidePanel {
    ptype: Option<SidePanelType>,
    new_text: String,
    new_detail: String,
    selected_tagid: TagId,
    selected_tag: Option<Tag>,
    selected_todo: Option<Todo>,
    editing_detail: bool,
}

/// The view of an optional tag.
pub open spec fn opt_tag_view(t: Option<Tag>) -> Option<TagV> {
    match t {
        Some(t) => Some(t@),
        None => None,
    }
}

/// The view of an optional todo.
pub open spec fn opt_todo_view(t: Option<Todo>) -> Option<TodoV> {
    match t {
        Some(t) => Some(t@),
        None => None,
    }
}

impl SidePanel {
    /// The panel shown, if any.
    pub closed spec fn ptype(&self) -> Option<SidePanelType> {
        self.ptype
    }

    /// The text of the new todo or tag.
    pub closed spec fn new_text(&self) -> Seq<char> {
        self.new_text@
    }

    /// The text of the detail being written.
    pub closed spec fn new_detail(&self) -> Seq<char> {
        self.new_detail@
    }

    /// The identifier of the tag chosen in the assign panel.
    pub closed spec fn selected_tagid(&self) -> TagId {
        self.selected_tagid
    }

    /// The tag to assign.
    pub closed spec fn selected_tag(&self) -> Option<TagV> {
        opt_tag_view(self.selected_tag)
    }

    /// The todo whose detail is shown.
    pub closed spec fn selected_todo(&self) -> Option<TodoV> {
        opt_todo_view(self.selected_todo)
    }

    /// Whether the detail is being edited.
    pub closed spec fn editing_detail(&self) -> bool {
        self.editing_detail
    }

    /// A hidden panel with empty texts and nothing selected.
    pub fn new() -> (r: Self)
        ensures
            r.ptype() is None,
            r.new_text() == Seq::<char>::empty(),
            r.new_detail() == Seq::<char>::empty(),
            r.selected_tagid() == 0,
            r.selected_tag() is None,
            r.selected_todo() is None,
            !r.editing_detail(),
    {
        SidePanel {
            ptype: None,
            new_text: String::new(),
            new_detail: String::new(),
            selected_tagid: 0,
            selected_tag: None,
            selected_todo: None,
            editing_detail: false,
        }
    }

    /// The panel shown, if any.
    pub fn panel(&self) -> (r: Option<SidePanelType>)
        ensures
            r == self.ptype(),
    {
        self.ptype
    }

    /// The text of the new todo or tag, to edit.
    pub fn new_text_mut(&mut self) -> (r: &mut String)
        ensures
            r@ == old(self).new_text(),
            final(self).new_text() == final(r)@,
            final(self).ptype() == old(self).ptype(),
            final(self).new_detail() == old(self).new_detail(),
            final(self).selected_tagid() == old(self).selected_tagid(),
            final(self).selected_tag() == old(self).selected_tag(),
            final(self).selected_todo() == old(self).selected_todo(),
            final(self).editing_detail() == old(self).editing_detail(),
    {
        &mut self.new_text
    }

    /// The text of the detail, to edit.
    pub fn new_detail_mut(&mut self) -> (r: &mut String)
        ensures
            r@ == old(self).new_detail(),
            final(self).new_detail() == final(r)@,
            final(self).ptype() == old(self).ptype(),
            final(self).new_text() == old(self).new_text(),
            final(self).selected_tagid() == old(self).selected_tagid(),
            final(self).selected_tag() == old(self).selected_tag(),
            final(self).selected_todo() == old(self).selected_todo(),
            final(self).editing_detail() == old(self).editing_detail(),
    {
        &mut self.new_detail
    }

    /// Chooses the tag with identifier `id` in the assign panel.
    pub fn choose_tag(&mut self, id: TagId)
        ensures
            final(self).selected_tagid() == id,
            final(self).ptype() == old(self).ptype(),
            final(self).new_text() == old(self).new_text(),
            final(self).new_detail() == old(self).new_detail(),
            final(self).selected_tag() == old(self).selected_tag(),
            final(self).selected_todo() == old(self).selected_todo(),
            final(self).editing_detail() == old(self).editing_detail(),
    {
        self.selected_tagid = id;
    }

    /// Empties the text of the new todo or tag.
    pub fn clear_text(&mut self)
        ensures
            final(self).new_text() == Seq::<char>::empty(),
            final(self).ptype() == old(self).ptype(),
            final(self).new_detail() == old(self).new_detail(),
            final(self).selected_tagid() == old(self).selected_tagid(),
            final(self).selected_tag() == old(self).selected_tag(),
            final(self).selected_todo() == old(self).selected_todo(),
            final(self).editing_detail() == old(self).editing_detail(),
    {
        self.new_text = String::new();
    }

    /// Empties the text of the detail.
    pub fn clear_detail_text(&mut self)
        ensures
            final(self).new_detail() == Seq::<char>::empty(),
            final(self).ptype() == old(self).ptype(),
            final(self).new_text() == old(self).new_text(),
            final(self).selected_tagid() == old(self).selected_tagid(),
            final(self).selected_tag() == old(self).selected_tag(),
            final(self).selected_todo() == old(self).selected_todo(),
            final(self).editing_detail() == old(self).editing_detail(),
    {
        self.new_detail = String::new();
    }

    /// Shows the panel `ptype`, or none.
    pub fn select_side_panel(&mut self, ptype: Option<SidePanelType>)
        ensures
            final(self).ptype() == ptype,
            final(self).new_text() == old(self).new_text(),
            final(self).new_detail() == old(self).new_detail(),
            final(self).selected_tagid() == old(self).selected_tagid(),
            final(self).selected_tag() == old(self).selected_tag(),
            final(self).selected_todo() == old(self).selected_todo(),
            final(self).editing_detail() == old(self).editing_detail(),
    {
        self.ptype = ptype;
    }

    /// The request for the todo written: none while its text is empty, a
    /// todo with detail when a detail is written.
    pub fn submit_todo(&self) -> (r: Option<UIRequest>)
        ensures
            self.new_text().len() == 0 ==> r is None,
            self.new_text().len() > 0 && self.new_detail().len() == 0 ==>
                (r matches Some(UIRequest::Todo(c)) && c@ == self.new_text()),
            self.new_text().len() > 0 && self.new_detail().len() > 0 ==>
                (r matches Some(UIRequest::TodoWithDetail(c, d)) && c@ == self.new_text() && d@ == self.new_detail()),
    {
        if self.new_text.unicode_len() == 0 {
            None
        } else if self.new_detail.unicode_len() == 0 {
            Some(UIRequest::Todo(self.new_text.clone()))
        } else {
            Some(UIRequest::TodoWithDetail(self.new_text.clone(), self.new_detail.clone()))
        }
    }

    /// Empties both texts of the todo panel.
    pub fn clear_inputs(&mut self)
        ensures
            final(self).new_text() == Seq::<char>::empty(),
            final(self).new_detail() == Seq::<char>::empty(),
            final(self).ptype() == old(self).ptype(),
            final(self).selected_tagid() == old(self).selected_tagid(),
            final(self).selected_tag() == old(self).selected_tag(),
            final(self).selected_todo() == old(self).selected_todo(),
            final(self).editing_detail() == old(self).editing_detail(),
    {
        self.new_text = String::new();
        self.new_detail = String::new();
    }

    /// The request for the tag written: none while its name is empty.
    pub fn submit_tag(&self) -> (r: Option<UIRequest>)
        ensures
            self.new_text().len() == 0 ==> r is None,
            self.new_text().len() > 0 ==> (r matches Some(UIRequest::Tag(n)) && n@ == self.new_text()),
    {
        if self.new_text.unicode_len() == 0 {
            None
        } else {
            Some(UIRequest::Tag(self.new_text.clone()))
        }
    }

    /// Shows the detail of `todo`.
    pub fn open_detail(&mut self, todo: &Todo)
        ensures
            final(self).selected_todo() == Some(todo@),
            final(self).ptype() == Some(SidePanelType::TodoDetail),
            final(self).new_text() == old(self).new_text(),
            final(self).new_detail() == old(self).new_detail(),
            final(self).selected_tagid() == old(self).selected_tagid(),
            final(self).selected_tag() == old(self).selected_tag(),
            final(self).editing_detail() == old(self).editing_detail(),
    {
        self.selected_todo = Some(todo.duplicate());
        self.ptype = Some(SidePanelType::TodoDetail);
    }

    /// Goes back from the detail to the todo list.
    pub fn back(&mut self)
        ensures
            final(self).selected_todo() is None,
            final(self).ptype() == Some(SidePanelType::Todo),
            final(self).new_text() == old(self).new_text(),
            final(self).new_detail() == old(self).new_detail(),
            final(self).selected_tagid() == old(self).selected_tagid(),
            final(self).selected_tag() == old(self).selected_tag(),
            final(self).editing_detail() == old(self).editing_detail(),
    {
        self.ptype = Some(SidePanelType::Todo);
        self.selected_todo = None;
    }

    /// Starts editing the detail, from `detail`.
    pub fn start_edit(&mut self, detail: &str)
        ensures
            final(self).editing_detail(),
            final(self).new_detail() == detail@,
            final(self).ptype() == old(self).ptype(),
            final(self).new_text() == old(self).new_text(),
            final(self).selected_tagid() == old(self).selected_tagid(),
            final(self).selected_tag() == old(self).selected_tag(),
            final(self).selected_todo() == old(self).selected_todo(),
    {
        self.editing_detail = true;
        self.new_detail = String::from_str(detail);
    }

    /// Stops editing the detail and puts `detail` back.
    pub fn cancel_edit(&mut self, detail: &str)
        ensures
            !final(self).editing_detail(),
            final(self).new_detail() == detail@,
            final(self).ptype() == old(self).ptype(),
            final(self).new_text() == old(self).new_text(),
            final(self).selected_tagid() == old(self).selected_tagid(),
            final(self).selected_tag() == old(self).selected_tag(),
            final(self).selected_todo() == old(self).selected_todo(),
    {
        self.editing_detail = false;
        self.new_detail = String::from_str(detail);
    }

    /// Saves the detail being edited for the todo shown, and stops editing.
    pub fn save_detail(&mut self) -> (r: Option<UIRequest>)
        ensures
            old(self).selected_todo() is None ==> r is None && final(self).editing_detail() == old(self).editing_detail(),
            old(self).selected_todo() matches Some(t) ==> (r matches Some(UIRequest::UpdateTodoDetail(id, d))
                && id == t.id && d@ == old(self).new_detail()) && !final(self).editing_detail(),
            final(self).ptype() == old(self).ptype(),
            final(self).new_text() == old(self).new_text(),
            final(self).new_detail() == old(self).new_detail(),
            final(self).selected_tagid() == old(self).selected_tagid(),
            final(self).selected_tag() == old(self).selected_tag(),
            final(self).selected_todo() == old(self).selected_todo(),
    {
        match &self.selected_todo {
            None => None,
            Some(t) => {
                let id = t.id;
                self.editing_detail = false;
                Some(UIRequest::UpdateTodoDetail(id, self.new_detail.clone()))
            },
        }
    }

    /// Adds the detail written to the todo shown, which has none; nothing
    /// while the detail is empty.
    pub fn add_detail(&self) -> (r: Option<UIRequest>)
        ensures
            (self.selected_todo() is None || self.new_detail().len() == 0) ==> r is None,
            self.selected_todo() matches Some(t) ==> (self.new_detail().len() > 0 ==>
                (r matches Some(UIRequest::UpdateTodoDetail(id, d)) && id == t.id && d@ == self.new_detail())),
    {
        match &self.selected_todo {
            None => None,
            Some(t) => {
                if self.new_detail.unicode_len() == 0 {
                    None
                } else {
                    Some(UIRequest::UpdateTodoDetail(t.id, self.new_detail.clone()))
                }
            },
        }
    }

    /// The name shown for the chosen tag of `tags`, which becomes the tag to
    /// assign; "Select a tag" when no tag has the chosen identifier.
    pub fn selected_tag_text(&mut self, tags: &Vec<Tag>) -> (r: String)
        ensures
            (forall|i: int| 0 <= i < tags.len() ==> tags@[i].id != old(self).selected_tagid())
                ==> r@ == "Select a tag"@ && final(self).selected_tag() == old(self).selected_tag(),
            (exists|i: int| 0 <= i < tags.len() && tags@[i].id == old(self).selected_tagid()) ==> exists|i: int|
                0 <= i < tags.len() && tags@[i].id == old(self).selected_tagid()
                && (forall|j: int| 0 <= j < i ==> tags@[j].id != old(self).selected_tagid())
                && r@ == tags@[i].name@ && final(self).selected_tag() == Some(tags@[i]@),
            final(self).ptype() == old(self).ptype(),
            final(self).new_text() == old(self).new_text(),
            final(self).new_detail() == old(self).new_detail(),
            final(self).selected_tagid() == old(self).selected_tagid(),
            final(self).selected_todo() == old(self).selected_todo(),
            final(self).editing_detail() == old(self).editing_detail(),
    {
        let mut i: usize = 0;
        while i < tags.len()
            invariant
                i <= tags.len(),
                forall|j: int| 0 <= j < i ==> tags@[j].id != self.selected_tagid,
                self.selected_tagid == old(self).selected_tagid,
                self.selected_tag == old(self).selected_tag,
                self.ptype == old(self).ptype,
                self.new_text == old(self).new_text,
                self.new_detail == old(self).new_detail,
                self.selected_todo == old(self).selected_todo,
                self.editing_detail == old(self).editing_detail,
            decreases tags.len() - i,
        {
            if tags[i].id == self.selected_tagid {
                self.selected_tag = Some(tags[i].duplicate());
                return tags[i].name.clone();
            }
            i = i + 1;
        }
        String::from_str("Select a tag")
    }

    /// The tag to assign, when one was chosen.
    pub fn selected_tag_ref(&self) -> (r: &Option<Tag>)
        ensures
            opt_tag_view(*r) == self.selected_tag(),
    {
        &self.selected_tag
    }

    /// The todo whose detail is shown.
    pub fn selected_todo_ref(&self) -> (r: &Option<Todo>)
        ensures
            opt_todo_view(*r) == self.selected_todo(),
    {
        &self.selected_todo
    }

    /// Whether the detail is being edited.
    pub fn is_editing_detail(&self) -> (r: bool)
        ensures
            r == self.editing_detail(),
    {
        self.editing_detail
    }
}

} // verus!
