//! The state of the screen of a times: the text being written, the file
//! dropped on it, the file previewed, the side panel, and whether a tag is
//! being assigned; and what each key asks for.

use vstd::prelude::*;

use super::side_panel::{SidePanel, SidePanelType};
use super::times::{UIRequest, UIResponse};
use crate::types::{File, FileV, Post, PostV, opt_file_view};

verus! {

/// Whether posts are being given a tag.
#[derive(Clone, Copy, Debug, PartialEq, Eq, Structural)]
pub enum UIState {
    Normal,
    TagAssign,
}

/// The keys pressed on the screen of a times, with the command modifier
/// where the screen asks for it.
#[derive(Clone, Copy, Debug)]
pub struct TimesKeys {
    /// Command-Enter: post.
    pub post: bool,
    /// Command-D: dump to a file.
    pub dump: bool,
    /// Command-O: the todo panel.
    pub todo: bool,
    /// Command-T: the todo detail panel.
    pub todo_detail: bool,
    /// Command-A: the tag panel.
    pub tag: bool,
    /// Command-S: assign tags.
    pub assign: bool,
    /// Escape.
    pub escape: bool,
}

/// What the keys ask for.
pub struct KeyOutcome {
    pub requests: Vec<UIRequest>,
    /// Open the dialog that picks the dump file.
    pub open_dump_dialog: bool,
}

/// The state of the screen of a times.
pub struct TimesUI {
    title: String,
    post_text: String,
    dropped_file: Option<File>,
    preview: Option<File>,
    side_panel: SidePanel,
    state: UIState,
}

impl TimesUI {
    /// The title shown.
    pub closed spec fn title(&self) -> Seq<char> {
        self.title@
    }

    /// The text being written.
    pub closed spec fn post_text(&self) -> Seq<char> {
        self.post_text@
    }

    /// The file dropped on the screen.
    pub closed spec fn dropped_file(&self) -> Option<FileV> {
        opt_file_view(self.dropped_file)
    }

    /// The file previewed.
    pub closed spec fn preview(&self) -> Option<FileV> {
        opt_file_view(self.preview)
    }

    /// The side panel.
    pub closed spec fn side_panel(&self) -> SidePanel {
        self.side_panel
    }

    /// Whether tags are being assigned.
    pub closed spec fn state(&self) -> UIState {
        self.state
    }

    /// The screen of the times titled `title`, with nothing written.
    pub fn new(title: String) -> (r: Self)
        ensures
            r.title() == title@,
            r.post_text() == Seq::<char>::empty(),
            r.dropped_file() is None,
            r.preview() is None,
            r.side_panel().ptype() is None,
            r.state() == UIState::Normal,
    {
        TimesUI {
            title,
            post_text: String::new(),
            dropped_file: None,
            preview: None,
            side_panel: SidePanel::new(),
            state: UIState::Normal,
        }
    }

    /// The title shown.
    pub fn title_str(&self) -> (r: &str)
        ensures
            r@ == self.title(),
    {
        self.title.as_str()
    }

    /// The text being written, to edit.
    pub fn post_text_mut(&mut self) -> (r: &mut String)
        ensures
            r@ == old(self).post_text(),
            final(self).post_text() == final(r)@,
            final(self).title() == old(self).title(),
            final(self).dropped_file() == old(self).dropped_file(),
            final(self).preview() == old(self).preview(),
            final(self).side_panel() == old(self).side_panel(),
            final(self).state() == old(self).state(),
    {
        &mut self.post_text
    }

    /// The side panel, to change.
    pub fn side_panel_mut(&mut self) -> (r: &mut SidePanel)
        ensures
            *r == old(self).side_panel(),
            final(self).side_panel() == *final(r),
            final(self).title() == old(self).title(),
            final(self).post_text() == old(self).post_text(),
            final(self).dropped_file() == old(self).dropped_file(),
            final(self).preview() == old(self).preview(),
            final(self).state() == old(self).state(),
    {
        &mut self.side_panel
    }

    /// The file dropped on the screen.
    pub fn dropped_file_ref(&self) -> (r: &Option<File>)
        ensures
            opt_file_view(*r) == self.dropped_file(),
    {
        &self.dropped_file
    }

    /// The file previewed.
    pub fn preview_ref(&self) -> (r: &Option<File>)
        ensures
            opt_file_view(*r) == self.preview(),
    {
        &self.preview
    }

    /// Keeps `file` as the file dropped on the screen (none clears it).
    pub fn set_dropped_file(&mut self, file: Option<File>)
        ensures
            final(self).dropped_file() == opt_file_view(file),
            final(self).title() == old(self).title(),
            final(self).post_text() == old(self).post_text(),
            final(self).preview() == old(self).preview(),
            final(self).side_panel() == old(self).side_panel(),
            final(self).state() == old(self).state(),
    {
        self.dropped_file = file;
    }

    /// Previews `file`.
    pub fn set_preview(&mut self, file: &File)
        ensures
            final(self).preview() == Some(file@),
            final(self).title() == old(self).title(),
            final(self).post_text() == old(self).post_text(),
            final(self).dropped_file() == old(self).dropped_file(),
            final(self).side_panel() == old(self).side_panel(),
            final(self).state() == old(self).state(),
    {
        self.preview = Some(file.duplicate());
    }

    /// The post request for what is written: none when there is neither
    /// text nor file.
    pub fn post(&self) -> (r: Option<UIRequest>)
        ensures
            self.post_text().len() == 0 && self.dropped_file() is None ==> r is None,
            !(self.post_text().len() == 0 && self.dropped_file() is None) ==>
                (r matches Some(UIRequest::Post(t, f)) && t@ == self.post_text() && opt_file_view(f) == self.dropped_file()),
    {
        if self.post_text.unicode_len() == 0 && self.dropped_file.is_none() {
            return None;
        }
        let file = match &self.dropped_file {
            Some(f) => Some(f.duplicate()),
            None => None,
        };
        Some(UIRequest::Post(self.post_text.clone(), file))
    }

    /// Takes in one response of the model; gives the path of a dropped
    /// file to read.
    pub fn handle_ui_resp(&mut self, resp: UIResponse) -> (r: Option<String>)
        ensures
            final(self).title() == old(self).title(),
            final(self).preview() == old(self).preview(),
            final(self).state() == old(self).state(),
            match resp {
                UIResponse::ClearText => r is None && final(self).post_text() == Seq::<char>::empty()
                    && final(self).dropped_file() is None && final(self).side_panel() == old(self).side_panel(),
                UIResponse::ClearTextSidePane => r is None && final(self).post_text() == old(self).post_text()
                    && final(self).dropped_file() == old(self).dropped_file()
                    && final(self).side_panel().new_text() == Seq::<char>::empty()
                    && final(self).side_panel().new_detail() == old(self).side_panel().new_detail()
                    && final(self).side_panel().ptype() == old(self).side_panel().ptype()
                    && final(self).side_panel().selected_tag() == old(self).side_panel().selected_tag()
                    && final(self).side_panel().selected_todo() == old(self).side_panel().selected_todo(),
                UIResponse::ClearTextSidePaneDetail => r is None && final(self).post_text() == old(self).post_text()
                    && final(self).dropped_file() == old(self).dropped_file()
                    && final(self).side_panel().new_detail() == Seq::<char>::empty()
                    && final(self).side_panel().new_text() == old(self).side_panel().new_text()
                    && final(self).side_panel().ptype() == old(self).side_panel().ptype()
                    && final(self).side_panel().selected_tag() == old(self).side_panel().selected_tag()
                    && final(self).side_panel().selected_todo() == old(self).side_panel().selected_todo(),
                UIResponse::FileDropped(p) => (r matches Some(q) && q@ == p@) && final(self).post_text() == old(self).post_text()
                    && final(self).dropped_file() == old(self).dropped_file()
                    && final(self).side_panel() == old(self).side_panel(),
            },
    {
        match resp {
            UIResponse::ClearText => {
                self.post_text = String::new();
                self.dropped_file = None;
                None
            },
            UIResponse::ClearTextSidePane => {
                self.side_panel.clear_text();
                None
            },
            UIResponse::ClearTextSidePaneDetail => {
                self.side_panel.clear_detail_text();
                None
            },
            UIResponse::FileDropped(path) => Some(path),
        }
    }

    /// The request to give `post` the tag chosen, while tags are being
    /// assigned and a tag is chosen.
    pub fn assign_tag(&self, post: &Post) -> (r: Option<UIRequest>)
        ensures
            (self.state() != UIState::TagAssign || self.side_panel().selected_tag() is None) ==> r is None,
            self.state() == UIState::TagAssign ==> (self.side_panel().selected_tag() matches Some(t) ==>
                (r matches Some(UIRequest::UpdatePost(p)) && p@ == (PostV { tag: Some(t.id), ..post@ }))),
    {
        if self.state != UIState::TagAssign {
            return None;
        }
        match self.side_panel.selected_tag_ref() {
            None => None,
            Some(tag) => {
                let mut p = post.duplicate();
                p.tag = Some(tag.id);
                Some(UIRequest::UpdatePost(p))
            },
        }
    }

    /// What the keys pressed ask for, taken in this order: post, dump,
    /// the todo, todo detail, tag and assign panels, then escape, which
    /// closes the preview and leaves tag assigning, or else the screen.
    pub fn on_keys(&mut self, keys: TimesKeys) -> (r: KeyOutcome)
        ensures
            r.open_dump_dialog == keys.dump,
            final(self).title() == old(self).title(),
            final(self).post_text() == old(self).post_text(),
            final(self).dropped_file() == old(self).dropped_file(),
            keys.escape ==> final(self).preview() is None,
            !keys.escape ==> final(self).preview() == old(self).preview(),
            final(self).side_panel().ptype() == (
                if keys.assign { Some(SidePanelType::TagAssigne) }
                else if keys.tag { Some(SidePanelType::Tag) }
                else if keys.todo_detail { Some(SidePanelType::TodoDetail) }
                else if keys.todo { Some(SidePanelType::Todo) }
                else { old(self).side_panel().ptype() }),
            final(self).side_panel().new_text() == old(self).side_panel().new_text(),
            final(self).side_panel().new_detail() == old(self).side_panel().new_detail(),
            final(self).side_panel().selected_tag() == old(self).side_panel().selected_tag(),
            final(self).side_panel().selected_tagid() == old(self).side_panel().selected_tagid(),
            final(self).side_panel().selected_todo() == old(self).side_panel().selected_todo(),
            final(self).side_panel().editing_detail() == old(self).side_panel().editing_detail(),
            final(self).state() == (
                if keys.escape && (keys.assign || old(self).state() == UIState::TagAssign) { UIState::Normal }
                else if keys.assign { UIState::TagAssign }
                else { old(self).state() }),
            ({
                let assigning = keys.assign || old(self).state() == UIState::TagAssign;
                &&& r.requests@.len() == (if keys.post && !(old(self).post_text().len() == 0 && old(self).dropped_file() is None) { 1int } else { 0int })
                    + (if keys.escape && !assigning { 1int } else { 0int })
                &&& (keys.post && !(old(self).post_text().len() == 0 && old(self).dropped_file() is None)) ==>
                    (r.requests@[0] matches UIRequest::Post(t, f) && t@ == old(self).post_text() && opt_file_view(f) == old(self).dropped_file())
                &&& (keys.escape && !assigning) ==> (r.requests@.last() is Close)
            }),
    {
        let mut requests: Vec<UIRequest> = Vec::new();
        if keys.post {
            match self.post() {
                Some(req) => requests.push(req),
                None => {},
            }
        }
        if keys.todo {
            self.side_panel.select_side_panel(Some(SidePanelType::Todo));
        }
        if keys.todo_detail {
            self.side_panel.select_side_panel(Some(SidePanelType::TodoDetail));
        }
        if keys.tag {
            self.side_panel.select_side_panel(Some(SidePanelType::Tag));
        }
        if keys.assign {
            self.side_panel.select_side_panel(Some(SidePanelType::TagAssigne));
            self.state = UIState::TagAssign;
        }
        if keys.escape {
            self.preview = None;
            if self.state == UIState::TagAssign {
                self.state = UIState::Normal;
            } else {
                requests.push(UIRequest::Close);
            }
        }
        KeyOutcome { requests, open_dump_dialog: keys.dump }
    }
}

} // verus!
