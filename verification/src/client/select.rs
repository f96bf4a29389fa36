//! The screen that lists the times: which times a user action opens or
//! creates, and what the model does with the answers of the store.

use vstd::prelude::*;

use crate::text::{concat, decimal, decimal_string, parse_u64, parse_u64_str, str_equal, zero_padded, zero_padded_string};
use crate::time::{civil_of, epoch_day, law_civil_day, local_now, valid_civil, CivilDateTime, DateTime};
use crate::bstore::ram::RamStore;
use crate::types::{Tid, Times, TimesV};

verus! {

broadcast use {vstd::seq_lib::group_to_multiset_ensures, vstd::multiset::group_multiset_axioms};

/// What the list screen asks for.
#[derive(Debug)]
pub enum UIRequest {
    SelectTimes(Tid),
    CreateTimes(String),
    Close,
}

/// What the model tells the list screen.
#[derive(Debug)]
pub enum UIResponse {
    SelectErr(String),
    SelectOk,
}

/// The year as chrono's "%Y" writes it: four digits from 0 to 9999,
/// otherwise a sign and at least four digits.
pub open spec fn year_text(y: int) -> Seq<char> {
    if 0 <= y <= 9999 {
        zero_padded(y as nat, 4)
    } else if y > 9999 {
        seq!['+'] + zero_padded(y as nat, 4)
    } else {
        seq!['-'] + zero_padded((-y) as nat, 4)
    }
}

/// The title of the times of a day, as chrono's "%Y%m%d" writes the date.
pub open spec fn day_title(c: CivilDateTime) -> Seq<char> {
    year_text(c.year as int) + zero_padded(c.month as nat, 2) + zero_padded(c.day as nat, 2)
}

/// The title of the times of the day of `c`.
pub fn day_title_string(c: CivilDateTime) -> (r: String)
    ensures
        r@ == day_title(c),
{
    let y = c.year;
    let year = if 0 <= y && y <= 9999 {
        zero_padded_string(y as u64, 4)
    } else if y > 9999 {
        proof { reveal_strlit("+"); }
        let digits = zero_padded_string(y as u64, 4);
        concat("+", digits.as_str())
    } else {
        proof { reveal_strlit("-"); }
        let digits = zero_padded_string((-(y as i64)) as u64, 4);
        concat("-", digits.as_str())
    };
    let month = zero_padded_string(c.month as u64, 2);
    let day = zero_padded_string(c.day as u64, 2);
    let ym = concat(year.as_str(), month.as_str());
    concat(ym.as_str(), day.as_str())
}

/// The times asked for by the day of a point in time is the one titled with
/// the date of the day that holds the point: the date whose day number is
/// the whole days from 1970 to the point, written as "%Y%m%d".
pub proof fn law_day_request_is_the_day_of_the_point(secs: int, times: Seq<Times>, r: UIRequest)
    requires
        exists|c: CivilDateTime| civil_of(c, secs) && today_request(day_title(c), times, r),
    ensures
        exists|c: CivilDateTime| #![trigger day_title(c)]
            valid_civil(c.year as int, c.month as int, c.day as int, c.hour as int, c.minute as int, c.second as int)
            && epoch_day(c.year as int, c.month as int, c.day as int) == secs / 86400
            && today_request(year_text(c.year as int) + zero_padded(c.month as nat, 2) + zero_padded(c.day as nat, 2), times, r),
{
    let c = choose|c: CivilDateTime| civil_of(c, secs) && today_request(day_title(c), times, r);
    law_civil_day(c, secs);
    assert(day_title(c) == year_text(c.year as int) + zero_padded(c.month as nat, 2) + zero_padded(c.day as nat, 2));
}

/// The view of an optional times.
pub open spec fn opt_times_view(t: Option<Times>) -> Option<TimesV> {
    match t {
        Some(t) => Some(t@),
        None => None,
    }
}

/// The first times of `times` titled `title`.
pub fn get_times(title: &str, times: &Vec<Times>) -> (r: Option<Times>)
    ensures
        r is None <==> forall|i: int| 0 <= i < times.len() ==> times@[i].title@ != title@,
        r matches Some(t) ==> exists|i: int| 0 <= i < times.len() && times@[i].title@ == title@
            && (forall|j: int| 0 <= j < i ==> times@[j].title@ != title@) && t@ == times@[i]@,
{
    let mut i: usize = 0;
    while i < times.len()
        invariant
            i <= times.len(),
            forall|j: int| 0 <= j < i ==> times@[j].title@ != title@,
        decreases times.len() - i,
    {
        if str_equal(times[i].title.as_str(), title) {
            return Some(times[i].duplicate());
        }
        i = i + 1;
    }
    None
}

/// The request for the times of the day titled `title`: open it when the
/// list has it, else create it.
pub open spec fn today_request(title: Seq<char>, times: Seq<Times>, r: UIRequest) -> bool {
    if exists|i: int| 0 <= i < times.len() && times[i].title@ == title {
        r matches UIRequest::SelectTimes(id) && exists|i: int| 0 <= i < times.len() && times[i].title@ == title
            && (forall|j: int| 0 <= j < i ==> times[j].title@ != title) && id == times[i].id
    } else {
        r matches UIRequest::CreateTimes(t) && t@ == title
    }
}

/// The keys pressed on the list screen.
#[derive(Clone, Copy, Debug)]
pub struct SelectKeys {
    pub escape: bool,
    /// T: the times of today.
    pub today: bool,
    /// N: a new times.
    pub new: bool,
    /// O: open a times by identifier.
    pub open: bool,
}

/// The state of the list screen: the window for the title of a new times
/// and the window for the identifier of a times to open.
pub struct SelectUI {
    new: bool,
    new_title: String,
    open: bool,
    open_id: String,
    open_err_msg: Option<String>,
}

/// The view of an optional string.
pub open spec fn opt_text(s: Option<String>) -> Option<Seq<char>> {
    match s {
        Some(s) => Some(s@),
        None => None,
    }
}

impl SelectUI {
    /// Whether the window for a new title is shown.
    pub closed spec fn is_new(&self) -> bool {
        self.new
    }

    /// The title written for a new times.
    pub closed spec fn new_title(&self) -> Seq<char> {
        self.new_title@
    }

    /// Whether the window for an identifier is shown.
    pub closed spec fn is_open(&self) -> bool {
        self.open
    }

    /// The identifier written.
    pub closed spec fn open_id(&self) -> Seq<char> {
        self.open_id@
    }

    /// The error shown in the identifier window.
    pub closed spec fn open_err_msg(&self) -> Option<Seq<char>> {
        opt_text(self.open_err_msg)
    }

    /// The list screen with no window shown and nothing written.
    pub fn new() -> (r: Self)
        ensures
            !r.is_new(),
            r.new_title() == Seq::<char>::empty(),
            !r.is_open(),
            r.open_id() == Seq::<char>::empty(),
            r.open_err_msg() is None,
    {
        SelectUI { new: false, new_title: String::new(), open: false, open_id: String::new(), open_err_msg: None }
    }

    /// Whether a window is shown; it then takes the escape key alone.
    pub fn window_shown(&self) -> (r: bool)
        ensures
            r == (self.is_new() || self.is_open()),
    {
        self.new || self.open
    }

    /// Whether the window for a new title is shown.
    pub fn new_shown(&self) -> (r: bool)
        ensures
            r == self.is_new(),
    {
        self.new
    }

    /// Whether the window for an identifier is shown.
    pub fn open_shown(&self) -> (r: bool)
        ensures
            r == self.is_open(),
    {
        self.open
    }

    /// The error shown in the identifier window.
    pub fn open_err(&self) -> (r: &Option<String>)
        ensures
            opt_text(*r) == self.open_err_msg(),
    {
        &self.open_err_msg
    }

    /// The title being written, to edit.
    pub fn new_title_mut(&mut self) -> (r: &mut String)
        ensures
            r@ == old(self).new_title(),
            final(self).new_title() == final(r)@,
            final(self).is_new() == old(self).is_new(),
            final(self).is_open() == old(self).is_open(),
            final(self).open_id() == old(self).open_id(),
            final(self).open_err_msg() == old(self).open_err_msg(),
    {
        &mut self.new_title
    }

    /// The identifier being written, to edit.
    pub fn open_id_mut(&mut self) -> (r: &mut String)
        ensures
            r@ == old(self).open_id(),
            final(self).open_id() == final(r)@,
            final(self).is_new() == old(self).is_new(),
            final(self).new_title() == old(self).new_title(),
            final(self).is_open() == old(self).is_open(),
            final(self).open_err_msg() == old(self).open_err_msg(),
    {
        &mut self.open_id
    }

    /// The request for the times of the day whose title is `title`.
    pub fn select_today_titled(&self, title: String, times: &Vec<Times>) -> (r: UIRequest)
        ensures
            today_request(title@, times@, r),
    {
        match get_times(title.as_str(), times) {
            Some(t) => UIRequest::SelectTimes(t.id),
            None => UIRequest::CreateTimes(title),
        }
    }

    /// The request for the times of the day that holds the point `now`:
    /// the times titled with that date as "%Y%m%d" writes it.
    pub fn select_day(&self, now: DateTime, times: &Vec<Times>) -> (r: UIRequest)
        ensures
            exists|c: CivilDateTime| civil_of(c, now.spec_secs() as int) && today_request(day_title(c), times@, r),
    {
        let c = now.civil();
        let title = day_title_string(c);
        let r = self.select_today_titled(title, times);
        assert(civil_of(c, now.spec_secs() as int) && today_request(day_title(c), times@, r));
        r
    }

    /// The request for the times of today, by the local clock.
    pub fn select_today(&self, times: &Vec<Times>) -> (r: UIRequest)
        ensures
            exists|c: CivilDateTime, now: DateTime| civil_of(c, now.spec_secs() as int) && today_request(day_title(c), times@, r),
    {
        let now = local_now();
        let r = self.select_day(now, times);
        let ghost c = choose|c: CivilDateTime| civil_of(c, now.spec_secs() as int) && today_request(day_title(c), times@, r);
        assert(civil_of(c, now.spec_secs() as int) && today_request(day_title(c), times@, r));
        r
    }

    /// The title written becomes a new times; the window closes and the
    /// title is emptied.
    pub fn submit_new(&mut self) -> (r: UIRequest)
        ensures
            r matches UIRequest::CreateTimes(t) && t@ == old(self).new_title(),
            !final(self).is_new(),
            final(self).new_title() == Seq::<char>::empty(),
            final(self).is_open() == old(self).is_open(),
            final(self).open_id() == old(self).open_id(),
            final(self).open_err_msg() == old(self).open_err_msg(),
    {
        self.new = false;
        let title = self.new_title.clone();
        self.new_title = String::new();
        UIRequest::CreateTimes(title)
    }

    /// The identifier written is opened; one that is not a number is
    /// refused with a message.
    pub fn submit_open(&mut self) -> (r: Option<UIRequest>)
        ensures
            final(self).is_new() == old(self).is_new(),
            final(self).new_title() == old(self).new_title(),
            final(self).is_open() == old(self).is_open(),
            final(self).open_id() == old(self).open_id(),
            match parse_u64(old(self).open_id()) {
                Some(tid) => (r matches Some(UIRequest::SelectTimes(t)) && t == tid)
                    && final(self).open_err_msg() == old(self).open_err_msg(),
                None => r is None && final(self).open_err_msg() == Some("Invalid input. please check it"@),
            },
    {
        match parse_u64_str(self.open_id.as_str()) {
            Some(tid) => Some(UIRequest::SelectTimes(tid)),
            None => {
                self.open_err_msg = Some(String::from_str("Invalid input. please check it"));
                None
            },
        }
    }

    /// What the keys ask for.  While a window is shown, escape closes it
    /// and the other keys are left alone; otherwise escape leaves the
    /// screen, T asks for today's times, N and O show their windows.
    pub fn on_keys(&mut self, keys: SelectKeys, times: &Vec<Times>) -> (r: Vec<UIRequest>)
        ensures
            final(self).new_title() == old(self).new_title(),
            final(self).open_id() == old(self).open_id(),
            final(self).open_err_msg() == old(self).open_err_msg(),
            old(self).is_new() ==> r.len() == 0 && final(self).is_new() == !keys.escape
                && final(self).is_open() == old(self).is_open(),
            !old(self).is_new() && old(self).is_open() ==> r.len() == 0 && !final(self).is_new()
                && final(self).is_open() == !keys.escape,
            !old(self).is_new() && !old(self).is_open() ==> {
                &&& final(self).is_new() == keys.new
                &&& final(self).is_open() == keys.open
                &&& r.len() == (if keys.escape { 1int } else { 0int }) + (if keys.today { 1int } else { 0int })
                &&& keys.escape ==> r@[0] is Close
                &&& keys.today ==> exists|c: CivilDateTime, now: DateTime| civil_of(c, now.spec_secs() as int)
                    && today_request(day_title(c), times@, r@.last())
            },
    {
        let mut reqs: Vec<UIRequest> = Vec::new();
        if self.new {
            if keys.escape {
                self.new = false;
            }
            return reqs;
        }
        if self.open {
            if keys.escape {
                self.open = false;
            }
            return reqs;
        }
        if keys.escape {
            reqs.push(UIRequest::Close);
        }
        if keys.today {
            let req = self.select_today(times);
            reqs.push(req);
        }
        if keys.new {
            self.new = true;
        }
        if keys.open {
            self.open = true;
        }
        reqs
    }

    /// Takes in the responses of the model: an error is shown in the
    /// identifier window; a success closes it and clears it.
    pub fn handle_ui_resp(&mut self, resp: &Vec<UIResponse>)
        ensures
            final(self).is_new() == old(self).is_new(),
            final(self).new_title() == old(self).new_title(),
            (forall|i: int| 0 <= i < resp.len() ==> resp@[i] is SelectErr) ==>
                final(self).is_open() == old(self).is_open() && final(self).open_id() == old(self).open_id(),
            (exists|i: int| 0 <= i < resp.len() && resp@[i] is SelectOk) ==>
                !final(self).is_open() && final(self).open_id() == Seq::<char>::empty(),
            resp.len() > 0 ==> match resp@.last() {
                UIResponse::SelectErr(e) => final(self).open_err_msg() == Some(e@),
                UIResponse::SelectOk => final(self).open_err_msg() is None,
            },
            resp.len() == 0 ==> final(self).open_err_msg() == old(self).open_err_msg()
                && final(self).is_open() == old(self).is_open() && final(self).open_id() == old(self).open_id(),
    {
        let mut i: usize = 0;
        while i < resp.len()
            invariant
                i <= resp.len(),
                self.new == old(self).new,
                self.new_title == old(self).new_title,
                (forall|j: int| 0 <= j < i ==> resp@[j] is SelectErr) ==>
                    self.open == old(self).open && self.open_id == old(self).open_id,
                (exists|j: int| 0 <= j < i && resp@[j] is SelectOk) ==> !self.open && self.open_id@ == Seq::<char>::empty(),
                i > 0 ==> match resp@[i - 1] {
                    UIResponse::SelectErr(e) => opt_text(self.open_err_msg) == Some(e@),
                    UIResponse::SelectOk => self.open_err_msg is None,
                },
                i == 0 ==> self.open_err_msg == old(self).open_err_msg,
            decreases resp.len() - i,
        {
            match &resp[i] {
                UIResponse::SelectErr(err) => {
                    self.open_err_msg = Some(err.clone());
                },
                UIResponse::SelectOk => {
                    self.open = false;
                    self.open_err_msg = None;
                    self.open_id = String::new();
                },
            }
            i = i + 1;
        }
    }
}

/// The message of a times that the list lacks.
pub fn not_found_message(tid: Tid) -> (r: String)
    ensures
        r@ == "id("@ + decimal(tid as nat) + ") is not found"@,
{
    let id = decimal_string(tid);
    let a = concat("id(", id.as_str());
    concat(a.as_str(), ") is not found")
}

/// A times of the list with the handle of its store.
pub struct TimesPack<S> {
    pub times: Times,
    pub tstore: S,
}

/// An answer handed back to the list model.
pub enum AsyncEvent<S> {
    AddTimes(Times, S),
    SelectTimes(Tid),
    Close,
    Error(String),
}

/// What the list model asks of the application.
#[derive(Debug)]
pub enum SelectAppRequest {
    /// Show the times at this position of the list.
    ToTimes(usize),
    /// Leave the screen.
    Back,
}

/// What a request of the list screen calls for.
pub enum SelectStep<S> {
    /// Create a times with this title, then add it and select it.
    CreateTimes(String),
    /// Hand this answer back to the model.
    Send(AsyncEvent<S>),
}

/// How the list is ordered.
#[derive(Clone, Copy, Debug, PartialEq, Eq)]
pub enum Sort {
    ID,
    Name,
}

/// The times are in the order of their identifiers, from the largest when
/// `reverse`.
pub open spec fn times_ordered<S>(s: Seq<TimesPack<S>>, reverse: bool) -> bool {
    forall|i: int, j: int| 0 <= i < j < s.len() ==>
        if reverse { (#[trigger] s[i]).times.id >= (#[trigger] s[j]).times.id } else { s[i].times.id <= s[j].times.id }
}

/// The first position of `s` whose times comes after `id`, or the length.
fn pack_position<S>(s: &Vec<TimesPack<S>>, id: Tid, reverse: bool) -> (r: usize)
    requires
        times_ordered(s@, reverse),
    ensures
        r <= s.len(),
        forall|i: int| 0 <= i < r ==> if reverse { (#[trigger] s@[i]).times.id >= id } else { s@[i].times.id <= id },
        forall|i: int| r <= i < s.len() ==> if reverse { (#[trigger] s@[i]).times.id < id } else { s@[i].times.id > id },
{
    let mut i: usize = 0;
    while i < s.len()
        invariant
            i <= s.len(),
            times_ordered(s@, reverse),
            forall|k: int| 0 <= k < i ==> if reverse { (#[trigger] s@[k]).times.id >= id } else { s@[k].times.id <= id },
        decreases s.len() - i,
    {
        let after = if reverse { s[i].times.id < id } else { s[i].times.id > id };
        if after {
            return i;
        }
        i = i + 1;
    }
    i
}

/// Whether a times of the list has the identifier `id`.
pub open spec fn pack_id_is<S>(id: Tid) -> spec_fn(TimesPack<S>) -> bool {
    |p: TimesPack<S>| p.times.id == id
}

/// The times of `s` with the identifier `id`, in their order.
pub open spec fn packs_with_id<S>(s: Seq<TimesPack<S>>, id: Tid) -> Seq<TimesPack<S>> {
    s.filter(pack_id_is(id))
}

/// No times of `s` has the identifier `id`, so none is kept.
proof fn lemma_packs_with_id_none<S>(s: Seq<TimesPack<S>>, id: Tid)
    requires
        forall|i: int| 0 <= i < s.len() ==> (#[trigger] s[i]).times.id != id,
    ensures
        packs_with_id(s, id) == Seq::<TimesPack<S>>::empty(),
{
    let f = packs_with_id(s, id);
    if f.len() > 0 {
        s.lemma_filter_pred(pack_id_is(id), 0);
        assert(f.contains(f[0]));
        s.lemma_filter_contains_rev(pack_id_is(id), f[0]);
        let i = choose|i: int| 0 <= i < s.len() && s[i] == f[0];
        assert(s[i].times.id == id);
    }
    assert(f =~= Seq::<TimesPack<S>>::empty());
}

/// Of a single times, the times is kept when it has the identifier.
proof fn lemma_packs_with_id_single<S>(p: TimesPack<S>, id: Tid)
    ensures
        packs_with_id(seq![p], id) == (if p.times.id == id { seq![p] } else { Seq::<TimesPack<S>>::empty() }),
{
    reveal_with_fuel(Seq::filter, 2);
    assert(seq![p].drop_last() =~= Seq::<TimesPack<S>>::empty());
    assert(Seq::<TimesPack<S>>::empty().filter(pack_id_is(id)) =~= Seq::<TimesPack<S>>::empty());
    if p.times.id == id {
        assert(packs_with_id(seq![p], id) =~= seq![p]);
    } else {
        assert(packs_with_id(seq![p], id) =~= Seq::<TimesPack<S>>::empty());
    }
}

/// The list ordered by identifier, from the largest when `reverse`; equal
/// identifiers keep their order.
pub fn sort_packs<S>(v: Vec<TimesPack<S>>, reverse: bool) -> (r: Vec<TimesPack<S>>)
    ensures
        r@.to_multiset() == v@.to_multiset(),
        times_ordered(r@, reverse),
        forall|id: Tid| #[trigger] packs_with_id(r@, id) == packs_with_id(v@, id),
{
    let ghost orig = v@;
    let mut rest = v;
    let mut out: Vec<TimesPack<S>> = Vec::new();
    proof {
        reveal_with_fuel(Seq::filter, 1);
        assert forall|id: Tid| #[trigger] packs_with_id(orig, id) == packs_with_id(out@, id) + packs_with_id(rest@, id) by {
            assert(packs_with_id(out@, id) =~= Seq::<TimesPack<S>>::empty());
            assert(packs_with_id(orig, id) =~= packs_with_id(out@, id) + packs_with_id(rest@, id));
        }
    }
    while rest.len() > 0
        invariant
            out@.to_multiset().add(rest@.to_multiset()) == orig.to_multiset(),
            times_ordered(out@, reverse),
            forall|id: Tid| #[trigger] packs_with_id(orig, id) == packs_with_id(out@, id) + packs_with_id(rest@, id),
        decreases rest.len(),
    {
        let ghost before = rest@;
        let p = rest.remove(0);
        proof {
            vstd::seq_lib::to_multiset_remove(before, 0);
            assert(rest@ == before.remove(0));
            assert(before =~= seq![p] + rest@);
        }
        let pos = pack_position(&out, p.times.id, reverse);
        let ghost o = out@;
        out.insert(pos, p);
        proof {
            vstd::seq_lib::to_multiset_insert(o, pos as int, p);
            assert(out@ == o.insert(pos as int, p));
            let n = out@;
            assert forall|i: int, j: int| 0 <= i < j < n.len() implies
                if reverse { (#[trigger] n[i]).times.id >= (#[trigger] n[j]).times.id } else { n[i].times.id <= n[j].times.id } by {
                if i < pos && j < pos {
                    assert(n[i] == o[i] && n[j] == o[j]);
                } else if i < pos && j == pos {
                    assert(n[i] == o[i]);
                } else if i < pos && j > pos {
                    assert(n[i] == o[i] && n[j] == o[j - 1]);
                } else if i == pos {
                    assert(n[j] == o[j - 1]);
                } else {
                    assert(n[i] == o[i - 1] && n[j] == o[j - 1]);
                }
            }
            assert(out@.to_multiset().add(rest@.to_multiset()) =~= orig.to_multiset());
            let lo = o.subrange(0, pos as int);
            let hi = o.subrange(pos as int, o.len() as int);
            assert(o =~= lo + hi);
            assert(n =~= lo + seq![p] + hi);
            assert forall|id: Tid| #[trigger] packs_with_id(orig, id) == packs_with_id(out@, id) + packs_with_id(rest@, id) by {
                let rs = rest@;
                Seq::filter_distributes_over_add(seq![p], rs, pack_id_is(id));
                Seq::filter_distributes_over_add(lo, hi, pack_id_is(id));
                Seq::filter_distributes_over_add(lo + seq![p], hi, pack_id_is(id));
                Seq::filter_distributes_over_add(lo, seq![p], pack_id_is(id));
                lemma_packs_with_id_single(p, id);
                assert(packs_with_id(orig, id) == packs_with_id(o, id) + packs_with_id(before, id));
                if p.times.id == id {
                    assert forall|k: int| 0 <= k < hi.len() implies (#[trigger] hi[k]).times.id != id by {
                        assert(hi[k] == o[pos + k]);
                        assert(out@[pos + k + 1] == o[pos + k]);
                    }
                    lemma_packs_with_id_none(hi, id);
                    assert(packs_with_id(n, id) =~= packs_with_id(lo, id) + seq![p]);
                    assert(packs_with_id(o, id) =~= packs_with_id(lo, id));
                    assert(packs_with_id(orig, id) =~= packs_with_id(n, id) + packs_with_id(rs, id));
                } else {
                    assert(packs_with_id(n, id) =~= packs_with_id(lo, id) + packs_with_id(hi, id));
                    assert(packs_with_id(before, id) =~= packs_with_id(rs, id));
                    assert(packs_with_id(orig, id) =~= packs_with_id(n, id) + packs_with_id(rs, id));
                }
            }
        }
    }
    proof {
        reveal_with_fuel(Seq::filter, 1);
        assert forall|id: Tid| #[trigger] packs_with_id(out@, id) == packs_with_id(orig, id) by {
            assert(packs_with_id(rest@, id) =~= Seq::<TimesPack<S>>::empty());
            assert(packs_with_id(orig, id) =~= packs_with_id(out@, id) + packs_with_id(rest@, id));
        }
    }
    assert(out@.to_multiset() =~= out@.to_multiset().add(rest@.to_multiset()));
    out
}

/// The model of the list screen.
pub struct SelectModel<S> {
    times: Vec<TimesPack<S>>,
    uresp: Vec<UIResponse>,
}

impl<S> SelectModel<S> {
    /// The times of the list, with their store handles.
    pub closed spec fn packs(&self) -> Seq<TimesPack<S>> {
        self.times@
    }

    /// The responses waiting for the screen.
    pub closed spec fn responses(&self) -> Seq<UIResponse> {
        self.uresp@
    }

    /// An empty list.
    pub fn new() -> (r: Self)
        ensures
            r.packs() == Seq::<TimesPack<S>>::empty(),
            r.responses() == Seq::<UIResponse>::empty(),
    {
        SelectModel { times: Vec::new(), uresp: Vec::new() }
    }

    /// The times of the list, with their store handles.
    pub fn packs_ref(&self) -> (r: &Vec<TimesPack<S>>)
        ensures
            r@ == self.packs(),
    {
        &self.times
    }

    /// Hands the waiting responses to the screen.
    pub fn take_responses(&mut self) -> (r: Vec<UIResponse>)
        ensures
            r@ == old(self).responses(),
            final(self).responses() == Seq::<UIResponse>::empty(),
            final(self).packs() == old(self).packs(),
    {
        let mut r: Vec<UIResponse> = Vec::new();
        std::mem::swap(&mut r, &mut self.uresp);
        r
    }

    /// What a request of the screen calls for; ordering by identifier is
    /// done at once.  Ordering by name is not offered.
    pub fn handle_ureq(&mut self, req: SelectRequest) -> (r: Option<SelectStep<S>>)
        requires
            !(req matches SelectRequest::Sort(Sort::Name, _)),
        ensures
            final(self).responses() == old(self).responses(),
            match req {
                SelectRequest::Ui(UIRequest::CreateTimes(t)) => (r matches Some(SelectStep::CreateTimes(u)) && u == t)
                    && final(self).packs() == old(self).packs(),
                SelectRequest::Ui(UIRequest::SelectTimes(tid)) => (r matches Some(SelectStep::Send(AsyncEvent::SelectTimes(t))) && t == tid)
                    && final(self).packs() == old(self).packs(),
                SelectRequest::Ui(UIRequest::Close) => (r matches Some(SelectStep::Send(AsyncEvent::Close)))
                    && final(self).packs() == old(self).packs(),
                SelectRequest::Sort(_, reverse) => r is None
                    && final(self).packs().to_multiset() == old(self).packs().to_multiset()
                    && times_ordered(final(self).packs(), reverse),
            },
    {
        match req {
            SelectRequest::Ui(UIRequest::CreateTimes(title)) => Some(SelectStep::CreateTimes(title)),
            SelectRequest::Ui(UIRequest::SelectTimes(tid)) => Some(SelectStep::Send(AsyncEvent::SelectTimes(tid))),
            SelectRequest::Ui(UIRequest::Close) => Some(SelectStep::Send(AsyncEvent::Close)),
            SelectRequest::Sort(_, reverse) => {
                let mut v: Vec<TimesPack<S>> = Vec::new();
                std::mem::swap(&mut v, &mut self.times);
                self.times = sort_packs(v, reverse);
                None
            },
        }
    }

    /// The position of the first times with identifier `tid`.
    fn find_times(&self, tid: Tid) -> (r: Option<usize>)
        ensures
            r matches Some(i) ==> i < self.packs().len() && self.packs()[i as int].times.id == tid
                && forall|j: int| 0 <= j < i ==> self.packs()[j].times.id != tid,
            r is None ==> forall|j: int| 0 <= j < self.packs().len() ==> self.packs()[j].times.id != tid,
    {
        let mut i: usize = 0;
        while i < self.times.len()
            invariant
                i <= self.times.len(),
                forall|j: int| 0 <= j < i ==> self.times@[j].times.id != tid,
            decreases self.times.len() - i,
        {
            if self.times[i].times.id == tid {
                return Some(i);
            }
            i = i + 1;
        }
        None
    }

    /// Takes in one answer: a new times joins the list; selecting a times
    /// finds the first of its identifier and asks to show it, or reports
    /// that it is not found; closing leaves the screen.  Errors are not
    /// handled.
    pub fn handle_async_event(&mut self, event: AsyncEvent<S>) -> (r: Option<SelectAppRequest>)
        requires
            !(event is Error),
        ensures
            match event {
                AsyncEvent::AddTimes(t, s) => r is None
                    && final(self).packs() == old(self).packs().push(TimesPack { times: t, tstore: s })
                    && final(self).responses() == old(self).responses(),
                AsyncEvent::SelectTimes(tid) => final(self).packs() == old(self).packs() && (
                    if exists|i: int| 0 <= i < old(self).packs().len() && old(self).packs()[i].times.id == tid {
                        (r matches Some(SelectAppRequest::ToTimes(i)) && i < old(self).packs().len()
                            && old(self).packs()[i as int].times.id == tid
                            && (forall|j: int| 0 <= j < i ==> old(self).packs()[j].times.id != tid))
                        && final(self).responses() == old(self).responses().push(UIResponse::SelectOk)
                    } else {
                        r is None && final(self).responses().len() == old(self).responses().len() + 1
                            && final(self).responses().drop_last() == old(self).responses()
                            && (final(self).responses().last() matches UIResponse::SelectErr(m)
                                && m@ == "id("@ + decimal(tid as nat) + ") is not found"@)
                    }),
                AsyncEvent::Close => (r matches Some(SelectAppRequest::Back))
                    && final(self).packs() == old(self).packs() && final(self).responses() == old(self).responses(),
                AsyncEvent::Error(_) => false,
            },
    {
        match event {
            AsyncEvent::AddTimes(times, tstore) => {
                self.times.push(TimesPack { times, tstore });
                None
            },
            AsyncEvent::SelectTimes(tid) => {
                match self.find_times(tid) {
                    Some(i) => {
                        self.uresp.push(UIResponse::SelectOk);
                        Some(SelectAppRequest::ToTimes(i))
                    },
                    None => {
                        self.uresp.push(UIResponse::SelectErr(not_found_message(tid)));
                        None
                    },
                }
            },
            AsyncEvent::Close => Some(SelectAppRequest::Back),
            AsyncEvent::Error(_) => None,
        }
    }
}

/// A request to the list model: one of the screen, or a change of order.
pub enum SelectRequest {
    Ui(UIRequest),
    Sort(Sort, bool),
}

/// The work of a [`SelectStep::CreateTimes`] on a memory store: creates a
/// times titled `title`, then gives the answers that add it to the list,
/// with the position of its store as the handle, and select it.
pub fn create_times(store: &mut RamStore, title: String) -> (r: Vec<AsyncEvent<usize>>)
    requires
        old(store).wf(),
        old(store).ntid() < u64::MAX,
    ensures
        final(store).wf(),
        final(store).ntid() == old(store).ntid() + 1,
        final(store).tids() == old(store).tids().push(old(store).ntid()),
        final(store).stores().len() == old(store).stores().len() + 1,
        forall|i: int| 0 <= i < old(store).stores().len() ==> #[trigger] final(store).stores()[i] == old(store).stores()[i],
        r@.len() == 2,
        r@[0] matches AsyncEvent::AddTimes(t, i) && i == old(store).stores().len() && t.id == old(store).ntid()
            && t.title@ == title@ && t.updated_at is None && t@ == final(store).stores()[i as int].times(),
        r@[1] matches AsyncEvent::SelectTimes(tid) && tid == old(store).ntid(),
{
    let mut r: Vec<AsyncEvent<usize>> = Vec::new();
    let pos = store.len();
    let times = match store.create(title) {
        Ok(t) => t,
        Err(_) => {
            proof { assert(false); }
            return r;
        },
    };
    let tid = times.id;
    r.push(AsyncEvent::AddTimes(times, pos));
    r.push(AsyncEvent::SelectTimes(tid));
    r
}

} // verus!
