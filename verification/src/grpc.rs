//! The messages of the TimesMan gRPC service and their conversions from
//! and to the data model.

use vstd::prelude::*;

use crate::time::{chrono_accepts, epoch_seconds, valid_civil, CivilDateTime, DateTime};
use crate::types;
use crate::types::opt_str_view;

verus! {

/// A point in time on the wire: seconds since the Unix epoch and
/// nanoseconds, as the protobuf well-known type carries it.
#[derive(Clone, Copy, Debug, PartialEq, Eq)]
pub struct Timestamp {
    pub seconds: i64,
    pub nanos: i32,
}

/// prost-types' `Timestamp::date_time`, the timestamp of a UTC calendar date
/// and time.
///
/// Trusted: on success the nanoseconds are 0 (it calls `date_time_nanos`
/// with 0) and the seconds are those from 1970-01-01 00:00:00 UTC to the
/// given date and time of the proleptic Gregorian calendar (its source
/// counts the seconds of the years before, of the months before and of the
/// day, as musl does); its source refuses only dates outside its range
/// (years beyond about 2.9e11), months outside 1..=12, days beyond the
/// Gregorian length of the month, and hours, minutes or seconds out of
/// range, so every valid date with a year within four billion of 0 is
/// accepted.
#[verifier::external_body]
fn prost_date_time(year: i64, month: u8, day: u8, hour: u8, minute: u8, second: u8) -> (r: Option<Timestamp>)
    ensures
        r matches Some(t) ==> t.seconds as int == epoch_seconds(year as int, month as int, day as int, hour as int,
            minute as int, second as int) && t.nanos == 0,
        valid_civil(year as int, month as int, day as int, hour as int, minute as int, second as int)
            && -4_000_000_000 <= year <= 4_000_000_000 ==> r is Some,
{
    match prost_types::Timestamp::date_time(year, month, day, hour, minute, second) {
        Ok(t) => Some(Timestamp { seconds: t.seconds, nanos: t.nanos }),
        Err(_) => None,
    }
}

/// The wire timestamp of a point: its seconds since 1970, to the whole
/// second.
pub open spec fn spec_timestamp(c: DateTime) -> Timestamp {
    Timestamp { seconds: c.spec_secs(), nanos: 0 }
}

/// The wire timestamp of a point in time, to the whole second: its
/// calendar fields, read by chrono, put back together by prost-types.
pub fn to_timestamp(c: DateTime) -> (r: Timestamp)
    ensures
        r == spec_timestamp(c),
        readable(r),
{
    let secs = c.secs();
    let p: CivilDateTime = c.civil();
    match prost_date_time(p.year as i64, p.month as u8, p.day as u8, p.hour as u8, p.minute as u8, p.second as u8) {
        Some(t) => t,
        None => {
            proof {
                assert(false);
            }
            Timestamp { seconds: secs, nanos: 0 }
        },
    }
}

/// The wire timestamp of an optional point in time.
pub open spec fn spec_opt_timestamp(c: Option<DateTime>) -> Option<Timestamp> {
    match c {
        Some(c) => Some(spec_timestamp(c)),
        None => None,
    }
}

/// The wire timestamp of an optional point in time.
pub fn to_opt_timestamp(c: Option<DateTime>) -> (r: Option<Timestamp>)
    ensures
        r == spec_opt_timestamp(c),
        opt_readable(r),
{
    match c {
        Some(c) => Some(to_timestamp(c)),
        None => None,
    }
}

/// Chrono can read the wire timestamp back (its nanoseconds taken as `u32`).
pub open spec fn readable(t: Timestamp) -> bool {
    chrono_accepts(t.seconds, t.nanos as u32)
}

/// An optional wire timestamp that chrono can read back, if present.
pub open spec fn opt_readable(t: Option<Timestamp>) -> bool {
    t matches Some(t) ==> readable(t)
}

/// The point in time read back from `t` has `t`'s seconds and nanoseconds.
pub open spec fn read_as(t: Timestamp, d: DateTime) -> bool {
    d.spec_secs() == t.seconds && d.spec_nanos() == t.nanos as u32
}

/// An optional point in time read back from an optional wire timestamp.
pub open spec fn opt_read_as(t: Option<Timestamp>, d: Option<DateTime>) -> bool {
    match t {
        Some(t) => d matches Some(d) && read_as(t, d),
        None => d is None,
    }
}

/// The point in time of a wire timestamp; chrono must accept it.
pub fn from_timestamp(t: Timestamp) -> (r: DateTime)
    requires
        readable(t),
    ensures
        read_as(t, r),
{
    DateTime::from_timestamp(t.seconds, t.nanos as u32).unwrap()
}

/// Whether a creation time is present and chrono can read it and the
/// optional update time.
pub fn timestamps_readable(created: Option<Timestamp>, updated: Option<Timestamp>) -> (r: bool)
    ensures
        r == ((created matches Some(c) && readable(c)) && opt_readable(updated)),
{
    let c_ok = match created {
        Some(c) => try_from_timestamp(c).is_some(),
        None => false,
    };
    let u_ok = match updated {
        Some(u) => try_from_timestamp(u).is_some(),
        None => true,
    };
    c_ok && u_ok
}

/// The point in time of a wire timestamp, or `None` when chrono refuses it.
pub fn try_from_timestamp(t: Timestamp) -> (r: Option<DateTime>)
    ensures
        r is Some <==> readable(t),
        r matches Some(d) ==> read_as(t, d),
{
    DateTime::from_timestamp(t.seconds, t.nanos as u32)
}

/// The optional point in time of an optional wire timestamp.
pub fn from_opt_timestamp(t: Option<Timestamp>) -> (r: Option<DateTime>)
    requires
        opt_readable(t),
    ensures
        opt_read_as(t, r),
{
    match t {
        Some(t) => Some(from_timestamp(t)),
        None => None,
    }
}

/// `m` is the message of the times `v`.
pub open spec fn is_times_msg(m: Times, v: types::TimesV) -> bool {
    &&& m.id == v.id
    &&& m.title@ == v.title
    &&& m.created_at == Some(spec_timestamp(v.created_at))
    &&& m.updated_at == spec_opt_timestamp(v.updated_at)
}

/// `m` is the message of the post `v`.
pub open spec fn is_post_msg(m: Post, v: types::PostV) -> bool {
    &&& m.id == v.id
    &&& m.post@ == v.post
    &&& m.created_at == Some(spec_timestamp(v.created_at))
    &&& m.updated_at == spec_opt_timestamp(v.updated_at)
    &&& m.tagid == v.tag
}

/// `m` is the message of the todo `v`.
pub open spec fn is_todo_msg(m: Todo, v: types::TodoV) -> bool {
    &&& m.id == v.id
    &&& m.content@ == v.content
    &&& opt_str_view(m.detail) == v.detail
    &&& m.created_at == Some(spec_timestamp(v.created_at))
    &&& m.done_at == spec_opt_timestamp(v.done_at)
}

/// `v` is the times read back from the message `m`.
pub open spec fn is_times_of(v: types::TimesV, m: Times) -> bool {
    &&& v.id == m.id
    &&& v.title == m.title@
    &&& read_as(m.created_at.unwrap(), v.created_at)
    &&& opt_read_as(m.updated_at, v.updated_at)
}

/// `v` is the post read back from the message `m`, without a file.
pub open spec fn is_post_of(v: types::PostV, m: Post) -> bool {
    &&& v.id == m.id
    &&& v.post == m.post@
    &&& read_as(m.created_at.unwrap(), v.created_at)
    &&& opt_read_as(m.updated_at, v.updated_at)
    &&& v.file is None
    &&& v.tag == m.tagid
}

/// The post that a readable message stands for.
pub open spec fn post_of_msg(m: Post) -> types::PostV {
    choose|p: types::PostV| is_post_of(p, m)
}

/// A message stands for one post only.
pub proof fn lemma_post_of_msg(p: types::PostV, m: Post)
    requires
        is_post_of(p, m),
    ensures
        post_of_msg(m) == p,
{
    let q = post_of_msg(m);
    assert(is_post_of(q, m));
    DateTime::lemma_eq(p.created_at, q.created_at);
    if let Some(u) = p.updated_at {
        DateTime::lemma_eq(u, q.updated_at.unwrap());
    }
}

/// A times on the wire.
#[derive(Clone, Debug, PartialEq, Eq)]
pub struct Times {
    pub id: u64,
    pub title: String,
    pub created_at: Option<Timestamp>,
    pub updated_at: Option<Timestamp>,
}

/// A post on the wire; files do not travel.
#[derive(Clone, Debug, PartialEq, Eq)]
pub struct Post {
    pub id: u64,
    pub post: String,
    pub created_at: Option<Timestamp>,
    pub updated_at: Option<Timestamp>,
    pub tagid: Option<u64>,
}

/// A todo on the wire.
#[derive(Clone, Debug, PartialEq, Eq)]
pub struct Todo {
    pub id: u64,
    pub content: String,
    pub detail: Option<String>,
    pub created_at: Option<Timestamp>,
    pub done_at: Option<Timestamp>,
}

/// The list of every times.
#[derive(Clone, Debug, PartialEq, Eq)]
pub struct TimesArray {
    pub timeses: Vec<Times>,
}

/// The posts of a times.
#[derive(Clone, Debug, PartialEq, Eq)]
pub struct PostArray {
    pub posts: Vec<Post>,
}

/// The todos of a times.
#[derive(Clone, Debug, PartialEq, Eq)]
pub struct TodoArray {
    pub todos: Vec<Todo>,
}

/// The title of a times to create.
#[derive(Clone, Debug, PartialEq, Eq)]
pub struct TimesTitle {
    pub title: String,
}

/// The identifier of a times.
#[derive(Clone, Copy, Debug, PartialEq, Eq)]
pub struct TimesId {
    pub id: u64,
}

/// A post to create under the times `id`.
#[derive(Clone, Debug, PartialEq, Eq)]
pub struct CreatePostPrams {
    pub id: u64,
    pub text: String,
}

/// A post to remove.
#[derive(Clone, Copy, Debug, PartialEq, Eq)]
pub struct DeletePostParam {
    pub tid: u64,
    pub pid: u64,
}

/// A post to replace.
#[derive(Clone, Debug, PartialEq, Eq)]
pub struct UpdatePostParam {
    pub tid: u64,
    pub post: Option<Post>,
}

/// A todo to create, with an optional detail.
#[derive(Clone, Debug, PartialEq, Eq)]
pub struct CreateTodoParams {
    pub tid: u64,
    pub content: String,
    pub detail: Option<String>,
}

/// A todo to mark done or not done.
#[derive(Clone, Copy, Debug, PartialEq, Eq)]
pub struct DoneTodoParams {
    pub tid: u64,
    pub tdid: u64,
    pub done: bool,
}

/// A todo to read.
#[derive(Clone, Copy, Debug, PartialEq, Eq)]
pub struct TodoDetailParams {
    pub tid: u64,
    pub tdid: u64,
}

/// A new detail for a todo.
#[derive(Clone, Debug, PartialEq, Eq)]
pub struct UpdateTodoDetailParams {
    pub tid: u64,
    pub tdid: u64,
    pub detail: String,
}

impl Times {
    /// The message of a times.
    pub fn from_model(value: types::Times) -> (r: Times)
        ensures
            r.id == value.id,
            r.title@ == value.title@,
            r.created_at == Some(spec_timestamp(value.created_at)),
            r.updated_at == spec_opt_timestamp(value.updated_at),
            is_times_msg(r, value@),
            r.readable(),
    {
        Times {
            id: value.id,
            title: value.title,
            created_at: Some(to_timestamp(value.created_at)),
            updated_at: to_opt_timestamp(value.updated_at),
        }
    }

    /// The message carries a creation time, and chrono can read its times.
    pub open spec fn readable(&self) -> bool {
        &&& self.created_at matches Some(c) && readable(c)
        &&& opt_readable(self.updated_at)
    }

    /// Whether the message carries a creation time and chrono can read its
    /// times.
    pub fn is_readable(&self) -> (r: bool)
        ensures
            r == self.readable(),
    {
        timestamps_readable(self.created_at, self.updated_at)
    }

    /// The times of a message.
    pub fn into_model(self) -> (r: types::Times)
        requires
            self.readable(),
        ensures
            r.id == self.id,
            r.title@ == self.title@,
            read_as(self.created_at.unwrap(), r.created_at),
            opt_read_as(self.updated_at, r.updated_at),
            is_times_of(r@, self),
    {
        let c = self.created_at.unwrap();
        types::Times {
            id: self.id,
            title: self.title,
            created_at: from_timestamp(c),
            updated_at: from_opt_timestamp(self.updated_at),
        }
    }

    /// The times of a message, or `None` when it lacks a creation time or
    /// chrono refuses one of its times.
    pub fn try_into_model(self) -> (r: Option<types::Times>)
        ensures
            r is Some <==> self.readable(),
            r matches Some(t) ==> t.id == self.id && t.title@ == self.title@
                && read_as(self.created_at.unwrap(), t.created_at)
                && opt_read_as(self.updated_at, t.updated_at)
                && is_times_of(t@, self),
    {
        match self.created_at {
            None => None,
            Some(c) => {
                if try_from_timestamp(c).is_none() {
                    return None;
                }
                if let Some(u) = self.updated_at {
                    if try_from_timestamp(u).is_none() {
                        return None;
                    }
                }
                Some(self.into_model())
            },
        }
    }
}

impl Post {
    /// The message of a post; its file is left behind.
    pub fn from_model(value: types::Post) -> (r: Post)
        ensures
            r.id == value.id,
            r.post@ == value.post@,
            r.created_at == Some(spec_timestamp(value.created_at)),
            r.updated_at == spec_opt_timestamp(value.updated_at),
            r.tagid == value.tag,
            is_post_msg(r, value@),
            r.readable(),
    {
        Post {
            id: value.id,
            post: value.post,
            created_at: Some(to_timestamp(value.created_at)),
            updated_at: to_opt_timestamp(value.updated_at),
            tagid: value.tag,
        }
    }

    /// The message carries a creation time, and chrono can read its times.
    pub open spec fn readable(&self) -> bool {
        &&& self.created_at matches Some(c) && readable(c)
        &&& opt_readable(self.updated_at)
    }

    /// Whether the message carries a creation time and chrono can read its
    /// times.
    pub fn is_readable(&self) -> (r: bool)
        ensures
            r == self.readable(),
    {
        timestamps_readable(self.created_at, self.updated_at)
    }

    /// The post of a message, without a file.
    pub fn into_model(self) -> (r: types::Post)
        requires
            self.readable(),
        ensures
            r.id == self.id,
            r.post@ == self.post@,
            read_as(self.created_at.unwrap(), r.created_at),
            opt_read_as(self.updated_at, r.updated_at),
            r.file is None,
            r.tag == self.tagid,
            is_post_of(r@, self),
    {
        let c = self.created_at.unwrap();
        types::Post {
            id: self.id,
            post: self.post,
            created_at: from_timestamp(c),
            updated_at: from_opt_timestamp(self.updated_at),
            file: None,
            tag: self.tagid,
        }
    }

    /// The post of a message, or `None` when it lacks a creation time or
    /// chrono refuses one of its times.
    pub fn try_into_model(self) -> (r: Option<types::Post>)
        ensures
            r is Some <==> self.readable(),
            r matches Some(p) ==> p.id == self.id && p.post@ == self.post@
                && read_as(self.created_at.unwrap(), p.created_at)
                && opt_read_as(self.updated_at, p.updated_at)
                && p.file is None && p.tag == self.tagid
                && is_post_of(p@, self),
    {
        match self.created_at {
            None => None,
            Some(c) => {
                if try_from_timestamp(c).is_none() {
                    return None;
                }
                if let Some(u) = self.updated_at {
                    if try_from_timestamp(u).is_none() {
                        return None;
                    }
                }
                Some(self.into_model())
            },
        }
    }
}

impl Todo {
    /// The message of a todo.
    pub fn from_model(value: types::Todo) -> (r: Todo)
        ensures
            r.id == value.id,
            r.content@ == value.content@,
            opt_str_view(r.detail) == opt_str_view(value.detail),
            r.created_at == Some(spec_timestamp(value.created_at)),
            r.done_at == spec_opt_timestamp(value.done_at),
            is_todo_msg(r, value@),
            r.readable(),
    {
        Todo {
            id: value.id,
            content: value.content,
            detail: value.detail,
            created_at: Some(to_timestamp(value.created_at)),
            done_at: to_opt_timestamp(value.done_at),
        }
    }

    /// The message carries a creation time, and chrono can read its times.
    pub open spec fn readable(&self) -> bool {
        &&& self.created_at matches Some(c) && readable(c)
        &&& opt_readable(self.done_at)
    }

    /// The todo of a message.
    pub fn into_model(self) -> (r: types::Todo)
        requires
            self.readable(),
        ensures
            r.id == self.id,
            r.content@ == self.content@,
            opt_str_view(r.detail) == opt_str_view(self.detail),
            read_as(self.created_at.unwrap(), r.created_at),
            opt_read_as(self.done_at, r.done_at),
    {
        let c = self.created_at.unwrap();
        types::Todo {
            id: self.id,
            content: self.content,
            detail: self.detail,
            created_at: from_timestamp(c),
            done_at: from_opt_timestamp(self.done_at),
        }
    }

    /// The todo of a message, or `None` when it lacks a creation time or
    /// chrono refuses one of its times.
    pub fn try_into_model(self) -> (r: Option<types::Todo>)
        ensures
            r is Some <==> self.readable(),
            r matches Some(t) ==> t.id == self.id && t.content@ == self.content@
                && opt_str_view(t.detail) == opt_str_view(self.detail)
                && read_as(self.created_at.unwrap(), t.created_at)
                && opt_read_as(self.done_at, t.done_at),
    {
        match self.created_at {
            None => None,
            Some(c) => {
                if try_from_timestamp(c).is_none() {
                    return None;
                }
                if let Some(u) = self.done_at {
                    if try_from_timestamp(u).is_none() {
                        return None;
                    }
                }
                Some(self.into_model())
            },
        }
    }
}

/// A point in time sent over the wire and read back is the same point,
/// when it falls on a whole second: the wire keeps whole seconds.
pub proof fn lemma_time_roundtrip(c: DateTime, d: DateTime)
    requires
        c.spec_nanos() == 0,
        read_as(spec_timestamp(c), d),
    ensures
        d == c,
{
    DateTime::lemma_eq(c, d);
}

/// An optional point in time sent over the wire and read back is the same,
/// when it falls on a whole second.
pub proof fn lemma_opt_time_roundtrip(c: Option<DateTime>, d: Option<DateTime>)
    requires
        c matches Some(x) ==> x.spec_nanos() == 0,
        opt_read_as(spec_opt_timestamp(c), d),
    ensures
        d == c,
{
    if let Some(x) = c {
        lemma_time_roundtrip(x, d.unwrap());
    }
}

/// A todo sent over the wire and read back is the same todo, when its times
/// fall on whole seconds.
pub proof fn law_todo_roundtrip(t: types::Todo, m: Todo, r: types::Todo)
    requires
        is_todo_msg(m, t@),
        r.id == m.id,
        r.content@ == m.content@,
        opt_str_view(r.detail) == opt_str_view(m.detail),
        read_as(m.created_at.unwrap(), r.created_at),
        opt_read_as(m.done_at, r.done_at),
        t.created_at.spec_nanos() == 0,
        t.done_at matches Some(d) ==> d.spec_nanos() == 0,
    ensures
        r@ == t@,
{
    lemma_time_roundtrip(t.created_at, r.created_at);
    lemma_opt_time_roundtrip(t.done_at, r.done_at);
}

/// A times sent over the wire and read back is the same times, when its
/// times fall on whole seconds.
pub proof fn law_times_roundtrip(t: types::Times, m: Times, r: types::TimesV)
    requires
        is_times_msg(m, t@),
        is_times_of(r, m),
        t.created_at.spec_nanos() == 0,
        t.updated_at matches Some(d) ==> d.spec_nanos() == 0,
    ensures
        r == t@,
{
    lemma_time_roundtrip(t.created_at, r.created_at);
    lemma_opt_time_roundtrip(t.updated_at, r.updated_at);
}

/// A post sent over the wire and read back is the same post without its
/// file, when its times fall on whole seconds.
pub proof fn law_post_roundtrip(p: types::Post, m: Post, r: types::PostV)
    requires
        is_post_msg(m, p@),
        is_post_of(r, m),
        p.created_at.spec_nanos() == 0,
        p.updated_at matches Some(d) ==> d.spec_nanos() == 0,
    ensures
        r == (types::PostV { file: None, ..p@ }),
{
    lemma_time_roundtrip(p.created_at, r.created_at);
    lemma_opt_time_roundtrip(p.updated_at, r.updated_at);
}

} // verus!
