//! The answers of the HTTP front: each carries a status, 0 with the text
//! "Ok" on success and 1 with the store's error otherwise.

use vstd::prelude::*;

verus! {

/// The part common to every answer.
#[derive(Clone, Debug, PartialEq, Eq)]
pub struct ResponseBase {
    pub status: u64,
    pub text: String,
}

/// The answer to a store operation with outcome `r`: the base, and the
/// value to send with it on success.
pub fn answer<T>(r: Result<T, String>) -> (a: (ResponseBase, Option<T>))
    ensures
        r matches Ok(v) ==> a.0.status == 0 && a.0.text@ == "Ok"@ && a.1 == Some(v),
        r matches Err(e) ==> a.0.status == 1 && a.0.text@ == e@ && a.1 is None,
{
    match r {
        Ok(v) => (ResponseBase { status: 0, text: String::from_str("Ok") }, Some(v)),
        Err(e) => (ResponseBase { status: 1, text: e }, None),
    }
}

} // verus!
