//! The documents that the storing handlers take: notes and to-do items.

pub mod clock;
pub mod id;
pub mod note;
pub mod todo;

use crate::json::{Json, JsonValue};
use crate::text::joined;
use vstd::prelude::*;

verus! {

/// The text of the member `key` of `doc`, where `doc` is an object whose
/// member of that name is a string.
pub open spec fn member_text(doc: JsonValue, key: Seq<char>) -> Option<Seq<char>> {
    match doc.get(key) {
        Some(found) => found.text(),
        None => None,
    }
}

/// The complaint that the member `key` is not there as a string.
pub open spec fn required(key: Seq<char>) -> Seq<char> {
    key + " is required"@
}

/// The text of the member `key` of `value`, or the complaint that it is
/// required.
pub fn get_str(value: &Json, key: &str) -> (r: Result<String, String>)
    ensures
        match r {
            Ok(text) => member_text(value@, key@) == Some(text@),
            Err(why) => member_text(value@, key@) is None && why@ == required(key@),
        },
{
    let found = match value.get(key) {
        Some(found) => found.as_str(),
        None => None,
    };
    match found {
        Some(text) => Ok(text.to_owned()),
        None => Err(joined(key, " is required")),
    }
}

} // verus!
