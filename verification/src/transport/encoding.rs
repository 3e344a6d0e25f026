//! Text out of bytes.

use vstd::prelude::*;
use vstd::utf8::{decode_utf8, valid_utf8};

verus! {

/// `std::str::from_utf8`: the text that `bytes` encode where they are
/// well-formed UTF-8, and nothing where they are not. Trusted, not proved.
#[verifier::external_body]
pub(crate) fn text_of(bytes: &[u8]) -> (r: Option<&str>)
    ensures
        r is Some <==> valid_utf8(bytes@),
        r matches Some(text) ==> text@ == decode_utf8(bytes@),
{
    match std::str::from_utf8(bytes) {
        Ok(text) => Some(text),
        Err(_) => None,
    }
}

} // verus!
