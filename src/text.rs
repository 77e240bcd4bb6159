use vstd::prelude::*;

use crate::store::{StoreError, TextField};

verus! {

/// The characters that the bytes `b` encode in UTF-8, or `None` when `b` is not
/// well-formed UTF-8.
pub uninterp spec fn utf8_text(b: Seq<u8>) -> Option<Seq<char>>;

/// Relies on `std::str::from_utf8`: it accepts exactly the well-formed UTF-8
/// byte sequences and then hands back the text they encode.
#[verifier::external_body]
fn decode_utf8(b: &[u8]) -> (r: Option<&str>)
    ensures
        match r {
            Some(s) => utf8_text(b@) == Some(s@),
            None => utf8_text(b@) is None,
        },
{
    match std::str::from_utf8(b) {
        Ok(s) => Some(s),
        Err(_) => None,
    }
}

/// The bytes of a text argument that may be missing.
pub open spec fn arg_bytes(a: Option<&[u8]>) -> Option<Seq<u8>> {
    match a {
        Some(b) => Some(b@),
        None => None,
    }
}

/// The text of an argument, or `None` when it is missing or malformed.
pub open spec fn arg_text(a: Option<&[u8]>) -> Option<Seq<char>> {
    match arg_bytes(a) {
        Some(b) => utf8_text(b),
        None => None,
    }
}

/// Reads a text argument given as raw bytes (`None` for a missing one): it is
/// accepted when present and well-formed UTF-8, and otherwise reported as
/// invalid under `field`.
pub fn text_arg(bytes: Option<&[u8]>, field: TextField) -> (r: Result<String, StoreError>)
    ensures
        match arg_text(bytes) {
            Some(t) => r is Ok && r->Ok_0@ == t,
            None => r == Err::<String, StoreError>(StoreError::InvalidText(field)),
        },
{
    match bytes {
        None => Err(StoreError::InvalidText(field)),
        Some(b) => match decode_utf8(b) {
            Some(s) => Ok(s.to_owned()),
            None => Err(StoreError::InvalidText(field)),
        },
    }
}

} // verus!
