//! Text that arrives as bytes.

use vstd::prelude::*;
use vstd::utf8::{decode_utf8, valid_utf8};
use vstd::string::StringExecFns;
use crate::error::ErrorKind;

verus! {

/// `std::str::from_utf8`: reads bytes as text. Claimed: it succeeds exactly on
/// valid UTF-8, and the text it gives is those bytes decoded.
#[verifier::external_body]
pub(crate) fn utf8_text<'a>(bytes: &'a [u8]) -> (t: Option<&'a str>)
    ensures
        t is Some <==> valid_utf8(bytes@),
        t matches Some(s) ==> s@ == decode_utf8(bytes@),
{
    match std::str::from_utf8(bytes) {
        Ok(text) => Some(text),
        Err(_) => None,
    }
}

/// What `greeting` returns for a name that is present or not.
pub open spec fn greeting_result(name: Option<Seq<u8>>) -> Result<Seq<char>, ErrorKind> {
    match name {
        None => Err(ErrorKind::NullPointer),
        Some(bytes) => if valid_utf8(bytes) {
            Ok("Hello from Rust, "@ + decode_utf8(bytes) + "!"@)
        } else {
            Err(ErrorKind::TextEncodingError)
        },
    }
}

/// The view of an outcome that carries text.
pub open spec fn text_outcome(r: Result<String, ErrorKind>) -> Result<Seq<char>, ErrorKind> {
    match r {
        Ok(text) => Ok(text@),
        Err(e) => Err(e),
    }
}

/// The line that greets `name`. An absent name and a name that is not valid
/// UTF-8 are rejected.
pub fn greeting(name: Option<&[u8]>) -> (r: Result<String, ErrorKind>)
    ensures
        text_outcome(r) == greeting_result(
            match name {
                Some(bytes) => Some(bytes@),
                None => None,
            },
        ),
{
    match name {
        None => Err(ErrorKind::NullPointer),
        Some(bytes) => match utf8_text(bytes) {
            None => Err(ErrorKind::TextEncodingError),
            Some(text) => {
                let line = String::from_str("Hello from Rust, ").concat(text).concat("!");
                Ok(line)
            },
        },
    }
}

} // verus!
