use vstd::prelude::*;
use vstd::string::StringSliceAdditionalSpecFns;
use vstd::utf8::*;

use crate::error::InvalidPath;

verus! {

/// Whether the bytes of a path are text, that is, well-formed UTF-8.
pub open spec fn is_text(path: Seq<u8>) -> bool {
    valid_utf8(path)
}

/// The text that the bytes of a path spell out.
pub open spec fn text_of(path: Seq<u8>) -> Seq<char>
    recommends
        is_text(path),
{
    decode_utf8(path)
}

/// Calls `core::str::from_utf8`. The contract states what its documentation
/// promises: the bytes are accepted exactly when they are well-formed UTF-8,
/// and the string slice that comes back consists of those same bytes.
#[verifier::external_body]
fn utf8_text(bytes: &[u8]) -> (text: Option<&str>)
    ensures
        text is Some <==> valid_utf8(bytes@),
        text matches Some(s) ==> s.spec_bytes() == bytes@,
{
    match core::str::from_utf8(bytes) {
        Ok(s) => Some(s),
        Err(_) => None,
    }
}

/// Reads a path as text. A path whose bytes are not well-formed UTF-8 is
/// rejected, and the error names the role of the path and holds its bytes.
pub fn path_buf_to_str<'a>(kind: &str, path: &'a [u8]) -> (text: Result<&'a str, InvalidPath>)
    ensures
        is_text(path@) ==> text is Ok && text->Ok_0@ == text_of(path@),
        !is_text(path@) ==> text is Err && text->Err_0.kind@ == kind@ && text->Err_0.path@
            == path@,
{
    match utf8_text(path) {
        Some(s) => {
            proof {
                encode_utf8_decode_utf8(s@);
            }
            Ok(s)
        },
        None => Err(InvalidPath { kind: kind.to_owned(), path: vstd::slice::slice_to_vec(path) }),
    }
}

} // verus!
