//! Text conventions of the boundary: UTF-8 on the way in, null-terminated
//! bytes on the way out.

use vstd::prelude::*;
use vstd::string::StringSliceAdditionalSpecFns;
use vstd::utf8::valid_utf8;

verus! {

/// Whether `bytes` holds a zero byte anywhere.
pub open spec fn has_nul(bytes: Seq<u8>) -> bool {
    exists|i: int| 0 <= i < bytes.len() && bytes[i] == 0u8
}

/// `text` followed by its terminator.
pub open spec fn terminated(text: Seq<u8>) -> Seq<u8> {
    text.push(0u8)
}

/// Whether `bytes` is a well-formed null-terminated string: it ends in a zero
/// byte and holds no other.
pub open spec fn is_c_string(bytes: Seq<u8>) -> bool {
    &&& bytes.len() > 0
    &&& bytes.last() == 0u8
    &&& !has_nul(bytes.drop_last())
}

/// A text without a zero byte becomes a well-formed string by adding the
/// terminator, and dropping the terminator gives the text back.
pub proof fn lemma_terminated_is_c_string(text: Seq<u8>)
    requires
        !has_nul(text),
    ensures
        is_c_string(terminated(text)),
        terminated(text).drop_last() == text,
{
    assert(terminated(text).drop_last() =~= text);
}

/// Copies `text` into an owned buffer and appends the terminator.
///
/// A text that already holds a zero byte cannot be represented, since a reader
/// would take that byte for the end; it is refused with `None`.
pub fn to_c_string(text: &[u8]) -> (out: Option<Vec<u8>>)
    ensures
        out is None <==> has_nul(text@),
        out matches Some(bytes) ==> bytes@ == terminated(text@),
{
    let mut bytes: Vec<u8> = Vec::new();
    let mut i: usize = 0;
    while i < text.len()
        invariant
            i <= text.len(),
            bytes@ == text@.subrange(0, i as int),
            !has_nul(bytes@),
        decreases text.len() - i,
    {
        let b: u8 = text[i];
        if b == 0 {
            return None;
        }
        bytes.push(b);
        i += 1;
    }
    assert(bytes@ == text@);
    bytes.push(0);
    Some(bytes)
}

/// The error of `core::str::from_utf8`, carried through without looking inside.
#[verifier::external_type_specification]
#[verifier::external_body]
pub struct ExUtf8Error(core::str::Utf8Error);

/// Trusted contract of `core::str::from_utf8`: it succeeds exactly on the byte
/// sequences that are valid UTF-8, and the string it then returns lies over
/// the very bytes it was given.
pub assume_specification[ core::str::from_utf8 ](v: &[u8]) -> (r: Result<
    &str,
    core::str::Utf8Error,
>)
    ensures
        r is Ok <==> valid_utf8(v@),
        r matches Ok(s) ==> s.spec_bytes() == v@,
;

} // verus!
