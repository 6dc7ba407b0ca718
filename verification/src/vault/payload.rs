//! The payload of a sealed vault as base64 text. The coding itself is the
//! `base64` crate's; this file states what the rest of the library takes
//! from it on trust.

use vstd::prelude::*;

verus! {

/// The text that `base64::encode` makes of `bytes`.
pub uninterp spec fn base64_text(bytes: Seq<u8>) -> Seq<char>;

/// The bytes that `base64::decode` reads from `text`, or `None` where it
/// rejects the text.
pub uninterp spec fn base64_bytes(text: Seq<char>) -> Option<Seq<u8>>;

/// The symbols of the standard base64 alphabet, and the padding sign.
pub open spec fn is_base64_symbol(c: char) -> bool {
    ||| 'A' <= c <= 'Z'
    ||| 'a' <= c <= 'z'
    ||| '0' <= c <= '9'
    ||| c == '+'
    ||| c == '/'
    ||| c == '='
}

/// The length of the base64 text of `len` bytes: four symbols for every
/// three bytes begun.
pub open spec fn base64_len(len: nat) -> nat {
    4 * ((len + 2) / 3)
}

/// Whether the base64 text of `len` bytes is short enough for one allocation.
pub open spec fn payload_fits(len: nat) -> bool {
    base64_len(len) <= isize::MAX
}

/// `base64::DecodeError`, the decoder's account of a rejected text. It is
/// carried as it is; nothing is read from it.
#[verifier::external_type_specification]
#[verifier::external_body]
pub struct ExDecodeError(base64::DecodeError);

/// Calls `base64::encode`, which codes with the standard alphabet and pads.
///
/// Taken on trust: the result is the text named [`base64_text`], it is made
/// of base64 symbols only, and `base64::decode` reads the same bytes back
/// from it. The call aborts where the text would be longer than an
/// allocation may be, so such inputs are left out.
#[verifier::external_body]
pub(crate) fn base64_encode(bytes: &Vec<u8>) -> (text: String)
    requires
        payload_fits(bytes@.len()),
    ensures
        text@ == base64_text(bytes@),
        base64_bytes(text@) == Some(bytes@),
        forall|i: int| 0 <= i < text@.len() ==> is_base64_symbol(#[trigger] text@[i]),
{
    base64::encode(bytes)
}

/// Calls `base64::decode`, which reads the standard alphabet with padding.
///
/// Taken on trust: the result is what [`base64_bytes`] names, `Ok` with the
/// bytes where the text is accepted and `Err` where it is not.
#[verifier::external_body]
pub(crate) fn base64_decode(text: &str) -> (decoded: Result<Vec<u8>, base64::DecodeError>)
    ensures
        match decoded {
            Ok(bytes) => base64_bytes(text@) == Some(bytes@),
            Err(_) => base64_bytes(text@) is None,
        },
{
    base64::decode(text)
}

} // verus!
