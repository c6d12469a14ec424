//! Text on the wire: strings travel as UTF-8 bytes.

use vstd::prelude::*;
use vstd::utf8::{decode_utf8, encode_utf8, encode_utf8_decode_utf8, valid_utf8};

verus! {

/// What lossy decoding makes of bytes that are not valid UTF-8: every
/// ill-formed part is replaced by U+FFFD, the replacement character.
pub uninterp spec fn utf8_lossy(bytes: Seq<u8>) -> Seq<char>;

/// The text that a sequence of received bytes is read as. Valid UTF-8 is
/// decoded as it stands; anything else is decoded lossily.
pub open spec fn lossy_text(bytes: Seq<u8>) -> Seq<char> {
    if valid_utf8(bytes) {
        decode_utf8(bytes)
    } else {
        utf8_lossy(bytes)
    }
}

/// `String::from_utf8_lossy`, made into an owned `String`. For valid UTF-8 the
/// result is the decoded text; for other bytes it is the lossy decoding, a
/// function of the bytes alone.
#[verifier::external_body]
pub(crate) fn string_from_utf8_lossy(bytes: &[u8]) -> (text: String)
    ensures
        text@ == lossy_text(bytes@),
        !valid_utf8(bytes@) ==> text@ == utf8_lossy(bytes@),
{
    String::from_utf8_lossy(bytes).into_owned()
}

/// Whether two strings hold the same text, found by comparing their bytes.
pub fn str_eq(a: &str, b: &str) -> (same: bool)
    ensures
        same == (a@ == b@),
{
    let left = a.as_bytes();
    let right = b.as_bytes();
    proof {
        encode_utf8_decode_utf8(a@);
        encode_utf8_decode_utf8(b@);
    }
    if left.len() != right.len() {
        return false;
    }
    let mut i: usize = 0;
    while i < left.len()
        invariant
            0 <= i <= left.len(),
            left.len() == right.len(),
            left@ == encode_utf8(a@),
            right@ == encode_utf8(b@),
            decode_utf8(encode_utf8(a@)) == a@,
            decode_utf8(encode_utf8(b@)) == b@,
            forall|j: int| 0 <= j < i ==> left@[j] == right@[j],
        decreases left.len() - i,
    {
        if left[i] != right[i] {
            return false;
        }
        i += 1;
    }
    assert(left@ =~= right@);
    true
}

/// Text that was encoded as UTF-8 is read back unchanged.
pub proof fn lossy_text_of_encoded(text: Seq<char>)
    ensures
        lossy_text(encode_utf8(text)) == text,
{
    vstd::utf8::encode_utf8_valid_utf8(text);
    encode_utf8_decode_utf8(text);
}

} // verus!
