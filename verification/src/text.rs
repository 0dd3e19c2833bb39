//! Turning received bytes into printable text.

use vstd::prelude::*;
use vstd::utf8::*;

verus! {

/// What the standard library's lossy decoder makes of a byte sequence that is
/// not valid UTF-8: the text with each malformed part replaced by U+FFFD.
pub uninterp spec fn repaired_text(bytes: Seq<u8>) -> Seq<char>;

/// The text a byte sequence is printed as: its decoding where it is valid
/// UTF-8, the repaired text otherwise.
pub open spec fn printable(bytes: Seq<u8>) -> Seq<char> {
    if valid_utf8(bytes) {
        decode_utf8(bytes)
    } else {
        repaired_text(bytes)
    }
}

/// Calls `String::from_utf8_lossy`. Trusted: valid UTF-8 comes back decoded
/// unchanged, as the function documents; for any other input the result is
/// only given its name, `repaired_text` of the bytes.
#[verifier::external_body]
fn from_utf8_lossy(bytes: &[u8]) -> (s: String)
    ensures
        valid_utf8(bytes@) ==> s@ == decode_utf8(bytes@),
        !valid_utf8(bytes@) ==> s@ == repaired_text(bytes@),
{
    String::from_utf8_lossy(bytes).into_owned()
}

/// Decodes received bytes for printing, never failing on malformed input.
pub fn decode(bytes: &[u8]) -> (s: String)
    ensures
        s@ == printable(bytes@),
{
    from_utf8_lossy(bytes)
}

/// Text survives the trip through its own encoding.
pub proof fn lemma_printable_of_encoding(text: Seq<char>)
    ensures
        printable(encode_utf8(text)) == text,
{
    encode_utf8_valid_utf8(text);
    encode_utf8_decode_utf8(text);
}

} // verus!
