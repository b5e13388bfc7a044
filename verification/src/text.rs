//! Validation for textual metadata chunks on the encode side.
//!
//! A text chunk's payload is Latin-1 text that may also contain line
//! feeds; its keyword is printable Latin-1 without the non-breaking space.
//! These checks decide, byte for byte, whether a chunk may be written.

use vstd::prelude::*;

verus! {

/// Whether a byte is a Latin-1 character the text chunk accepts: the
/// printable ranges 0x20..=0x7E and 0xA0..=0xFF.
pub open spec fn spec_latin1_byte(b: u8) -> bool {
    (0x20 <= b <= 0x7e) || (0xa0 <= b)
}

/// Whether every byte of a chunk's text is Latin-1 or a line feed.
pub open spec fn spec_text_payload_ok(s: Seq<u8>) -> bool {
    forall|i: int| 0 <= i < s.len() ==> spec_latin1_byte(#[trigger] s[i]) || s[i] == 10
}

/// Whether every byte of a chunk's keyword is Latin-1 and none is the
/// non-breaking space 0xA0.
pub open spec fn spec_keyword_ok(s: Seq<u8>) -> bool {
    forall|i: int| 0 <= i < s.len() ==> spec_latin1_byte(#[trigger] s[i]) && s[i] != 0xa0
}

pub fn latin1_byte_ok(b: u8) -> (ok: bool)
    ensures
        ok == spec_latin1_byte(b),
{
    (0x20 <= b && b <= 0x7e) || 0xa0 <= b
}

/// Checks a text payload; a chunk with any other byte is rejected as a
/// parameter error before anything is encoded.
pub fn text_payload_ok(text: &[u8]) -> (ok: bool)
    ensures
        ok == spec_text_payload_ok(text@),
{
    let n = text.len();
    let mut i: usize = 0;
    while i < n
        invariant
            i <= n,
            n == text@.len(),
            forall|j: int| 0 <= j < i ==> spec_latin1_byte(#[trigger] text@[j]) || text@[j] == 10,
        decreases n - i,
    {
        let b = text[i];
        if !(latin1_byte_ok(b) || b == 10) {
            return false;
        }
        i += 1;
    }
    true
}

/// Checks a keyword; a keyword with any other byte is rejected as a
/// parameter error before anything is encoded.
pub fn keyword_ok(keyword: &[u8]) -> (ok: bool)
    ensures
        ok == spec_keyword_ok(keyword@),
{
    let n = keyword.len();
    let mut i: usize = 0;
    while i < n
        invariant
            i <= n,
            n == keyword@.len(),
            forall|j: int|
                0 <= j < i ==> spec_latin1_byte(#[trigger] keyword@[j]) && keyword@[j] != 0xa0,
        decreases n - i,
    {
        let b = keyword[i];
        if !latin1_byte_ok(b) || b == 0xa0 {
            return false;
        }
        i += 1;
    }
    true
}

} // verus!
