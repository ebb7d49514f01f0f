//! Byte buffers for driver logs and their conversion to text.

use vstd::prelude::*;
use vstd::utf8::{decode_utf8, valid_utf8};

verus! {

/// The byte a fresh log buffer is filled with: an ASCII space.
pub const PLACEHOLDER: u8 = 0x20;

/// A run of `len` placeholder bytes.
pub open spec fn blank(len: nat) -> Seq<u8> {
    Seq::new(len, |i: int| PLACEHOLDER)
}

/// Allocates a buffer of exactly `len` placeholder bytes for the driver to
/// write a log into.
pub fn whitespace_buffer(len: usize) -> (buffer: Vec<u8>)
    ensures
        buffer@ == blank(len as nat),
{
    let mut buffer: Vec<u8> = Vec::with_capacity(len);
    let mut filled: usize = 0;
    while filled < len
        invariant
            filled <= len,
            buffer@ == blank(filled as nat),
        decreases len - filled,
    {
        buffer.push(PLACEHOLDER);
        filled = filled + 1;
    }
    buffer
}

/// What `String::from_utf8_lossy` makes of bytes that are not well-formed
/// UTF-8: the well-formed parts decoded, each ill-formed part replaced by
/// U+FFFD.
pub uninterp spec fn replaced_text(bytes: Seq<u8>) -> Seq<char>;

/// The text that lossy UTF-8 decoding makes of `bytes`: for well-formed
/// bytes the characters they encode.
pub open spec fn lossy_text(bytes: Seq<u8>) -> Seq<char> {
    if valid_utf8(bytes) {
        decode_utf8(bytes)
    } else {
        replaced_text(bytes)
    }
}

/// Decodes `bytes` with `String::from_utf8_lossy`.
///
/// Trusted: well-formed UTF-8 is decoded as it stands, as the standard
/// library documents; for other bytes the result is only given a name.
#[verifier::external_body]
pub(crate) fn decode_lossy(bytes: &Vec<u8>) -> (text: String)
    ensures
        text@ == (if valid_utf8(bytes@) {
            decode_utf8(bytes@)
        } else {
            replaced_text(bytes@)
        }),
{
    String::from_utf8_lossy(bytes).into_owned()
}

} // verus!
