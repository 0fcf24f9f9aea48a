//! Hex text for captured bytes, as handed to a log writer.

use vstd::prelude::*;

verus! {

/// The lowercase hex digit of a number below sixteen.
pub open spec fn hex_digit(nibble: u8) -> char {
    seq![
        '0',
        '1',
        '2',
        '3',
        '4',
        '5',
        '6',
        '7',
        '8',
        '9',
        'a',
        'b',
        'c',
        'd',
        'e',
        'f',
    ][nibble as int]
}

/// The hex text of a byte sequence: two lowercase digits for each byte, the
/// high half first.
pub open spec fn hex_text(data: Seq<u8>) -> Seq<char> {
    Seq::new(
        2 * data.len(),
        |i: int|
            if i % 2 == 0 {
                hex_digit(data[i / 2] / 16)
            } else {
                hex_digit(data[i / 2] % 16)
            },
    )
}

/// Calls `hex::encode`, which writes each byte as two lowercase hex digits,
/// high half first, in the order of the input: the result is the input's
/// hex text and nothing else.
#[verifier::external_body]
fn hex_encode(data: &[u8]) -> (text: String)
    ensures
        text@ == hex_text(data@),
{
    hex::encode(data)
}

/// Convert bytes to hex-encoding, then write to the underlying writer
pub struct HexEncoder<T> {
    pub writer: T,
}

impl<T> HexEncoder<T> {
    pub fn new(writer: T) -> (encoder: Self)
        ensures
            encoder.writer == writer,
    {
        Self { writer }
    }

    /// The text that stands for `buf` in the log: what the underlying
    /// writer is to be handed for it.
    pub fn encode(&self, buf: &[u8]) -> (text: String)
        ensures
            text@ == hex_text(buf@),
            text@.len() == 2 * buf@.len(),
    {
        hex_encode(buf)
    }
}

} // verus!
