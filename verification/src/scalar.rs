//! The wire value as a scalar: the four bytes read as a little-endian `u32`,
//! for boundaries that carry a number and not a buffer. The conversion
//! between the number and its bytes is the codec's own.

use vstd::prelude::*;
use crate::laws::lemma_scalar_round_trip;
use crate::taxonomy::PopApiError;

verus! {

/// The number that four bytes stand for, least significant byte first.
pub open spec fn le_value(bytes: Seq<u8>) -> u32
    recommends
        bytes.len() == 4,
{
    (bytes[0] as int + 0x100 * (bytes[1] as int) + 0x1_0000 * (bytes[2] as int) + 0x100_0000 * (
    bytes[3] as int)) as u32
}

/// The four bytes of a number, least significant byte first.
pub open spec fn le_bytes(value: u32) -> Seq<u8> {
    seq![
        (value as int % 0x100) as u8,
        (value as int / 0x100 % 0x100) as u8,
        (value as int / 0x1_0000 % 0x100) as u8,
        (value as int / 0x100_0000 % 0x100) as u8,
    ]
}

/// `<u32 as parity_scale_codec::Encode>::encode`. The codec writes a `u32` as
/// the four bytes of `u32::to_le_bytes`, and nothing else.
#[verifier::external_body]
fn scale_encode_u32(value: u32) -> (out: Vec<u8>)
    ensures
        out@ == le_bytes(value),
{
    parity_scale_codec::Encode::encode(&value)
}

/// `<u32 as parity_scale_codec::Decode>::decode` on a byte slice. The codec
/// reads the first four bytes through `u32::from_le_bytes` and ignores the
/// rest; on fewer than four bytes it reports an error, which is `None` here.
#[verifier::external_body]
fn scale_decode_u32(bytes: &[u8]) -> (out: Option<u32>)
    ensures
        bytes@.len() >= 4 ==> out == Some(le_value(bytes@.subrange(0, 4))),
        bytes@.len() < 4 ==> out is None,
{
    let mut input: &[u8] = bytes;
    let read: Result<u32, parity_scale_codec::Error> = parity_scale_codec::Decode::decode(
        &mut input,
    );
    read.ok()
}

/// The scalar that carries `error` across the boundary: its four encoded
/// bytes, read as a little-endian number. The bytes of that number decode to
/// `error` again.
pub fn encode_and_decode_to_u32(error: PopApiError) -> (value: u32)
    ensures
        value == le_value(error.encoded()),
        PopApiError::decoded(le_bytes(value)) == error,
{
    proof {
        lemma_scalar_round_trip(error);
    }
    let bytes = error.encode();
    let read = scale_decode_u32(bytes.as_slice());
    assert(bytes@.subrange(0, 4) =~= bytes@);
    read.unwrap()
}

/// The error that a scalar stands for: the decoding of its four
/// little-endian bytes. Total, as decoding is.
pub fn encode_and_decode_to_pop_api_error(value: u32) -> (error: PopApiError)
    ensures
        error == PopApiError::decoded(le_bytes(value)),
{
    let encoded = scale_encode_u32(value);
    let bytes = [encoded[0], encoded[1], encoded[2], encoded[3]];
    assert(bytes@ =~= le_bytes(value));
    PopApiError::decode(bytes)
}

} // verus!
