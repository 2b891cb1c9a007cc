//! What holds of the encoder and the decoder together.

use vstd::prelude::*;
use crate::encoder::fitted;
use crate::scalar::{le_bytes, le_value};
use crate::taxonomy::{FungiblesError, PopApiError, UseCaseError};

verus! {

/// A byte is the position of a declared top-level variant exactly if some
/// error has it as its discriminant.
pub proof fn lemma_declared_positions(byte: u8)
    ensures
        PopApiError::is_declared(byte) <==> exists|v: PopApiError|
            v.spec_discriminant() == byte,
{
    if PopApiError::is_declared(byte) {
        let v = PopApiError::decoded(seq![byte, 0u8, 0u8, 0u8]);
        assert(v.spec_discriminant() == byte);
    }
}

/// Reading a discriminant byte back gives the variant that wrote it.
pub proof fn lemma_fungibles_discriminant_round_trip(e: FungiblesError)
    ensures
        FungiblesError::spec_from_discriminant(e.spec_discriminant()) == Some(e),
{
}

/// The layout of every error has between one and four bytes, so bringing it
/// to the wire width cuts nothing: the encoded bytes start with the layout
/// and are zero after it.
pub proof fn lemma_layout_fits(v: PopApiError)
    ensures
        1 <= v.serialized().len() <= 4,
        v.encoded().len() == 4,
        v.serialized().is_prefix_of(v.encoded()),
        forall|i: int| v.serialized().len() <= i < 4 ==> v.encoded()[i] == 0,
{
    let layout = v.serialized();
    assert(layout.len() <= 4);
    assert(layout =~= v.encoded().subrange(0, layout.len() as int));
}

/// Decoding ignores the bytes that a variant does not use: four bytes that
/// start with the layout of an error decode to that error, whatever follows.
pub proof fn lemma_decode_reads_layout(v: PopApiError, bytes: Seq<u8>)
    requires
        bytes.len() == 4,
        v.serialized().is_prefix_of(bytes),
    ensures
        PopApiError::decoded(bytes) == v,
{
    let layout = v.serialized();
    assert(layout =~= bytes.subrange(0, layout.len() as int));
    assert(forall|i: int| 0 <= i < layout.len() ==> layout[i] == bytes[i]);
    assert(layout[0] == v.spec_discriminant());
    match v {
        PopApiError::UseCase(UseCaseError::Fungibles(e)) => {
            assert(layout[1] == 0);
            assert(layout[2] == e.spec_discriminant());
        },
        PopApiError::Unspecified { dispatch_error_index, error_index, error } => {
            assert(layout[1] == dispatch_error_index);
            assert(layout[2] == error_index);
            assert(layout[3] == error);
        },
        PopApiError::Module(e) => {
            assert(layout[1] == e.index);
            assert(layout[2] == e.error);
        },
        PopApiError::Other(code) => {
            assert(layout[1] == code);
        },
        PopApiError::Token(e) => {
            assert(layout[1] == e.spec_discriminant());
        },
        PopApiError::Arithmetic(e) => {
            assert(layout[1] == e.spec_discriminant());
        },
        PopApiError::Transactional(e) => {
            assert(layout[1] == e.spec_discriminant());
        },
        _ => {},
    }
}

/// Round trip: decoding the encoding of an error gives the error back, for
/// every error of the taxonomy.
pub proof fn lemma_decode_inverts_encode(v: PopApiError)
    ensures
        PopApiError::decoded(v.encoded()) == v,
{
    lemma_layout_fits(v);
    lemma_decode_reads_layout(v, v.encoded());
}

/// Encoding is injective: two errors with the same four bytes are the same
/// error.
pub proof fn lemma_encode_injective(v: PopApiError, w: PopApiError)
    requires
        v.encoded() == w.encoded(),
    ensures
        v == w,
{
    lemma_decode_inverts_encode(v);
    lemma_decode_inverts_encode(w);
}

/// A first byte that stands for no declared variant decodes to `Unspecified`
/// with that byte and two zeros, whatever the other three bytes are.
pub proof fn lemma_undeclared_falls_back(bytes: Seq<u8>)
    requires
        bytes.len() == 4,
        !PopApiError::is_declared(bytes[0]),
    ensures
        PopApiError::decoded(bytes) == (PopApiError::Unspecified {
            dispatch_error_index: bytes[0],
            error_index: 0,
            error: 0,
        }),
{
}

/// Whatever four bytes are decoded, the result is either an error whose
/// layout the bytes start with, or the fallback. The fallback carries the
/// first byte as its `dispatch_error_index`; where that byte is a declared
/// position, it carries the second byte as its `error_index`, and as its
/// `error` the third byte or zero.
pub proof fn lemma_decode_recognises_or_falls_back(bytes: Seq<u8>)
    requires
        bytes.len() == 4,
    ensures
        PopApiError::decoded(bytes).serialized().is_prefix_of(bytes) || (PopApiError::decoded(
            bytes,
        ) matches PopApiError::Unspecified { dispatch_error_index, error_index, error } && {
            &&& dispatch_error_index == bytes[0]
            &&& bytes[0] != 15
            &&& PopApiError::is_declared(bytes[0]) ==> error_index == bytes[1] && (error == 0
                || error == bytes[2])
            &&& !PopApiError::is_declared(bytes[0]) ==> error_index == 0 && error == 0
        }),
{
    let v = PopApiError::decoded(bytes);
    let layout = v.serialized();
    if !(v is Unspecified) || bytes[0] == 15 {
        assert(layout =~= bytes.subrange(0, layout.len() as int));
    }
}

/// Encoding after decoding is the identity exactly on the bytes that some
/// error encodes to. On all other bytes it is not: decoding them loses the
/// bytes that the variant does not use, or falls back.
pub proof fn lemma_encode_after_decode(bytes: Seq<u8>)
    requires
        bytes.len() == 4,
    ensures
        PopApiError::decoded(bytes).encoded() == bytes <==> exists|v: PopApiError|
            v.encoded() == bytes,
{
    if exists|v: PopApiError| v.encoded() == bytes {
        let v = choose|v: PopApiError| v.encoded() == bytes;
        lemma_decode_inverts_encode(v);
    }
}

/// Encoding after decoding is not the identity: there are four bytes that no
/// error encodes to.
pub proof fn lemma_encode_after_decode_is_lossy()
    ensures
        exists|bytes: Seq<u8>|
            bytes.len() == 4 && PopApiError::decoded(bytes).encoded() != bytes,
{
    let bytes = seq![1u8, 1u8, 0u8, 0u8];
    assert(PopApiError::decoded(bytes) == PopApiError::CannotLookup);
    assert(PopApiError::CannotLookup.encoded()[1] == 0);
    assert(bytes.len() == 4 && PopApiError::decoded(bytes).encoded() != bytes);
}

/// A number in base 256 splits into its lowest digit and the digits above.
proof fn lemma_low_byte(low: int, upper: int)
    requires
        0 <= low < 0x100,
    ensures
        (low + 0x100 * upper) % 0x100 == low,
        (low + 0x100 * upper) / 0x100 == upper,
{
}

/// Four bytes are the little-endian bytes of the number that they stand for.
pub proof fn lemma_le_bytes_of_value(bytes: Seq<u8>)
    requires
        bytes.len() == 4,
    ensures
        le_bytes(le_value(bytes)) == bytes,
{
    let b0 = bytes[0] as int;
    let b1 = bytes[1] as int;
    let b2 = bytes[2] as int;
    let b3 = bytes[3] as int;
    let upper1 = b1 + 0x100 * (b2 + 0x100 * b3);
    let upper2 = b2 + 0x100 * b3;
    let n = b0 + 0x100 * upper1;
    assert(le_value(bytes) as int == n);
    lemma_low_byte(b0, upper1);
    lemma_low_byte(b1, upper2);
    lemma_low_byte(b2, b3);
    assert(n / 0x1_0000 == upper2);
    assert(n / 0x100_0000 == b3);
    assert(le_bytes(le_value(bytes)) =~= bytes);
}

/// A number is what its four little-endian bytes stand for.
pub proof fn lemma_le_value_of_bytes(value: u32)
    ensures
        le_bytes(value).len() == 4,
        le_value(le_bytes(value)) == value,
{
}

/// Round trip through the scalar: an error carried as a number and decoded
/// from that number's bytes is the same error.
pub proof fn lemma_scalar_round_trip(v: PopApiError)
    ensures
        PopApiError::decoded(le_bytes(le_value(v.encoded()))) == v,
{
    lemma_le_bytes_of_value(v.encoded());
    lemma_decode_inverts_encode(v);
}

/// Bringing a sequence to the wire width a second time changes nothing.
pub proof fn lemma_fitted_idempotent(bytes: Seq<u8>)
    ensures
        fitted(bytes).len() == 4,
        fitted(fitted(bytes)) == fitted(bytes),
        bytes.len() == 4 ==> fitted(bytes) == bytes,
        bytes.len() >= 4 ==> fitted(bytes) == bytes.subrange(0, 4),
{
    assert(fitted(fitted(bytes)) =~= fitted(bytes));
    if bytes.len() == 4 {
        assert(fitted(bytes) =~= bytes);
    }
    if bytes.len() >= 4 {
        assert(fitted(bytes) =~= bytes.subrange(0, 4));
    }
}

} // verus!
