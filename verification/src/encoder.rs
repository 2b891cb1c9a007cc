//! The encoder: a taxonomy value to its tagged-union layout, and that layout
//! to exactly four bytes.

use vstd::prelude::*;
use crate::laws::lemma_decode_inverts_encode;
use crate::taxonomy::{
    ArithmeticError, FungiblesError, ModuleError, PopApiError, TokenError, TransactionalError,
    UseCaseError,
};

verus! {

/// The number of bytes of every encoded error.
pub const WIRE_WIDTH: usize = 4;

/// A byte sequence brought to the wire width: its first four bytes, with
/// zeros where it has fewer.
pub open spec fn fitted(bytes: Seq<u8>) -> Seq<u8> {
    Seq::new(
        WIRE_WIDTH as nat,
        |i: int|
            if i < bytes.len() {
                bytes[i]
            } else {
                0u8
            },
    )
}

/// Cuts or zero-pads `bytes` to the wire width. Cutting loses what lies
/// beyond the fourth byte.
pub fn fit_to_width(bytes: Vec<u8>) -> (out: [u8; 4])
    ensures
        out@ == fitted(bytes@),
{
    let mut padded = bytes;
    padded.resize(WIRE_WIDTH, 0);
    let out = [padded[0], padded[1], padded[2], padded[3]];
    assert(out@ =~= fitted(bytes@));
    out
}

impl ModuleError {
    /// The two fields, in declaration order.
    pub open spec fn serialized(self) -> Seq<u8> {
        seq![self.index, self.error]
    }

    /// Appends this record's layout to `out`.
    pub fn serialize_into(&self, out: &mut Vec<u8>)
        ensures
            final(out)@ == old(out)@ + self.serialized(),
    {
        out.push(self.index);
        out.push(self.error);
        assert(out@ =~= old(out)@ + self.serialized());
    }
}

impl FungiblesError {
    /// The discriminant byte alone: no variant has a payload.
    pub open spec fn serialized(self) -> Seq<u8> {
        seq![self.spec_discriminant()]
    }

    /// Appends this value's layout to `out`.
    pub fn serialize_into(&self, out: &mut Vec<u8>)
        ensures
            final(out)@ == old(out)@ + self.serialized(),
    {
        out.push(self.discriminant());
        assert(out@ =~= old(out)@ + self.serialized());
    }
}

impl TokenError {
    /// The discriminant byte alone: no variant has a payload.
    pub open spec fn serialized(self) -> Seq<u8> {
        seq![self.spec_discriminant()]
    }

    /// Appends this value's layout to `out`.
    pub fn serialize_into(&self, out: &mut Vec<u8>)
        ensures
            final(out)@ == old(out)@ + self.serialized(),
    {
        out.push(self.discriminant());
        assert(out@ =~= old(out)@ + self.serialized());
    }
}

impl ArithmeticError {
    /// The discriminant byte alone: no variant has a payload.
    pub open spec fn serialized(self) -> Seq<u8> {
        seq![self.spec_discriminant()]
    }

    /// Appends this value's layout to `out`.
    pub fn serialize_into(&self, out: &mut Vec<u8>)
        ensures
            final(out)@ == old(out)@ + self.serialized(),
    {
        out.push(self.discriminant());
        assert(out@ =~= old(out)@ + self.serialized());
    }
}

impl TransactionalError {
    /// The discriminant byte alone: no variant has a payload.
    pub open spec fn serialized(self) -> Seq<u8> {
        seq![self.spec_discriminant()]
    }

    /// Appends this value's layout to `out`.
    pub fn serialize_into(&self, out: &mut Vec<u8>)
        ensures
            final(out)@ == old(out)@ + self.serialized(),
    {
        out.push(self.discriminant());
        assert(out@ =~= old(out)@ + self.serialized());
    }
}

impl UseCaseError {
    /// The layout of the variant's payload.
    pub open spec fn payload(self) -> Seq<u8> {
        match self {
            UseCaseError::Fungibles(e) => e.serialized(),
        }
    }

    /// The discriminant byte, then the payload.
    pub open spec fn serialized(self) -> Seq<u8> {
        seq![self.spec_discriminant()] + self.payload()
    }

    /// Appends this value's layout to `out`.
    pub fn serialize_into(&self, out: &mut Vec<u8>)
        ensures
            final(out)@ == old(out)@ + self.serialized(),
    {
        out.push(self.discriminant());
        match self {
            UseCaseError::Fungibles(e) => e.serialize_into(out),
        }
        assert(out@ =~= old(out)@ + self.serialized());
    }
}

impl PopApiError {
    /// The layout of the variant's payload: its fields in declaration order,
    /// a nested union with its own discriminant first.
    pub open spec fn payload(self) -> Seq<u8> {
        match self {
            PopApiError::Other(code) => seq![code],
            PopApiError::Module(e) => e.serialized(),
            PopApiError::Token(e) => e.serialized(),
            PopApiError::Arithmetic(e) => e.serialized(),
            PopApiError::Transactional(e) => e.serialized(),
            PopApiError::UseCase(e) => e.serialized(),
            PopApiError::Unspecified { dispatch_error_index, error_index, error } => seq![
                dispatch_error_index,
                error_index,
                error,
            ],
            _ => Seq::empty(),
        }
    }

    /// The tagged-union layout: the discriminant byte, then the payload.
    /// Between one and four bytes long.
    pub open spec fn serialized(self) -> Seq<u8> {
        seq![self.spec_discriminant()] + self.payload()
    }

    /// The four bytes on the wire: the layout brought to the wire width.
    pub open spec fn encoded(self) -> Seq<u8> {
        fitted(self.serialized())
    }

    /// Writes the tagged-union layout of this error.
    pub fn serialize(&self) -> (out: Vec<u8>)
        ensures
            out@ == self.serialized(),
    {
        let mut out: Vec<u8> = Vec::with_capacity(WIRE_WIDTH);
        out.push(self.discriminant());
        match self {
            PopApiError::Other(code) => out.push(*code),
            PopApiError::Module(e) => e.serialize_into(&mut out),
            PopApiError::Token(e) => e.serialize_into(&mut out),
            PopApiError::Arithmetic(e) => e.serialize_into(&mut out),
            PopApiError::Transactional(e) => e.serialize_into(&mut out),
            PopApiError::UseCase(e) => e.serialize_into(&mut out),
            PopApiError::Unspecified { dispatch_error_index, error_index, error } => {
                out.push(*dispatch_error_index);
                out.push(*error_index);
                out.push(*error);
            },
            _ => {},
        }
        assert(out@ =~= self.serialized());
        out
    }

    /// Encodes this error as four bytes. Never fails: a layout shorter than
    /// four bytes is zero-padded, a longer one would be cut. No layout of
    /// this taxonomy is longer, so the bytes decode to this error again.
    pub fn encode(&self) -> (out: [u8; 4])
        ensures
            out@ == self.encoded(),
            PopApiError::decoded(out@) == *self,
    {
        proof {
            lemma_decode_inverts_encode(*self);
        }
        fit_to_width(self.serialize())
    }
}

} // verus!
