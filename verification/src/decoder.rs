//! The decoder: any four bytes to a taxonomy value. It never fails: a shape
//! that it does not recognise becomes `Unspecified`, which keeps the
//! discriminant bytes read on the way.

use vstd::prelude::*;
use crate::taxonomy::{
    ArithmeticError, FungiblesError, ModuleError, PopApiError, TokenError, TransactionalError,
    UseCaseError,
};

verus! {

/// The fallback for a shape that was not recognised. `top` is the top-level
/// discriminant, `nested` the discriminant of the union below it and `next`
/// the byte after that; a position that was not reached is `0`.
pub open spec fn spec_unrecognised(top: u8, nested: u8, next: u8) -> PopApiError {
    PopApiError::Unspecified { dispatch_error_index: top, error_index: nested, error: next }
}

/// The fallback for a shape that was not recognised, from the bytes read so
/// far.
pub fn unrecognised(top: u8, nested: u8, next: u8) -> (out: PopApiError)
    ensures
        out == spec_unrecognised(top, nested, next),
{
    PopApiError::Unspecified { dispatch_error_index: top, error_index: nested, error: next }
}

impl UseCaseError {
    /// The use-case error whose layout starts `bytes[1]`, `bytes[2]`, below
    /// the top-level discriminant `bytes[0]`; the fallback where one of the
    /// two discriminants stands for no variant.
    pub open spec fn decoded_below(bytes: Seq<u8>) -> PopApiError
        recommends
            bytes.len() == 4,
    {
        if bytes[1] == 0 {
            match FungiblesError::spec_from_discriminant(bytes[2]) {
                Some(e) => PopApiError::UseCase(UseCaseError::Fungibles(e)),
                None => spec_unrecognised(bytes[0], bytes[1], bytes[2]),
            }
        } else {
            spec_unrecognised(bytes[0], bytes[1], 0)
        }
    }
}

impl PopApiError {
    /// The error that four bytes stand for.
    ///
    /// The first byte selects the variant, the bytes after it are its fields
    /// in declaration order, and bytes that the variant does not use are
    /// ignored. Where the first byte stands for no variant the result is
    /// `Unspecified` with that byte alone; where a nested discriminant stands
    /// for none, `Unspecified` with the discriminants read so far.
    pub open spec fn decoded(bytes: Seq<u8>) -> PopApiError
        recommends
            bytes.len() == 4,
    {
        let top = bytes[0];
        if top == 0 {
            PopApiError::Other(bytes[1])
        } else if top == 1 {
            PopApiError::CannotLookup
        } else if top == 2 {
            PopApiError::BadOrigin
        } else if top == 3 {
            PopApiError::Module(ModuleError { index: bytes[1], error: bytes[2] })
        } else if top == 4 {
            PopApiError::ConsumerRemaining
        } else if top == 5 {
            PopApiError::NoProviders
        } else if top == 6 {
            PopApiError::TooManyConsumers
        } else if top == 7 {
            match TokenError::spec_from_discriminant(bytes[1]) {
                Some(e) => PopApiError::Token(e),
                None => spec_unrecognised(top, bytes[1], 0),
            }
        } else if top == 8 {
            match ArithmeticError::spec_from_discriminant(bytes[1]) {
                Some(e) => PopApiError::Arithmetic(e),
                None => spec_unrecognised(top, bytes[1], 0),
            }
        } else if top == 9 {
            match TransactionalError::spec_from_discriminant(bytes[1]) {
                Some(e) => PopApiError::Transactional(e),
                None => spec_unrecognised(top, bytes[1], 0),
            }
        } else if top == 10 {
            PopApiError::Exhausted
        } else if top == 11 {
            PopApiError::Corruption
        } else if top == 12 {
            PopApiError::Unavailable
        } else if top == 13 {
            PopApiError::RootNotAllowed
        } else if top == 14 {
            UseCaseError::decoded_below(bytes)
        } else if top == 15 {
            PopApiError::Unspecified {
                dispatch_error_index: bytes[1],
                error_index: bytes[2],
                error: bytes[3],
            }
        } else {
            spec_unrecognised(top, 0, 0)
        }
    }

    /// Decodes four bytes. Total: every input gives a value, and a first
    /// byte that stands for no declared variant gives `Unspecified` with that
    /// byte and two zeros.
    pub fn decode(bytes: [u8; 4]) -> (out: PopApiError)
        ensures
            out == PopApiError::decoded(bytes@),
            !PopApiError::is_declared(bytes@[0]) ==> out == (PopApiError::Unspecified {
                dispatch_error_index: bytes@[0],
                error_index: 0,
                error: 0,
            }),
    {
        let top = bytes[0];
        match top {
            0 => PopApiError::Other(bytes[1]),
            1 => PopApiError::CannotLookup,
            2 => PopApiError::BadOrigin,
            3 => PopApiError::Module(ModuleError { index: bytes[1], error: bytes[2] }),
            4 => PopApiError::ConsumerRemaining,
            5 => PopApiError::NoProviders,
            6 => PopApiError::TooManyConsumers,
            7 => match TokenError::from_discriminant(bytes[1]) {
                Some(e) => PopApiError::Token(e),
                None => unrecognised(top, bytes[1], 0),
            },
            8 => match ArithmeticError::from_discriminant(bytes[1]) {
                Some(e) => PopApiError::Arithmetic(e),
                None => unrecognised(top, bytes[1], 0),
            },
            9 => match TransactionalError::from_discriminant(bytes[1]) {
                Some(e) => PopApiError::Transactional(e),
                None => unrecognised(top, bytes[1], 0),
            },
            10 => PopApiError::Exhausted,
            11 => PopApiError::Corruption,
            12 => PopApiError::Unavailable,
            13 => PopApiError::RootNotAllowed,
            14 => match bytes[1] {
                0 => match FungiblesError::from_discriminant(bytes[2]) {
                    Some(e) => PopApiError::UseCase(UseCaseError::Fungibles(e)),
                    None => unrecognised(top, bytes[1], bytes[2]),
                },
                _ => unrecognised(top, bytes[1], 0),
            },
            15 => PopApiError::Unspecified {
                dispatch_error_index: bytes[1],
                error_index: bytes[2],
                error: bytes[3],
            },
            _ => unrecognised(top, 0, 0),
        }
    }
}

} // verus!
