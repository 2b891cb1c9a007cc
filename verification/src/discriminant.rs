//! Discriminant bytes: the zero-based position of each variant in the
//! declaration of its union. These positions are the wire contract between
//! independently built encoders and decoders.

use vstd::prelude::*;
use crate::taxonomy::{
    ArithmeticError, FungiblesError, PopApiError, TokenError, TransactionalError, UseCaseError,
};

verus! {

impl FungiblesError {
    /// The variant's position in the declaration.
    pub open spec fn spec_discriminant(self) -> u8 {
        match self {
            FungiblesError::AssetNotLive => 0,
            FungiblesError::BelowMinimum => 1,
            FungiblesError::InsufficientAllowance => 2,
            FungiblesError::InsufficientBalance => 3,
            FungiblesError::InUse => 4,
            FungiblesError::MinBalanceZero => 5,
            FungiblesError::NoAccount => 6,
            FungiblesError::NoPermission => 7,
            FungiblesError::Unknown => 8,
        }
    }

    /// The variant at a position, if the declaration has one there.
    pub open spec fn spec_from_discriminant(byte: u8) -> Option<FungiblesError> {
        if byte == 0 {
            Some(FungiblesError::AssetNotLive)
        } else if byte == 1 {
            Some(FungiblesError::BelowMinimum)
        } else if byte == 2 {
            Some(FungiblesError::InsufficientAllowance)
        } else if byte == 3 {
            Some(FungiblesError::InsufficientBalance)
        } else if byte == 4 {
            Some(FungiblesError::InUse)
        } else if byte == 5 {
            Some(FungiblesError::MinBalanceZero)
        } else if byte == 6 {
            Some(FungiblesError::NoAccount)
        } else if byte == 7 {
            Some(FungiblesError::NoPermission)
        } else if byte == 8 {
            Some(FungiblesError::Unknown)
        } else {
            None
        }
    }

    /// The discriminant byte of this variant.
    pub fn discriminant(&self) -> (byte: u8)
        ensures
            byte == self.spec_discriminant(),
    {
        match self {
            FungiblesError::AssetNotLive => 0,
            FungiblesError::BelowMinimum => 1,
            FungiblesError::InsufficientAllowance => 2,
            FungiblesError::InsufficientBalance => 3,
            FungiblesError::InUse => 4,
            FungiblesError::MinBalanceZero => 5,
            FungiblesError::NoAccount => 6,
            FungiblesError::NoPermission => 7,
            FungiblesError::Unknown => 8,
        }
    }

    /// The variant that a discriminant byte stands for, `None` for a byte
    /// that stands for none.
    pub fn from_discriminant(byte: u8) -> (found: Option<FungiblesError>)
        ensures
            found == FungiblesError::spec_from_discriminant(byte),
            found matches Some(e) ==> e.spec_discriminant() == byte,
            found is None <==> byte > 8,
    {
        match byte {
            0 => Some(FungiblesError::AssetNotLive),
            1 => Some(FungiblesError::BelowMinimum),
            2 => Some(FungiblesError::InsufficientAllowance),
            3 => Some(FungiblesError::InsufficientBalance),
            4 => Some(FungiblesError::InUse),
            5 => Some(FungiblesError::MinBalanceZero),
            6 => Some(FungiblesError::NoAccount),
            7 => Some(FungiblesError::NoPermission),
            8 => Some(FungiblesError::Unknown),
            _ => None,
        }
    }
}

impl TokenError {
    /// The variant's position in the declaration.
    pub open spec fn spec_discriminant(self) -> u8 {
        match self {
            TokenError::Unknown => 0,
        }
    }

    /// The variant at a position, if the declaration has one there.
    pub open spec fn spec_from_discriminant(byte: u8) -> Option<TokenError> {
        if byte == 0 {
            Some(TokenError::Unknown)
        } else {
            None
        }
    }

    /// The discriminant byte of this variant.
    pub fn discriminant(&self) -> (byte: u8)
        ensures
            byte == self.spec_discriminant(),
    {
        match self {
            TokenError::Unknown => 0,
        }
    }

    /// The variant that a discriminant byte stands for, `None` for a byte
    /// that stands for none.
    pub fn from_discriminant(byte: u8) -> (found: Option<TokenError>)
        ensures
            found == TokenError::spec_from_discriminant(byte),
            found matches Some(e) ==> e.spec_discriminant() == byte,
            found is None <==> byte > 0,
    {
        match byte {
            0 => Some(TokenError::Unknown),
            _ => None,
        }
    }
}

impl ArithmeticError {
    /// The variant's position in the declaration.
    pub open spec fn spec_discriminant(self) -> u8 {
        match self {
            ArithmeticError::Overflow => 0,
        }
    }

    /// The variant at a position, if the declaration has one there.
    pub open spec fn spec_from_discriminant(byte: u8) -> Option<ArithmeticError> {
        if byte == 0 {
            Some(ArithmeticError::Overflow)
        } else {
            None
        }
    }

    /// The discriminant byte of this variant.
    pub fn discriminant(&self) -> (byte: u8)
        ensures
            byte == self.spec_discriminant(),
    {
        match self {
            ArithmeticError::Overflow => 0,
        }
    }

    /// The variant that a discriminant byte stands for, `None` for a byte
    /// that stands for none.
    pub fn from_discriminant(byte: u8) -> (found: Option<ArithmeticError>)
        ensures
            found == ArithmeticError::spec_from_discriminant(byte),
            found matches Some(e) ==> e.spec_discriminant() == byte,
            found is None <==> byte > 0,
    {
        match byte {
            0 => Some(ArithmeticError::Overflow),
            _ => None,
        }
    }
}

impl TransactionalError {
    /// The variant's position in the declaration.
    pub open spec fn spec_discriminant(self) -> u8 {
        match self {
            TransactionalError::MaxLayersReached => 0,
        }
    }

    /// The variant at a position, if the declaration has one there.
    pub open spec fn spec_from_discriminant(byte: u8) -> Option<TransactionalError> {
        if byte == 0 {
            Some(TransactionalError::MaxLayersReached)
        } else {
            None
        }
    }

    /// The discriminant byte of this variant.
    pub fn discriminant(&self) -> (byte: u8)
        ensures
            byte == self.spec_discriminant(),
    {
        match self {
            TransactionalError::MaxLayersReached => 0,
        }
    }

    /// The variant that a discriminant byte stands for, `None` for a byte
    /// that stands for none.
    pub fn from_discriminant(byte: u8) -> (found: Option<TransactionalError>)
        ensures
            found == TransactionalError::spec_from_discriminant(byte),
            found matches Some(e) ==> e.spec_discriminant() == byte,
            found is None <==> byte > 0,
    {
        match byte {
            0 => Some(TransactionalError::MaxLayersReached),
            _ => None,
        }
    }
}

impl UseCaseError {
    /// The variant's position in the declaration.
    pub open spec fn spec_discriminant(self) -> u8 {
        match self {
            UseCaseError::Fungibles(_) => 0,
        }
    }

    /// The discriminant byte of this variant.
    pub fn discriminant(&self) -> (byte: u8)
        ensures
            byte == self.spec_discriminant(),
    {
        match self {
            UseCaseError::Fungibles(_) => 0,
        }
    }
}

impl PopApiError {
    /// The variant's position in the declaration.
    pub open spec fn spec_discriminant(self) -> u8 {
        match self {
            PopApiError::Other(_) => 0,
            PopApiError::CannotLookup => 1,
            PopApiError::BadOrigin => 2,
            PopApiError::Module(_) => 3,
            PopApiError::ConsumerRemaining => 4,
            PopApiError::NoProviders => 5,
            PopApiError::TooManyConsumers => 6,
            PopApiError::Token(_) => 7,
            PopApiError::Arithmetic(_) => 8,
            PopApiError::Transactional(_) => 9,
            PopApiError::Exhausted => 10,
            PopApiError::Corruption => 11,
            PopApiError::Unavailable => 12,
            PopApiError::RootNotAllowed => 13,
            PopApiError::UseCase(_) => 14,
            PopApiError::Unspecified { .. } => 15,
        }
    }

    /// Whether a byte is the position of a declared top-level variant.
    pub open spec fn is_declared(byte: u8) -> bool {
        byte <= 15
    }

    /// The discriminant byte of this variant.
    pub fn discriminant(&self) -> (byte: u8)
        ensures
            byte == self.spec_discriminant(),
            PopApiError::is_declared(byte),
    {
        match self {
            PopApiError::Other(_) => 0,
            PopApiError::CannotLookup => 1,
            PopApiError::BadOrigin => 2,
            PopApiError::Module(_) => 3,
            PopApiError::ConsumerRemaining => 4,
            PopApiError::NoProviders => 5,
            PopApiError::TooManyConsumers => 6,
            PopApiError::Token(_) => 7,
            PopApiError::Arithmetic(_) => 8,
            PopApiError::Transactional(_) => 9,
            PopApiError::Exhausted => 10,
            PopApiError::Corruption => 11,
            PopApiError::Unavailable => 12,
            PopApiError::RootNotAllowed => 13,
            PopApiError::UseCase(_) => 14,
            PopApiError::Unspecified { .. } => 15,
        }
    }
}

} // verus!
