//! The error taxonomy: pure data, compared by value and freely copied.

use vstd::prelude::*;

verus! {

/// The top-level error. The order of the variants is part of the wire
/// contract: a variant's position is its discriminant byte.
#[derive(Debug, PartialEq, Eq, Clone, Copy, Structural)]
pub enum PopApiError {
    /// An opaque code defined by the host.
    Other(u8),
    /// A lookup failed.
    CannotLookup,
    /// The caller's origin was rejected.
    BadOrigin,
    /// An error raised by a sub-module that no curated variant covers.
    Module(ModuleError),
    /// The resource is still referenced by a consumer.
    ConsumerRemaining,
    /// The resource has no providers.
    NoProviders,
    /// The consumer limit was exceeded.
    TooManyConsumers,
    /// An error of the token subsystem.
    Token(TokenError),
    /// An arithmetic fault.
    Arithmetic(ArithmeticError),
    /// A fault of the transactional layer.
    Transactional(TransactionalError),
    /// A resource was exhausted.
    Exhausted,
    /// State corruption was detected.
    Corruption,
    /// A resource is temporarily unavailable.
    Unavailable,
    /// A privileged operation was rejected.
    RootNotAllowed,
    /// A curated error of a known use case.
    UseCase(UseCaseError),
    /// The escape hatch for a shape that has no variant of its own. The three
    /// bytes say where in the producer's error space the shape was found.
    Unspecified {
        /// Position within the top-level union.
        dispatch_error_index: u8,
        /// Position within the nested union, `0` where none was reached.
        error_index: u8,
        /// The byte that follows, `0` where none was reached.
        error: u8,
    },
}

/// The curated errors, by use case.
#[derive(Debug, PartialEq, Eq, Clone, Copy, Structural)]
pub enum UseCaseError {
    /// An error of the fungible-assets use case.
    Fungibles(FungiblesError),
}

/// What can go wrong with a fungible asset.
#[derive(Debug, PartialEq, Eq, Clone, Copy, Structural)]
pub enum FungiblesError {
    /// The asset is not live; either frozen or being destroyed.
    AssetNotLive,
    /// The amount to mint is less than the existential deposit.
    BelowMinimum,
    /// Not enough allowance to fulfill a request is available.
    InsufficientAllowance,
    /// Not enough balance to fulfill a request is available.
    InsufficientBalance,
    /// The asset ID is already taken.
    InUse,
    /// Minimum balance should be non-zero.
    MinBalanceZero,
    /// The account to alter does not exist.
    NoAccount,
    /// The signing account has no permission to do the operation.
    NoPermission,
    /// The given asset ID is unknown.
    Unknown,
}

/// An error of one sub-module. Both fields are raw bytes: every pair is valid.
#[derive(Debug, PartialEq, Eq, Clone, Copy, Structural)]
pub struct ModuleError {
    /// The sub-module's index.
    pub index: u8,
    /// The error's code within the sub-module.
    pub error: u8,
}

/// Errors of the token subsystem.
#[derive(Debug, PartialEq, Eq, Clone, Copy, Structural)]
pub enum TokenError {
    /// The token is unknown.
    Unknown,
}

/// Arithmetic faults.
#[derive(Debug, PartialEq, Eq, Clone, Copy, Structural)]
pub enum ArithmeticError {
    /// A computation overflowed.
    Overflow,
}

/// Faults of the transactional layer.
#[derive(Debug, PartialEq, Eq, Clone, Copy, Structural)]
pub enum TransactionalError {
    /// Too many transactional layers are open.
    MaxLayersReached,
}

} // verus!
