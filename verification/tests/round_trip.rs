use pop_api_error::scalar::{encode_and_decode_to_pop_api_error, encode_and_decode_to_u32};
use pop_api_error::taxonomy::{
    ArithmeticError, FungiblesError, ModuleError, PopApiError, TokenError, TransactionalError,
    UseCaseError,
};

const FUNGIBLES: [FungiblesError; 9] = [
    FungiblesError::AssetNotLive,
    FungiblesError::BelowMinimum,
    FungiblesError::InsufficientAllowance,
    FungiblesError::InsufficientBalance,
    FungiblesError::InUse,
    FungiblesError::MinBalanceZero,
    FungiblesError::NoAccount,
    FungiblesError::NoPermission,
    FungiblesError::Unknown,
];

fn round_trips(error: PopApiError) {
    assert_eq!(PopApiError::decode(error.encode()), error);
    assert_eq!(encode_and_decode_to_pop_api_error(encode_and_decode_to_u32(error)), error);
}

#[test]
fn test_module_error_encoding_decoding() {
    let error = PopApiError::Module(ModuleError { index: 1, error: 2 });
    println!("Error: {error:?}");
    let value_u32 = encode_and_decode_to_u32(error);
    println!("U32: {value_u32}");
    let decoded_error = encode_and_decode_to_pop_api_error(value_u32);
    assert_eq!(error, decoded_error);
}

#[test]
fn test_use_case_error_encoding_decoding() {
    let error = PopApiError::UseCase(UseCaseError::Fungibles(FungiblesError::InsufficientBalance));
    println!("Error: {error:?}");
    let value_u32 = encode_and_decode_to_u32(error);
    println!("U32: {value_u32}");
    let decoded_error = encode_and_decode_to_pop_api_error(value_u32);
    assert_eq!(error, decoded_error);
}

#[test]
fn test_unspecified_error_encoding_decoding() {
    let error = PopApiError::Unspecified { dispatch_error_index: 3, error_index: 2, error: 1 };
    println!("Error: {error:?}");
    let value_u32 = encode_and_decode_to_u32(error);
    println!("U32: {value_u32}");
    let decoded_error = encode_and_decode_to_pop_api_error(value_u32);
    assert_eq!(error, decoded_error);
}

#[test]
fn unit_variants_round_trip() {
    round_trips(PopApiError::CannotLookup);
    round_trips(PopApiError::BadOrigin);
    round_trips(PopApiError::ConsumerRemaining);
    round_trips(PopApiError::NoProviders);
    round_trips(PopApiError::TooManyConsumers);
    round_trips(PopApiError::Exhausted);
    round_trips(PopApiError::Corruption);
    round_trips(PopApiError::Unavailable);
    round_trips(PopApiError::RootNotAllowed);
}

#[test]
fn nested_variants_round_trip() {
    round_trips(PopApiError::Token(TokenError::Unknown));
    round_trips(PopApiError::Arithmetic(ArithmeticError::Overflow));
    round_trips(PopApiError::Transactional(TransactionalError::MaxLayersReached));
    for e in FUNGIBLES {
        round_trips(PopApiError::UseCase(UseCaseError::Fungibles(e)));
    }
}

#[test]
fn every_other_code_round_trips() {
    for code in 0..=255u8 {
        round_trips(PopApiError::Other(code));
    }
}

#[test]
fn every_module_error_round_trips() {
    for index in 0..=255u8 {
        for error in 0..=255u8 {
            let e = PopApiError::Module(ModuleError { index, error });
            assert_eq!(PopApiError::decode(e.encode()), e);
        }
    }
}

#[test]
fn unspecified_round_trips_on_a_grid() {
    let samples: [u8; 9] = [0, 1, 2, 14, 15, 16, 127, 128, 255];
    for dispatch_error_index in samples {
        for error_index in samples {
            for error in samples {
                round_trips(PopApiError::Unspecified { dispatch_error_index, error_index, error });
            }
        }
    }
}

#[test]
fn unspecified_that_names_a_declared_position_stays_unspecified() {
    let error = PopApiError::Unspecified { dispatch_error_index: 1, error_index: 0, error: 0 };
    assert_eq!(error.encode(), [15, 1, 0, 0]);
    assert_eq!(PopApiError::decode([15, 1, 0, 0]), error);
    assert_ne!(PopApiError::decode([15, 1, 0, 0]), PopApiError::CannotLookup);
}

#[test]
fn distinct_errors_have_distinct_bytes() {
    let errors = [
        PopApiError::Other(0),
        PopApiError::Other(1),
        PopApiError::CannotLookup,
        PopApiError::BadOrigin,
        PopApiError::Module(ModuleError { index: 0, error: 0 }),
        PopApiError::Module(ModuleError { index: 0, error: 1 }),
        PopApiError::Module(ModuleError { index: 1, error: 0 }),
        PopApiError::Token(TokenError::Unknown),
        PopApiError::Arithmetic(ArithmeticError::Overflow),
        PopApiError::Transactional(TransactionalError::MaxLayersReached),
        PopApiError::UseCase(UseCaseError::Fungibles(FungiblesError::AssetNotLive)),
        PopApiError::UseCase(UseCaseError::Fungibles(FungiblesError::Unknown)),
        PopApiError::Unspecified { dispatch_error_index: 0, error_index: 0, error: 0 },
        PopApiError::Unspecified { dispatch_error_index: 0, error_index: 0, error: 1 },
    ];
    for (i, a) in errors.iter().enumerate() {
        for (j, b) in errors.iter().enumerate() {
            assert_eq!(a.encode() == b.encode(), i == j);
        }
    }
}

#[test]
fn encode_after_decode_loses_unused_bytes() {
    let bytes = [1u8, 5, 5, 5];
    let error = PopApiError::decode(bytes);
    assert_eq!(error, PopApiError::CannotLookup);
    assert_eq!(error.encode(), [1, 0, 0, 0]);
    assert_ne!(error.encode(), bytes);
}

#[test]
fn encode_after_decode_of_a_fallback_is_not_the_input() {
    let bytes = [16u8, 1, 2, 3];
    let error = PopApiError::decode(bytes);
    assert_eq!(
        error,
        PopApiError::Unspecified { dispatch_error_index: 16, error_index: 0, error: 0 }
    );
    assert_eq!(error.encode(), [15, 16, 0, 0]);
    assert_eq!(PopApiError::decode(error.encode()), error);
}

#[test]
fn encode_after_decode_is_identity_on_encoded_bytes() {
    for bytes in [[3u8, 1, 2, 0], [14, 0, 3, 0], [15, 3, 2, 1], [0, 9, 0, 0], [13, 0, 0, 0]] {
        assert_eq!(PopApiError::decode(bytes).encode(), bytes);
    }
}
