use pop_api_error::decoder::unrecognised;
use pop_api_error::taxonomy::{
    ArithmeticError, FungiblesError, ModuleError, PopApiError, TokenError, TransactionalError,
    UseCaseError,
};

fn unspecified(dispatch_error_index: u8, error_index: u8, error: u8) -> PopApiError {
    PopApiError::Unspecified { dispatch_error_index, error_index, error }
}

#[test]
fn decodes_each_declared_position() {
    assert_eq!(PopApiError::decode([0, 42, 0, 0]), PopApiError::Other(42));
    assert_eq!(PopApiError::decode([1, 0, 0, 0]), PopApiError::CannotLookup);
    assert_eq!(PopApiError::decode([2, 0, 0, 0]), PopApiError::BadOrigin);
    assert_eq!(
        PopApiError::decode([3, 1, 2, 0]),
        PopApiError::Module(ModuleError { index: 1, error: 2 })
    );
    assert_eq!(PopApiError::decode([4, 0, 0, 0]), PopApiError::ConsumerRemaining);
    assert_eq!(PopApiError::decode([5, 0, 0, 0]), PopApiError::NoProviders);
    assert_eq!(PopApiError::decode([6, 0, 0, 0]), PopApiError::TooManyConsumers);
    assert_eq!(PopApiError::decode([7, 0, 0, 0]), PopApiError::Token(TokenError::Unknown));
    assert_eq!(
        PopApiError::decode([8, 0, 0, 0]),
        PopApiError::Arithmetic(ArithmeticError::Overflow)
    );
    assert_eq!(
        PopApiError::decode([9, 0, 0, 0]),
        PopApiError::Transactional(TransactionalError::MaxLayersReached)
    );
    assert_eq!(PopApiError::decode([10, 0, 0, 0]), PopApiError::Exhausted);
    assert_eq!(PopApiError::decode([11, 0, 0, 0]), PopApiError::Corruption);
    assert_eq!(PopApiError::decode([12, 0, 0, 0]), PopApiError::Unavailable);
    assert_eq!(PopApiError::decode([13, 0, 0, 0]), PopApiError::RootNotAllowed);
    assert_eq!(
        PopApiError::decode([14, 0, 3, 0]),
        PopApiError::UseCase(UseCaseError::Fungibles(FungiblesError::InsufficientBalance))
    );
    assert_eq!(PopApiError::decode([15, 3, 2, 1]), unspecified(3, 2, 1));
}

#[test]
fn undeclared_position_falls_back_with_that_byte_alone() {
    for top in 16..=255u8 {
        assert_eq!(PopApiError::decode([top, 0, 0, 0]), unspecified(top, 0, 0));
        assert_eq!(PopApiError::decode([top, 1, 2, 3]), unspecified(top, 0, 0));
        assert_eq!(PopApiError::decode([top, 255, 255, 255]), unspecified(top, 0, 0));
    }
}

#[test]
fn unknown_nested_discriminant_falls_back_with_both_bytes() {
    assert_eq!(PopApiError::decode([7, 5, 9, 9]), unspecified(7, 5, 0));
    assert_eq!(PopApiError::decode([8, 1, 0, 0]), unspecified(8, 1, 0));
    assert_eq!(PopApiError::decode([9, 255, 0, 0]), unspecified(9, 255, 0));
    assert_eq!(PopApiError::decode([14, 1, 3, 0]), unspecified(14, 1, 0));
}

#[test]
fn unknown_fungibles_discriminant_falls_back_with_three_bytes() {
    assert_eq!(PopApiError::decode([14, 0, 9, 0]), unspecified(14, 0, 9));
    assert_eq!(PopApiError::decode([14, 0, 255, 77]), unspecified(14, 0, 255));
    assert_eq!(
        PopApiError::decode([14, 0, 8, 77]),
        PopApiError::UseCase(UseCaseError::Fungibles(FungiblesError::Unknown))
    );
}

#[test]
fn bytes_after_the_layout_are_ignored() {
    assert_eq!(PopApiError::decode([1, 5, 6, 7]), PopApiError::CannotLookup);
    assert_eq!(PopApiError::decode([0, 42, 6, 7]), PopApiError::Other(42));
    assert_eq!(
        PopApiError::decode([3, 1, 2, 7]),
        PopApiError::Module(ModuleError { index: 1, error: 2 })
    );
    assert_eq!(PopApiError::decode([7, 0, 6, 7]), PopApiError::Token(TokenError::Unknown));
    assert_eq!(
        PopApiError::decode([14, 0, 3, 7]),
        PopApiError::UseCase(UseCaseError::Fungibles(FungiblesError::InsufficientBalance))
    );
}

#[test]
fn all_zero_and_all_ones() {
    assert_eq!(PopApiError::decode([0, 0, 0, 0]), PopApiError::Other(0));
    assert_eq!(PopApiError::decode([255, 255, 255, 255]), unspecified(255, 0, 0));
}

#[test]
fn decode_gives_a_value_for_every_first_two_bytes() {
    for top in 0..=255u8 {
        for second in 0..=255u8 {
            for rest in [[0u8, 0u8], [3, 0], [9, 1], [255, 255]] {
                let bytes = [top, second, rest[0], rest[1]];
                let error = PopApiError::decode(bytes);
                let layout = error.serialize();
                assert!((1..=4).contains(&layout.len()));
                match error {
                    PopApiError::Unspecified { dispatch_error_index, .. } if top != 15 => {
                        assert_eq!(dispatch_error_index, top)
                    },
                    _ => assert_eq!(&bytes[..layout.len()], &layout[..]),
                }
                assert_eq!(PopApiError::decode(error.encode()), error);
            }
        }
    }
}

#[test]
fn fallback_keeps_the_bytes_in_order() {
    assert_eq!(unrecognised(1, 2, 3), unspecified(1, 2, 3));
    assert_eq!(unrecognised(200, 0, 0), unspecified(200, 0, 0));
}
