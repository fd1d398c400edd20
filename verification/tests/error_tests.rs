use coinflip::error::{CoinFlipError, ProgramError};

fn all_errors() -> [CoinFlipError; 10] {
    [
        CoinFlipError::InvalidGameState,
        CoinFlipError::InvalidBetAmount,
        CoinFlipError::GameNotFound,
        CoinFlipError::NotAuthorized,
        CoinFlipError::GameExpired,
        CoinFlipError::InvalidServiceHash,
        CoinFlipError::InvalidGameAccount,
        CoinFlipError::InvalidServiceAccount,
        CoinFlipError::InsufficientFunds,
        CoinFlipError::AlreadyInitialized,
    ]
}

#[test]
fn codes_count_the_variants_from_zero() {
    for (position, error) in all_errors().iter().enumerate() {
        assert_eq!(error.code(), position as u32);
    }
}

#[test]
fn codes_are_stable() {
    assert_eq!(CoinFlipError::InvalidGameState.code(), 0);
    assert_eq!(CoinFlipError::InvalidBetAmount.code(), 1);
    assert_eq!(CoinFlipError::GameNotFound.code(), 2);
    assert_eq!(CoinFlipError::NotAuthorized.code(), 3);
    assert_eq!(CoinFlipError::GameExpired.code(), 4);
    assert_eq!(CoinFlipError::InvalidServiceHash.code(), 5);
    assert_eq!(CoinFlipError::InvalidGameAccount.code(), 6);
    assert_eq!(CoinFlipError::InvalidServiceAccount.code(), 7);
    assert_eq!(CoinFlipError::InsufficientFunds.code(), 8);
    assert_eq!(CoinFlipError::AlreadyInitialized.code(), 9);
}

#[test]
fn messages_describe_the_errors() {
    assert_eq!(CoinFlipError::InvalidGameState.message(), "Invalid game state");
    assert_eq!(CoinFlipError::InvalidBetAmount.message(), "Invalid bet amount");
    assert_eq!(CoinFlipError::GameNotFound.message(), "Game not found");
    assert_eq!(CoinFlipError::NotAuthorized.message(), "Not authorized");
    assert_eq!(CoinFlipError::GameExpired.message(), "Game expired");
    assert_eq!(CoinFlipError::InvalidServiceHash.message(), "Invalid service hash");
    assert_eq!(CoinFlipError::InvalidGameAccount.message(), "Invalid game account");
    assert_eq!(CoinFlipError::InvalidServiceAccount.message(), "Invalid service account");
    assert_eq!(CoinFlipError::InsufficientFunds.message(), "Insufficient funds");
    assert_eq!(CoinFlipError::AlreadyInitialized.message(), "Account already initialized");
}

#[test]
fn game_errors_are_reported_as_custom_codes() {
    for error in all_errors() {
        assert_eq!(ProgramError::from(error), ProgramError::Custom(error.code()));
    }
    assert_eq!(ProgramError::from(CoinFlipError::InsufficientFunds), ProgramError::Custom(8));
    let converted: ProgramError = CoinFlipError::GameExpired.into();
    assert_eq!(converted, ProgramError::Custom(4));
}

#[test]
fn custom_codes_differ_from_each_other() {
    let errors = all_errors();
    for a in 0..errors.len() {
        for b in 0..errors.len() {
            assert_eq!(errors[a].code() == errors[b].code(), a == b);
        }
    }
}
