//! The errors of the program and their stable numeric codes.

use vstd::prelude::*;
use vstd::std_specs::convert::FromSpecImpl;

verus! {

/// What can be wrong with a request to the game.
#[derive(Debug, Clone, Copy, PartialEq, Eq, Structural)]
pub enum CoinFlipError {
    /// The game is not in the state that the operation starts from.
    InvalidGameState,
    /// The stake is zero.
    InvalidBetAmount,
    /// No game is recorded where one was expected.
    GameNotFound,
    /// The signer may not perform the operation.
    NotAuthorized,
    /// The window for joining the game has elapsed.
    GameExpired,
    /// The revealed seed differs from the recorded commitment.
    InvalidServiceHash,
    /// The game account does not belong to the program.
    InvalidGameAccount,
    /// The service account does not belong to the program.
    InvalidServiceAccount,
    /// The payer's balance is below what it has to lock.
    InsufficientFunds,
    /// The account already holds a game.
    AlreadyInitialized,
}

impl CoinFlipError {
    /// The number under which the ledger reports this error.
    pub open spec fn spec_code(self) -> u32 {
        match self {
            CoinFlipError::InvalidGameState => 0,
            CoinFlipError::InvalidBetAmount => 1,
            CoinFlipError::GameNotFound => 2,
            CoinFlipError::NotAuthorized => 3,
            CoinFlipError::GameExpired => 4,
            CoinFlipError::InvalidServiceHash => 5,
            CoinFlipError::InvalidGameAccount => 6,
            CoinFlipError::InvalidServiceAccount => 7,
            CoinFlipError::InsufficientFunds => 8,
            CoinFlipError::AlreadyInitialized => 9,
        }
    }

    /// The text that describes this error.
    pub open spec fn spec_message(self) -> Seq<char> {
        match self {
            CoinFlipError::InvalidGameState => "Invalid game state"@,
            CoinFlipError::InvalidBetAmount => "Invalid bet amount"@,
            CoinFlipError::GameNotFound => "Game not found"@,
            CoinFlipError::NotAuthorized => "Not authorized"@,
            CoinFlipError::GameExpired => "Game expired"@,
            CoinFlipError::InvalidServiceHash => "Invalid service hash"@,
            CoinFlipError::InvalidGameAccount => "Invalid game account"@,
            CoinFlipError::InvalidServiceAccount => "Invalid service account"@,
            CoinFlipError::InsufficientFunds => "Insufficient funds"@,
            CoinFlipError::AlreadyInitialized => "Account already initialized"@,
        }
    }

    /// The number under which the ledger reports this error: the position of
    /// the variant, counted from zero.
    #[verifier::when_used_as_spec(spec_code)]
    pub fn code(self) -> (code: u32)
        ensures
            code == self.spec_code(),
    {
        match self {
            CoinFlipError::InvalidGameState => 0,
            CoinFlipError::InvalidBetAmount => 1,
            CoinFlipError::GameNotFound => 2,
            CoinFlipError::NotAuthorized => 3,
            CoinFlipError::GameExpired => 4,
            CoinFlipError::InvalidServiceHash => 5,
            CoinFlipError::InvalidGameAccount => 6,
            CoinFlipError::InvalidServiceAccount => 7,
            CoinFlipError::InsufficientFunds => 8,
            CoinFlipError::AlreadyInitialized => 9,
        }
    }

    /// The text that describes this error.
    pub fn message(self) -> (text: &'static str)
        ensures
            text@ == self.spec_message(),
    {
        match self {
            CoinFlipError::InvalidGameState => "Invalid game state",
            CoinFlipError::InvalidBetAmount => "Invalid bet amount",
            CoinFlipError::GameNotFound => "Game not found",
            CoinFlipError::NotAuthorized => "Not authorized",
            CoinFlipError::GameExpired => "Game expired",
            CoinFlipError::InvalidServiceHash => "Invalid service hash",
            CoinFlipError::InvalidGameAccount => "Invalid game account",
            CoinFlipError::InvalidServiceAccount => "Invalid service account",
            CoinFlipError::InsufficientFunds => "Insufficient funds",
            CoinFlipError::AlreadyInitialized => "Account already initialized",
        }
    }
}

/// The rejection that a call hands back to the ledger.
#[derive(Debug, Clone, Copy, PartialEq, Eq, Structural)]
pub enum ProgramError {
    /// An error of the game itself, by its code.
    Custom(u32),
    /// An account of the call is not the one that the operation needs there.
    InvalidArgument,
    /// The instruction's bytes are not one of the four operations.
    InvalidInstructionData,
    /// An account's bytes are not a record of the expected kind.
    InvalidAccountData,
    /// The record in the account was never initialized.
    UninitializedAccount,
    /// The call names fewer accounts than the operation needs.
    NotEnoughAccountKeys,
    /// A counter or a balance would leave the range of its type.
    ArithmeticOverflow,
}

impl From<CoinFlipError> for ProgramError {
    /// A game error is reported as `Custom` with the error's code.
    fn from(e: CoinFlipError) -> (error: ProgramError) {
        ProgramError::Custom(e.code())
    }
}

impl FromSpecImpl<CoinFlipError> for ProgramError {
    open spec fn obeys_from_spec() -> bool {
        true
    }

    open spec fn from_spec(e: CoinFlipError) -> ProgramError {
        ProgramError::Custom(e.spec_code())
    }
}

} // verus!
