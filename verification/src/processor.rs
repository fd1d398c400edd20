//! The lifecycle of a game: what each operation asks of the accounts it is
//! given, in which order, and what it changes.
//!
//! An operation that fails changes nothing. One that succeeds moves the stake
//! and writes the game's new stage together.

use crate::account::{
    keys_differ, lemma_total_covers_pair, spec_keys_differ, total_fits, total_lamports, views,
    Account, AccountView,
};
use crate::codec::overwrite;
use crate::error::{CoinFlipError, ProgramError};
use crate::escrow::{lock, pay};
use crate::instruction::GameInstruction;
use crate::laws::{
    lemma_cancel_outcome, lemma_checked_call, lemma_complete_outcome, lemma_create_outcome,
    lemma_join_outcome, lemma_process_conserves_total,
};
use crate::pubkey::{bytes32_eq, Pubkey};
use crate::state::{Game, GameAccount, GameServiceAccount, GameState};
use vstd::prelude::*;

verus! {

/// For how many seconds after its creation a game can be joined, and only its
/// creator can cancel it.
pub const EXPIRY_WINDOW: i64 = 3600;

/// The rejection that reports a game error.
pub open spec fn custom(e: CoinFlipError) -> ProgramError {
    ProgramError::Custom(e.spec_code())
}

/// Whether at `now` the window of a game created at `created_at` has elapsed.
pub open spec fn spec_expired(created_at: i64, now: i64) -> bool {
    now > created_at + EXPIRY_WINDOW
}

/// Whether at `now` the window of a game created at `created_at` has elapsed.
#[verifier::when_used_as_spec(spec_expired)]
pub fn expired(created_at: i64, now: i64) -> (elapsed: bool)
    ensures
        elapsed == spec_expired(created_at, now),
{
    match created_at.checked_add(EXPIRY_WINDOW) {
        Some(deadline) => now > deadline,
        None => false,
    }
}

/// The game that a call finds in `account`: the account belongs to the
/// program, its bytes hold an initialized record, and the record names a
/// second player exactly where its stage has one.
pub open spec fn spec_load_game(program_id: Pubkey, account: AccountView) -> Result<
    GameAccount,
    ProgramError,
> {
    if account.owner != program_id {
        Err(custom(CoinFlipError::InvalidGameAccount))
    } else {
        match GameAccount::spec_unpack(account.data) {
            Err(e) => Err(e),
            Ok(record) => if record.game.well_formed() {
                Ok(record)
            } else {
                Err(ProgramError::InvalidAccountData)
            },
        }
    }
}

/// Whether `account`, where it holds a game, holds at least the stakes that
/// the stage of the game prescribes.
pub open spec fn escrow_funded(program_id: Pubkey, account: AccountView) -> bool {
    spec_load_game(program_id, account) matches Ok(record) ==> account.lamports
        >= record.game.escrow_due()
}

/// What `account` holds beyond the stakes of its game.
pub open spec fn reserve(program_id: Pubkey, account: AccountView) -> int {
    match spec_load_game(program_id, account) {
        Ok(record) => account.lamports - record.game.escrow_due(),
        Err(_) => account.lamports as int,
    }
}

/// The account of a game after `record` was written to it.
pub open spec fn stored(account: AccountView, record: GameAccount) -> AccountView {
    account.with_data(overwrite(account.data, record.spec_bytes()))
}

/// The game after `player2` has joined it.
pub open spec fn joined(game: Game, player2: Pubkey) -> Game {
    Game { player2: Some(player2), state: GameState::Joined, ..game }
}

/// The game at another stage.
pub open spec fn at_stage(game: Game, state: GameState) -> Game {
    Game { state, ..game }
}

/// Whether `hash` records no commitment: all its bytes are zero.
pub open spec fn spec_no_commitment(hash: [u8; 32]) -> bool {
    forall|i: int| 0 <= i < 32 ==> hash[i] == 0
}

/// Whether `hash` records no commitment: all its bytes are zero.
pub fn no_commitment(hash: &[u8; 32]) -> (none: bool)
    ensures
        none == spec_no_commitment(*hash),
{
    let mut i: usize = 0;
    while i < 32
        invariant
            i <= 32,
            forall|j: int| 0 <= j < i ==> hash[j] == 0,
        decreases 32 - i,
    {
        if hash[i] != 0 {
            return false;
        }
        i += 1;
    }
    true
}

/// The commitment of a game for which none is recorded: 32 zero bytes.
pub open spec fn zero_hash() -> [u8; 32] {
    vstd::array::spec_array_fill_for_copy_type::<u8, 32>(0u8)
}

/// The game that `player1` opens at `now` with the given stake and
/// prediction, under the number `id`: in `Created`, with no second player and
/// no commitment.
pub open spec fn opened(
    id: u64,
    player1: Pubkey,
    bet_amount: u64,
    choice: bool,
    now: i64,
) -> Game {
    Game {
        id,
        player1,
        player2: None,
        bet_amount,
        state: GameState::Created,
        created_at: now,
        service_hash: zero_hash(),
        player1_choice: choice,
    }
}

/// Why `player` cannot open a game in `game_account`, if anything stands
/// against it. The first of these that holds decides: the stake is zero; the
/// game account is not the program's; the service account is not the
/// program's; the player holds less than rent and stake together; the service
/// account holds no initialized record; the game account has not the length of
/// a game account or holds bytes that are no record; it holds a game already;
/// the counter of the service has no next value.
pub open spec fn create_error(
    program_id: Pubkey,
    game_account: AccountView,
    player: AccountView,
    service_account: AccountView,
    bet_amount: u64,
    rent_lamports: u64,
) -> Option<ProgramError> {
    if bet_amount == 0 {
        Some(custom(CoinFlipError::InvalidBetAmount))
    } else if game_account.owner != program_id {
        Some(custom(CoinFlipError::InvalidGameAccount))
    } else if service_account.owner != program_id {
        Some(custom(CoinFlipError::InvalidServiceAccount))
    } else if player.lamports < bet_amount + rent_lamports {
        Some(custom(CoinFlipError::InsufficientFunds))
    } else {
        match GameServiceAccount::spec_unpack(service_account.data) {
            Err(e) => Some(e),
            Ok(service) => match GameAccount::spec_unpack_unchecked(game_account.data) {
                Err(e) => Some(e),
                Ok(record) => if record.is_initialized {
                    Some(custom(CoinFlipError::AlreadyInitialized))
                } else if service.next_game_id == u64::MAX {
                    Some(ProgramError::ArithmeticOverflow)
                } else {
                    None
                },
            },
        }
    }
}

/// The game account, the player and the service account after the player has
/// opened a game: rent and stake have moved from the player into the game
/// account, the account holds the new game under the service's next id, and
/// the service's counter is one higher.
pub open spec fn create_effect(
    game_account: AccountView,
    player: AccountView,
    service_account: AccountView,
    bet_amount: u64,
    choice: bool,
    now: i64,
    rent_lamports: u64,
) -> (AccountView, AccountView, AccountView) {
    let service = GameServiceAccount::spec_unpack(service_account.data)->Ok_0;
    (
        stored(
            game_account.with_lamports(
                (game_account.lamports + rent_lamports + bet_amount) as u64,
            ),
            GameAccount {
                is_initialized: true,
                game: opened(service.next_game_id, player.key, bet_amount, choice, now),
            },
        ),
        player.with_lamports((player.lamports - rent_lamports - bet_amount) as u64),
        service_account.with_data(
            overwrite(
                service_account.data,
                GameServiceAccount {
                    next_game_id: (service.next_game_id + 1) as u64,
                    ..service
                }.spec_bytes(),
            ),
        ),
    )
}

/// Why `player` cannot join the game in `game_account` at `now`, if anything
/// stands against it. The first of these that holds decides: the game cannot
/// be loaded; it is not in `Created`; the player is its creator; its window
/// has elapsed; the player holds less than the stake.
pub open spec fn join_error(
    program_id: Pubkey,
    game_account: AccountView,
    player: AccountView,
    now: i64,
) -> Option<ProgramError> {
    match spec_load_game(program_id, game_account) {
        Err(e) => Some(e),
        Ok(record) => if record.game.state != GameState::Created {
            Some(custom(CoinFlipError::InvalidGameState))
        } else if player.key == record.game.player1 {
            Some(custom(CoinFlipError::NotAuthorized))
        } else if spec_expired(record.game.created_at, now) {
            Some(custom(CoinFlipError::GameExpired))
        } else if player.lamports < record.game.bet_amount {
            Some(custom(CoinFlipError::InsufficientFunds))
        } else {
            None
        },
    }
}

/// The game account and the player after the player has joined: the stake
/// has moved from the player into the account, and the game names the player
/// and is in `Joined`.
pub open spec fn join_effect(
    program_id: Pubkey,
    game_account: AccountView,
    player: AccountView,
) -> (AccountView, AccountView) {
    let record = spec_load_game(program_id, game_account)->Ok_0;
    let bet = record.game.bet_amount;
    (
        stored(
            game_account.with_lamports((game_account.lamports + bet) as u64),
            GameAccount { game: joined(record.game, player.key), ..record },
        ),
        player.with_lamports((player.lamports - bet) as u64),
    )
}

/// Why the game in `game_account` cannot be completed with `seed`, if anything
/// stands against it. The first of these that holds decides: the game cannot
/// be loaded; it is not in `Joined`; it records a commitment and `seed` is not
/// that commitment.
pub open spec fn complete_error(
    program_id: Pubkey,
    game_account: AccountView,
    seed: [u8; 32],
) -> Option<ProgramError> {
    match spec_load_game(program_id, game_account) {
        Err(e) => Some(e),
        Ok(record) => if record.game.state != GameState::Joined {
            Some(custom(CoinFlipError::InvalidGameState))
        } else if !spec_no_commitment(record.game.service_hash) && record.game.service_hash
            != seed {
            Some(custom(CoinFlipError::InvalidServiceHash))
        } else {
            None
        },
    }
}

/// The game account and the payout account after the game was completed: both
/// stakes have moved from the game account to the payout account, and the
/// game is in `Completed`.
pub open spec fn complete_effect(
    program_id: Pubkey,
    game_account: AccountView,
    winner_account: AccountView,
) -> (AccountView, AccountView) {
    let record = spec_load_game(program_id, game_account)->Ok_0;
    let winnings = 2 * record.game.bet_amount;
    (
        stored(
            game_account.with_lamports((game_account.lamports - winnings) as u64),
            GameAccount { game: at_stage(record.game, GameState::Completed), ..record },
        ),
        winner_account.with_lamports((winner_account.lamports + winnings) as u64),
    )
}

/// Whether `winner_account` is the account of the side that wins the game in
/// `game_account` on `result`.
pub open spec fn pays_winner(
    program_id: Pubkey,
    game_account: AccountView,
    winner_account: AccountView,
    result: bool,
) -> bool {
    spec_load_game(program_id, game_account) matches Ok(record) && record.game.spec_winner(
        result,
    ) == Some(winner_account.key)
}

/// Whether the creator's account may take the stake of `game` back at `now`:
/// it is the account of the creator, and the creator has signed or the window
/// has elapsed.
pub open spec fn may_cancel(game: Game, player: AccountView, now: i64) -> bool {
    player.key == game.player1 && (player.is_signer || spec_expired(game.created_at, now))
}

/// Why the game in `game_account` cannot be cancelled at `now`, if anything
/// stands against it. The first of these that holds decides: the game cannot
/// be loaded; it is not in `Created`; `player` may not cancel it.
pub open spec fn cancel_error(
    program_id: Pubkey,
    game_account: AccountView,
    player: AccountView,
    now: i64,
) -> Option<ProgramError> {
    match spec_load_game(program_id, game_account) {
        Err(e) => Some(e),
        Ok(record) => if record.game.state != GameState::Created {
            Some(custom(CoinFlipError::InvalidGameState))
        } else if !may_cancel(record.game, player, now) {
            Some(custom(CoinFlipError::NotAuthorized))
        } else {
            None
        },
    }
}

/// The game account and the creator's account after the game was cancelled:
/// the stake has moved back to the creator, and the game is in `Cancelled`.
pub open spec fn cancel_effect(
    program_id: Pubkey,
    game_account: AccountView,
    player: AccountView,
) -> (AccountView, AccountView) {
    let record = spec_load_game(program_id, game_account)->Ok_0;
    let bet = record.game.bet_amount;
    (
        stored(
            game_account.with_lamports((game_account.lamports - bet) as u64),
            GameAccount { game: at_stage(record.game, GameState::Cancelled), ..record },
        ),
        player.with_lamports((player.lamports + bet) as u64),
    )
}

/// What a call does to the accounts it is given, and what it answers.
///
/// The bytes of the call name the operation. An opening with a stake of zero
/// is turned down before any account is looked at. The accounts are taken by
/// their place: the game account first, the signer second; for an opening the
/// service account third; for a completion the payout account third. An
/// opening needs four accounts, every other operation three. A completion
/// whose payout account is not that of the side that wins is turned down with
/// `InvalidArgument`. A call that fails leaves the accounts as they were.
pub open spec fn process_spec(
    program_id: Pubkey,
    accounts: Seq<AccountView>,
    instruction_data: Seq<u8>,
    now: i64,
    rent_lamports: u64,
) -> (Result<(), ProgramError>, Seq<AccountView>) {
    match GameInstruction::spec_try_from_slice(instruction_data) {
        Err(e) => (Err(e), accounts),
        Ok(GameInstruction::CreateGame { bet_amount, choice }) => if bet_amount == 0 {
            (Err(custom(CoinFlipError::InvalidBetAmount)), accounts)
        } else if accounts.len() < 4 {
            (Err(ProgramError::NotEnoughAccountKeys), accounts)
        } else {
            match create_error(
                program_id,
                accounts[0],
                accounts[1],
                accounts[2],
                bet_amount,
                rent_lamports,
            ) {
                Some(e) => (Err(e), accounts),
                None => {
                    let after = create_effect(
                        accounts[0],
                        accounts[1],
                        accounts[2],
                        bet_amount,
                        choice,
                        now,
                        rent_lamports,
                    );
                    (Ok(()), accounts.update(0, after.0).update(1, after.1).update(2, after.2))
                },
            }
        },
        Ok(GameInstruction::JoinGame { game_id }) => if accounts.len() < 3 {
            (Err(ProgramError::NotEnoughAccountKeys), accounts)
        } else {
            match join_error(program_id, accounts[0], accounts[1], now) {
                Some(e) => (Err(e), accounts),
                None => {
                    let after = join_effect(program_id, accounts[0], accounts[1]);
                    (Ok(()), accounts.update(0, after.0).update(1, after.1))
                },
            }
        },
        Ok(GameInstruction::CompleteGame { game_id, seed, result }) => if accounts.len() < 3 {
            (Err(ProgramError::NotEnoughAccountKeys), accounts)
        } else {
            match complete_error(program_id, accounts[0], seed) {
                Some(e) => (Err(e), accounts),
                None => if !pays_winner(program_id, accounts[0], accounts[2], result) {
                    (Err(ProgramError::InvalidArgument), accounts)
                } else {
                    let after = complete_effect(program_id, accounts[0], accounts[2]);
                    (Ok(()), accounts.update(0, after.0).update(2, after.1))
                },
            }
        },
        Ok(GameInstruction::CancelGame { game_id }) => if accounts.len() < 3 {
            (Err(ProgramError::NotEnoughAccountKeys), accounts)
        } else {
            match cancel_error(program_id, accounts[0], accounts[1], now) {
                Some(e) => (Err(e), accounts),
                None => {
                    let after = cancel_effect(program_id, accounts[0], accounts[1]);
                    (Ok(()), accounts.update(0, after.0).update(1, after.1))
                },
            }
        },
    }
}

/// What a call that succeeds relies on: the balances of the accounts fit the
/// ledger's unit together, and the game account holds at least the stakes of
/// its game.
pub open spec fn sound_call(program_id: Pubkey, accounts: Seq<AccountView>) -> bool {
    &&& total_lamports(accounts) <= u64::MAX
    &&& accounts.len() > 0 ==> escrow_funded(program_id, accounts[0])
}

/// What is answered to a call on accounts that no ledger hands over: an
/// account is given twice, `InvalidArgument`; the balances do not fit the
/// ledger's unit together, `ArithmeticOverflow`; the game account holds less
/// than the stakes of its game, `InsufficientFunds`.
pub open spec fn unsound_call(program_id: Pubkey, accounts: Seq<AccountView>) -> Option<
    ProgramError,
> {
    if !spec_keys_differ(accounts) {
        Some(ProgramError::InvalidArgument)
    } else if total_lamports(accounts) > u64::MAX {
        Some(ProgramError::ArithmeticOverflow)
    } else if accounts.len() > 0 && !escrow_funded(program_id, accounts[0]) {
        Some(custom(CoinFlipError::InsufficientFunds))
    } else {
        None
    }
}

/// What a call does where nothing is known of the accounts: a call that the
/// rules of the game turn down is turned down as `process` does, bytes that
/// name no operation first; a call that they admit is performed where the
/// accounts are those of one ledger, and is else turned down with what
/// `unsound_call` gives.
pub open spec fn process_checked_spec(
    program_id: Pubkey,
    accounts: Seq<AccountView>,
    instruction_data: Seq<u8>,
    now: i64,
    rent_lamports: u64,
) -> (Result<(), ProgramError>, Seq<AccountView>) {
    let outcome = process_spec(program_id, accounts, instruction_data, now, rent_lamports);
    match outcome.0 {
        Err(e) => (Err(e), accounts),
        Ok(_) => match unsound_call(program_id, accounts) {
            Some(e) => (Err(e), accounts),
            None => outcome,
        },
    }
}

/// The state machine of the game.
pub struct Processor;

impl Processor {
    /// Performs the operation that `instruction_data` names on `accounts`, at
    /// the ledger's time `now`, with `rent_lamports` as the rent that a game
    /// account costs. Where the call succeeds, the accounts are those of one
    /// ledger: their balances fit its unit together, and the game account
    /// holds at least the stakes of its game, which no call of this function
    /// takes away. A call that is turned down asks nothing of the accounts.
    pub fn process(
        program_id: &Pubkey,
        accounts: &mut Vec<Account>,
        instruction_data: &[u8],
        now: i64,
        rent_lamports: u64,
    ) -> (done: Result<(), ProgramError>)
        requires
            process_spec(
                *program_id,
                views(old(accounts)@),
                instruction_data@,
                now,
                rent_lamports,
            ).0 is Ok ==> sound_call(*program_id, views(old(accounts)@)),
        ensures
            (done, views(final(accounts)@)) == process_spec(
                *program_id,
                views(old(accounts)@),
                instruction_data@,
                now,
                rent_lamports,
            ),
            done is Err ==> views(final(accounts)@) == views(old(accounts)@),
            final(accounts)@.len() == old(accounts)@.len(),
            total_lamports(views(final(accounts)@)) == total_lamports(views(old(accounts)@)),
            old(accounts)@.len() > 0 && escrow_funded(*program_id, old(accounts)@[0]@)
                ==> escrow_funded(*program_id, final(accounts)@[0]@),
    {
        let ghost before = views(accounts@);
        proof {
            lemma_process_conserves_total(
                *program_id,
                before,
                instruction_data@,
                now,
                rent_lamports,
            );
        }
        let instruction = GameInstruction::try_from_slice(instruction_data)?;
        let needed: usize = match instruction {
            GameInstruction::CreateGame { bet_amount, .. } => {
                if bet_amount == 0 {
                    return Err(ProgramError::from(CoinFlipError::InvalidBetAmount));
                }
                4
            },
            _ => 3,
        };
        if accounts.len() < needed {
            return Err(ProgramError::NotEnoughAccountKeys);
        }
        let mut game_account = accounts[0].duplicate();
        match instruction {
            GameInstruction::CreateGame { bet_amount, choice } => {
                let mut player = accounts[1].duplicate();
                let mut service_account = accounts[2].duplicate();
                proof {
                    lemma_total_covers_pair(before, 0, 1);
                }
                Self::process_create_game(
                    program_id,
                    &mut game_account,
                    &mut player,
                    &mut service_account,
                    bet_amount,
                    choice,
                    now,
                    rent_lamports,
                )?;
                accounts[1] = player;
                accounts[2] = service_account;
            },
            GameInstruction::JoinGame { game_id } => {
                let mut player = accounts[1].duplicate();
                proof {
                    lemma_total_covers_pair(before, 0, 1);
                }
                Self::process_join_game(program_id, &mut game_account, &mut player, game_id, now)?;
                accounts[1] = player;
            },
            GameInstruction::CompleteGame { game_id, seed, result } => {
                let mut winner_account = accounts[2].duplicate();
                proof {
                    lemma_total_covers_pair(before, 0, 2);
                }
                let record = Self::check_complete(program_id, &game_account, &seed)?;
                if !Self::is_winner(&record.game, &winner_account.key, result) {
                    return Err(ProgramError::InvalidArgument);
                }
                Self::process_complete_game(
                    program_id,
                    &mut game_account,
                    &mut winner_account,
                    game_id,
                    seed,
                    result,
                )?;
                accounts[2] = winner_account;
            },
            GameInstruction::CancelGame { game_id } => {
                let mut player = accounts[1].duplicate();
                proof {
                    lemma_total_covers_pair(before, 0, 1);
                }
                Self::process_cancel_game(
                    program_id,
                    &mut game_account,
                    &mut player,
                    game_id,
                    now,
                )?;
                accounts[1] = player;
            },
        }
        accounts[0] = game_account;
        assert(views(accounts@) =~= process_spec(
            *program_id,
            before,
            instruction_data@,
            now,
            rent_lamports,
        ).1);
        Ok(())
    }

    /// Performs the operation that `instruction_data` names on `accounts` as
    /// `process` does, for callers that know nothing of the accounts. What
    /// `process` turns down is turned down in the same way, bytes that name no
    /// operation before any account is looked at. A call that the rules of
    /// the game admit is then tested for what a successful call relies on.
    /// Where a test fails, nothing is changed.
    pub fn process_checked(
        program_id: &Pubkey,
        accounts: &mut Vec<Account>,
        instruction_data: &[u8],
        now: i64,
        rent_lamports: u64,
    ) -> (done: Result<(), ProgramError>)
        ensures
            (done, views(final(accounts)@)) == process_checked_spec(
                *program_id,
                views(old(accounts)@),
                instruction_data@,
                now,
                rent_lamports,
            ),
            done is Err ==> views(final(accounts)@) == views(old(accounts)@),
            final(accounts)@.len() == old(accounts)@.len(),
            total_lamports(views(final(accounts)@)) == total_lamports(views(old(accounts)@)),
    {
        proof {
            lemma_checked_call(
                *program_id,
                views(accounts@),
                instruction_data@,
                now,
                rent_lamports,
            );
        }
        Self::validate(program_id, accounts, instruction_data, now, rent_lamports)?;
        if !keys_differ(accounts) {
            return Err(ProgramError::InvalidArgument);
        }
        if !total_fits(accounts) {
            return Err(ProgramError::ArithmeticOverflow);
        }
        if accounts.len() > 0 && !Self::is_escrow_funded(program_id, &accounts[0]) {
            return Err(ProgramError::from(CoinFlipError::InsufficientFunds));
        }
        Self::process(program_id, accounts, instruction_data, now, rent_lamports)
    }

    /// Tells what `process` answers to the call, and changes nothing.
    pub fn validate(
        program_id: &Pubkey,
        accounts: &Vec<Account>,
        instruction_data: &[u8],
        now: i64,
        rent_lamports: u64,
    ) -> (answer: Result<(), ProgramError>)
        ensures
            answer == process_spec(
                *program_id,
                views(accounts@),
                instruction_data@,
                now,
                rent_lamports,
            ).0,
    {
        match GameInstruction::try_from_slice(instruction_data)? {
            GameInstruction::CreateGame { bet_amount, choice } => {
                if bet_amount == 0 {
                    return Err(ProgramError::from(CoinFlipError::InvalidBetAmount));
                }
                if accounts.len() < 4 {
                    return Err(ProgramError::NotEnoughAccountKeys);
                }
                Self::check_create(
                    program_id,
                    &accounts[0],
                    &accounts[1],
                    &accounts[2],
                    bet_amount,
                    rent_lamports,
                )?;
            },
            GameInstruction::JoinGame { game_id } => {
                if accounts.len() < 3 {
                    return Err(ProgramError::NotEnoughAccountKeys);
                }
                Self::check_join(program_id, &accounts[0], &accounts[1], now)?;
            },
            GameInstruction::CompleteGame { game_id, seed, result } => {
                if accounts.len() < 3 {
                    return Err(ProgramError::NotEnoughAccountKeys);
                }
                let record = Self::check_complete(program_id, &accounts[0], &seed)?;
                if !Self::is_winner(&record.game, &accounts[2].key, result) {
                    return Err(ProgramError::InvalidArgument);
                }
            },
            GameInstruction::CancelGame { game_id } => {
                if accounts.len() < 3 {
                    return Err(ProgramError::NotEnoughAccountKeys);
                }
                Self::check_cancel(program_id, &accounts[0], &accounts[1], now)?;
            },
        }
        Ok(())
    }

    /// Whether `key` is the side that wins `game` on `result`.
    pub fn is_winner(game: &Game, key: &Pubkey, result: bool) -> (wins: bool)
        ensures
            wins == (game.spec_winner(result) == Some(*key)),
    {
        match game.winner(result) {
            Some(winner) => winner == *key,
            None => false,
        }
    }

    /// Tells whether `player` can open a game in `game_account`, and hands
    /// back the record of the service where so.
    pub fn check_create(
        program_id: &Pubkey,
        game_account: &Account,
        player: &Account,
        service_account: &Account,
        bet_amount: u64,
        rent_lamports: u64,
    ) -> (service: Result<GameServiceAccount, ProgramError>)
        ensures
            match create_error(
                *program_id,
                game_account@,
                player@,
                service_account@,
                bet_amount,
                rent_lamports,
            ) {
                Some(e) => service == Err::<GameServiceAccount, ProgramError>(e),
                None => service == GameServiceAccount::spec_unpack(service_account@.data)
                    && service is Ok,
            },
    {
        if bet_amount == 0 {
            return Err(ProgramError::from(CoinFlipError::InvalidBetAmount));
        }
        if game_account.owner != *program_id {
            return Err(ProgramError::from(CoinFlipError::InvalidGameAccount));
        }
        if service_account.owner != *program_id {
            return Err(ProgramError::from(CoinFlipError::InvalidServiceAccount));
        }
        if player.lamports < bet_amount || player.lamports - bet_amount < rent_lamports {
            return Err(ProgramError::from(CoinFlipError::InsufficientFunds));
        }
        let service = GameServiceAccount::unpack(service_account.data.as_slice())?;
        let fresh = GameAccount::unpack_unchecked(game_account.data.as_slice())?;
        if fresh.is_initialized() {
            return Err(ProgramError::from(CoinFlipError::AlreadyInitialized));
        }
        if service.next_game_id == u64::MAX {
            return Err(ProgramError::ArithmeticOverflow);
        }
        Ok(service)
    }

    /// Tells whether `player` can join the game in `game_account` at `now`,
    /// and hands back the game where so.
    pub fn check_join(
        program_id: &Pubkey,
        game_account: &Account,
        player: &Account,
        now: i64,
    ) -> (record: Result<GameAccount, ProgramError>)
        ensures
            match join_error(*program_id, game_account@, player@, now) {
                Some(e) => record == Err::<GameAccount, ProgramError>(e),
                None => record == spec_load_game(*program_id, game_account@) && record is Ok,
            },
    {
        let record = Self::load_game(program_id, game_account)?;
        if record.game.state != GameState::Created {
            return Err(ProgramError::from(CoinFlipError::InvalidGameState));
        }
        if record.game.player1 == player.key {
            return Err(ProgramError::from(CoinFlipError::NotAuthorized));
        }
        if expired(record.game.created_at, now) {
            return Err(ProgramError::from(CoinFlipError::GameExpired));
        }
        if player.lamports < record.game.bet_amount {
            return Err(ProgramError::from(CoinFlipError::InsufficientFunds));
        }
        Ok(record)
    }

    /// Tells whether the game in `game_account` can be completed with `seed`,
    /// and hands back the game where it can.
    pub fn check_complete(
        program_id: &Pubkey,
        game_account: &Account,
        seed: &[u8; 32],
    ) -> (record: Result<GameAccount, ProgramError>)
        ensures
            match complete_error(*program_id, game_account@, *seed) {
                Some(e) => record == Err::<GameAccount, ProgramError>(e),
                None => record == spec_load_game(*program_id, game_account@) && record is Ok,
            },
    {
        let record = Self::load_game(program_id, game_account)?;
        if record.game.state != GameState::Joined {
            return Err(ProgramError::from(CoinFlipError::InvalidGameState));
        }
        if !no_commitment(&record.game.service_hash) && !bytes32_eq(
            &record.game.service_hash,
            seed,
        ) {
            return Err(ProgramError::from(CoinFlipError::InvalidServiceHash));
        }
        Ok(record)
    }

    /// Tells whether the game in `game_account` can be cancelled at `now` in
    /// favour of `player`, and hands back the game where so.
    pub fn check_cancel(
        program_id: &Pubkey,
        game_account: &Account,
        player: &Account,
        now: i64,
    ) -> (record: Result<GameAccount, ProgramError>)
        ensures
            match cancel_error(*program_id, game_account@, player@, now) {
                Some(e) => record == Err::<GameAccount, ProgramError>(e),
                None => record == spec_load_game(*program_id, game_account@) && record is Ok,
            },
    {
        let record = Self::load_game(program_id, game_account)?;
        if record.game.state != GameState::Created {
            return Err(ProgramError::from(CoinFlipError::InvalidGameState));
        }
        let is_creator = record.game.player1 == player.key;
        if !is_creator || !(player.is_signer || expired(record.game.created_at, now)) {
            return Err(ProgramError::from(CoinFlipError::NotAuthorized));
        }
        Ok(record)
    }

    /// Reads the game of a call from `account`.
    pub fn load_game(program_id: &Pubkey, account: &Account) -> (record: Result<
        GameAccount,
        ProgramError,
    >)
        ensures
            record == spec_load_game(*program_id, account@),
    {
        if account.owner != *program_id {
            return Err(ProgramError::from(CoinFlipError::InvalidGameAccount));
        }
        let record = GameAccount::unpack(account.data.as_slice())?;
        let joined = match record.game.state {
            GameState::Joined => true,
            GameState::Completed => true,
            _ => false,
        };
        if record.game.player2.is_some() != joined {
            return Err(ProgramError::InvalidAccountData);
        }
        Ok(record)
    }

    /// Whether `account`, where it holds a game, holds at least the stakes that
    /// the stage of the game prescribes: what a completion and a cancellation
    /// rely on.
    pub fn is_escrow_funded(program_id: &Pubkey, account: &Account) -> (funded: bool)
        ensures
            funded == escrow_funded(*program_id, account@),
    {
        match Self::load_game(program_id, account) {
            Ok(record) => match record.game.state {
                GameState::Created => account.lamports >= record.game.bet_amount,
                GameState::Joined => account.lamports / 2 >= record.game.bet_amount,
                _ => true,
            },
            Err(_) => true,
        }
    }

    /// Opens a game for `player` in the fresh `game_account`: moves rent and
    /// stake from the player into the account, writes the game under the
    /// service's next id, and advances the service's counter. Where the game
    /// can be opened, the two accounts are accounts of one ledger: their
    /// balances fit its unit together. A call that is turned down asks
    /// nothing of them.
    pub fn process_create_game(
        program_id: &Pubkey,
        game_account: &mut Account,
        player: &mut Account,
        service_account: &mut Account,
        bet_amount: u64,
        choice: bool,
        now: i64,
        rent_lamports: u64,
    ) -> (done: Result<(), ProgramError>)
        requires
            create_error(
                *program_id,
                old(game_account)@,
                old(player)@,
                old(service_account)@,
                bet_amount,
                rent_lamports,
            ) is None ==> old(game_account).lamports + old(player).lamports <= u64::MAX,
        ensures
            match create_error(
                *program_id,
                old(game_account)@,
                old(player)@,
                old(service_account)@,
                bet_amount,
                rent_lamports,
            ) {
                Some(e) => done == Err::<(), ProgramError>(e) && final(game_account)@ == old(
                    game_account,
                )@ && final(player)@ == old(player)@ && final(service_account)@ == old(
                    service_account,
                )@,
                None => done == Ok::<(), ProgramError>(()) && (
                    final(game_account)@,
                    final(player)@,
                    final(service_account)@,
                ) == create_effect(
                    old(game_account)@,
                    old(player)@,
                    old(service_account)@,
                    bet_amount,
                    choice,
                    now,
                    rent_lamports,
                ),
            },
            final(game_account).lamports + final(player).lamports == old(game_account).lamports
                + old(player).lamports,
            done is Ok ==> escrow_funded(*program_id, final(game_account)@),
    {
        proof {
            if create_error(
                *program_id,
                game_account@,
                player@,
                service_account@,
                bet_amount,
                rent_lamports,
            ) is None {
                lemma_create_outcome(
                    *program_id,
                    game_account@,
                    player@,
                    service_account@,
                    bet_amount,
                    choice,
                    now,
                    rent_lamports,
                );
            }
        }
        let mut service = Self::check_create(
            program_id,
            game_account,
            player,
            service_account,
            bet_amount,
            rent_lamports,
        )?;
        let game_id = service.next_game_id;
        match lock(player, game_account, rent_lamports) {
            Ok(()) => {},
            Err(e) => {
                return Err(ProgramError::from(e));
            },
        }
        match lock(player, game_account, bet_amount) {
            Ok(()) => {},
            Err(e) => {
                return Err(ProgramError::from(e));
            },
        }
        let record = GameAccount {
            is_initialized: true,
            game: Game {
                id: game_id,
                player1: player.key,
                player2: None,
                bet_amount,
                state: GameState::Created,
                created_at: now,
                service_hash: [0u8; 32],
                player1_choice: choice,
            },
        };
        service.next_game_id = game_id + 1;
        match GameAccount::pack(record, game_account.data.as_mut_slice()) {
            Ok(()) => {},
            Err(e) => {
                return Err(e);
            },
        }
        GameServiceAccount::pack(service, service_account.data.as_mut_slice())
    }

    /// Lets `player` join the game in `game_account`: locks the player's stake
    /// and moves the game to `Joined`. `game_id` is not looked at: the game is
    /// the one that the account holds. Where the player can join, the two
    /// accounts are accounts of one ledger: their balances fit its unit
    /// together. A call that is turned down asks nothing of them.
    pub fn process_join_game(
        program_id: &Pubkey,
        game_account: &mut Account,
        player: &mut Account,
        game_id: u64,
        now: i64,
    ) -> (done: Result<(), ProgramError>)
        requires
            join_error(*program_id, old(game_account)@, old(player)@, now) is None ==> old(
                game_account,
            ).lamports + old(player).lamports <= u64::MAX,
        ensures
            match join_error(*program_id, old(game_account)@, old(player)@, now) {
                Some(e) => done == Err::<(), ProgramError>(e) && final(game_account)@ == old(
                    game_account,
                )@ && final(player)@ == old(player)@,
                None => done == Ok::<(), ProgramError>(()) && (
                    final(game_account)@,
                    final(player)@,
                ) == join_effect(*program_id, old(game_account)@, old(player)@),
            },
            final(game_account).lamports + final(player).lamports == old(game_account).lamports
                + old(player).lamports,
            escrow_funded(*program_id, old(game_account)@) ==> escrow_funded(
                *program_id,
                final(game_account)@,
            ),
    {
        proof {
            if join_error(*program_id, game_account@, player@, now) is None {
                lemma_join_outcome(*program_id, game_account@, player@, now);
            }
        }
        let mut record = Self::check_join(program_id, game_account, player, now)?;
        match lock(player, game_account, record.game.bet_amount) {
            Ok(()) => {},
            Err(e) => {
                return Err(ProgramError::from(e));
            },
        }
        record.game.player2 = Some(player.key);
        record.game.state = GameState::Joined;
        GameAccount::pack(record, game_account.data.as_mut_slice())
    }

    /// Completes the game in `game_account` on the oracle's `result`: moves
    /// both stakes to `winner_account` and the game to `Completed`. `game_id`
    /// is not looked at. Where the game can be completed, three things are the
    /// caller's to see to: that `winner_account` is the account of the side
    /// that wins, which is what `Game::winner` gives; that the escrow holds
    /// the stakes; and that the balances of the two accounts fit the ledger's
    /// unit together. A call that is turned down asks nothing of them.
    pub fn process_complete_game(
        program_id: &Pubkey,
        game_account: &mut Account,
        winner_account: &mut Account,
        game_id: u64,
        seed: [u8; 32],
        result: bool,
    ) -> (done: Result<(), ProgramError>)
        requires
            complete_error(*program_id, old(game_account)@, seed) is None ==> {
                &&& old(game_account).lamports + old(winner_account).lamports <= u64::MAX
                &&& escrow_funded(*program_id, old(game_account)@)
                &&& pays_winner(
                    *program_id,
                    old(game_account)@,
                    old(winner_account)@,
                    result,
                )
            },
        ensures
            match complete_error(*program_id, old(game_account)@, seed) {
                Some(e) => done == Err::<(), ProgramError>(e) && final(game_account)@ == old(
                    game_account,
                )@ && final(winner_account)@ == old(winner_account)@,
                None => done == Ok::<(), ProgramError>(()) && (
                    final(game_account)@,
                    final(winner_account)@,
                ) == complete_effect(*program_id, old(game_account)@, old(winner_account)@),
            },
            final(game_account).lamports + final(winner_account).lamports == old(
                game_account,
            ).lamports + old(winner_account).lamports,
            escrow_funded(*program_id, old(game_account)@) ==> escrow_funded(
                *program_id,
                final(game_account)@,
            ),
    {
        proof {
            if complete_error(*program_id, game_account@, seed) is None {
                lemma_complete_outcome(*program_id, game_account@, winner_account@, seed);
            }
        }
        let mut record = Self::check_complete(program_id, game_account, &seed)?;
        let winnings = record.game.bet_amount * 2;
        pay(game_account, winner_account, winnings);
        record.game.state = GameState::Completed;
        GameAccount::pack(record, game_account.data.as_mut_slice())
    }

    /// Cancels the game in `game_account`: moves the stake back to `player`,
    /// the creator's account, and the game to `Cancelled`. The creator can
    /// cancel at any time; once the window has elapsed, the creator's signature
    /// is not needed. `game_id` is not looked at. Where the game can be
    /// cancelled, the escrow holds the stake and the balances of the two
    /// accounts fit the ledger's unit together. A call that is turned down
    /// asks nothing of them.
    pub fn process_cancel_game(
        program_id: &Pubkey,
        game_account: &mut Account,
        player: &mut Account,
        game_id: u64,
        now: i64,
    ) -> (done: Result<(), ProgramError>)
        requires
            cancel_error(*program_id, old(game_account)@, old(player)@, now) is None ==> {
                &&& old(game_account).lamports + old(player).lamports <= u64::MAX
                &&& escrow_funded(*program_id, old(game_account)@)
            },
        ensures
            match cancel_error(*program_id, old(game_account)@, old(player)@, now) {
                Some(e) => done == Err::<(), ProgramError>(e) && final(game_account)@ == old(
                    game_account,
                )@ && final(player)@ == old(player)@,
                None => done == Ok::<(), ProgramError>(()) && (
                    final(game_account)@,
                    final(player)@,
                ) == cancel_effect(*program_id, old(game_account)@, old(player)@),
            },
            final(game_account).lamports + final(player).lamports == old(game_account).lamports
                + old(player).lamports,
            escrow_funded(*program_id, old(game_account)@) ==> escrow_funded(
                *program_id,
                final(game_account)@,
            ),
    {
        proof {
            if cancel_error(*program_id, game_account@, player@, now) is None {
                lemma_cancel_outcome(*program_id, game_account@, player@, now);
            }
        }
        let mut record = Self::check_cancel(program_id, game_account, player, now)?;
        pay(game_account, player, record.game.bet_amount);
        record.game.state = GameState::Cancelled;
        GameAccount::pack(record, game_account.data.as_mut_slice())
    }
}

} // verus!
