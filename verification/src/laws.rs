//! What holds of each operation: what a successful one leaves behind, which
//! requests are always turned down, and that no call creates or destroys
//! value.

use crate::account::{
    lemma_total_covers_pair, lemma_total_update, spec_keys_differ, total_lamports, AccountView,
};
use crate::error::{CoinFlipError, ProgramError};
use crate::instruction::GameInstruction;
use crate::processor::{
    at_stage, cancel_effect, cancel_error, complete_effect, complete_error, create_effect,
    create_error, custom, escrow_funded, join_effect, join_error, joined, opened, pays_winner,
    process_checked_spec, process_spec, reserve, sound_call, spec_expired, spec_load_game,
    stored, unsound_call,
};
use crate::pubkey::Pubkey;
use crate::state::{GameAccount, GameServiceAccount, GameState};
use vstd::prelude::*;

verus! {

/// A program's account of the length of a game account, once an initialized
/// and well-formed record was written to it, holds that record.
pub proof fn lemma_load_stored(program_id: Pubkey, account: AccountView, record: GameAccount)
    requires
        account.owner == program_id,
        account.data.len() == GameAccount::LEN,
        record.is_initialized,
        record.game.well_formed(),
    ensures
        spec_load_game(program_id, stored(account, record)) == Ok::<GameAccount, ProgramError>(
            record,
        ),
        stored(account, record).data.len() == GameAccount::LEN,
{
    record.lemma_unpack_of_pack(account.data);
}

/// A game that can be loaded lies in an account of the program, of the length
/// of a game account, and is initialized and well-formed.
pub proof fn lemma_loaded(program_id: Pubkey, account: AccountView)
    requires
        spec_load_game(program_id, account) is Ok,
    ensures
        account.owner == program_id,
        account.data.len() == GameAccount::LEN,
        spec_load_game(program_id, account)->Ok_0.is_initialized,
        spec_load_game(program_id, account)->Ok_0.game.well_formed(),
{
}

/// After a successful opening the game account holds the new game, in
/// `Created`, under the number that the service held, and the service holds
/// the next number. Where the two balances fit the ledger's unit together,
/// rent and stake have left the player and reached the account, which holds
/// the rent beyond the stake.
pub proof fn lemma_create_outcome(
    program_id: Pubkey,
    game_account: AccountView,
    player: AccountView,
    service_account: AccountView,
    bet_amount: u64,
    choice: bool,
    now: i64,
    rent_lamports: u64,
)
    requires
        create_error(program_id, game_account, player, service_account, bet_amount, rent_lamports)
            is None,
    ensures
        ({
            let service = GameServiceAccount::spec_unpack(service_account.data)->Ok_0;
            let after = create_effect(
                game_account,
                player,
                service_account,
                bet_amount,
                choice,
                now,
                rent_lamports,
            );
            &&& spec_load_game(program_id, game_account) is Err
            &&& spec_load_game(program_id, after.0) == Ok::<GameAccount, ProgramError>(
                GameAccount {
                    is_initialized: true,
                    game: opened(service.next_game_id, player.key, bet_amount, choice, now),
                },
            )
            &&& GameServiceAccount::spec_unpack(after.2.data) == Ok::<
                GameServiceAccount,
                ProgramError,
            >(GameServiceAccount { next_game_id: (service.next_game_id + 1) as u64, ..service })
            &&& service.next_game_id + 1 <= u64::MAX
            &&& after.2.lamports == service_account.lamports
            &&& game_account.lamports + player.lamports <= u64::MAX ==> {
                &&& after.0.lamports == game_account.lamports + rent_lamports + bet_amount
                &&& after.1.lamports == player.lamports - rent_lamports - bet_amount
                &&& reserve(program_id, after.0) == game_account.lamports + rent_lamports
                &&& escrow_funded(program_id, after.0)
            }
        }),
{
    let service = GameServiceAccount::spec_unpack(service_account.data)->Ok_0;
    let next = GameServiceAccount { next_game_id: (service.next_game_id + 1) as u64, ..service };
    lemma_load_stored(
        program_id,
        game_account.with_lamports((game_account.lamports + rent_lamports + bet_amount) as u64),
        GameAccount {
            is_initialized: true,
            game: opened(service.next_game_id, player.key, bet_amount, choice, now),
        },
    );
    next.lemma_unpack_of_pack(service_account.data);
}

/// After a successful join the account holds the same game with the second
/// player set and in `Joined`. Where the two balances fit the ledger's unit
/// together, the stake has left the player and reached the account, whose
/// holdings beyond the stakes are as before.
pub proof fn lemma_join_outcome(
    program_id: Pubkey,
    game_account: AccountView,
    player: AccountView,
    now: i64,
)
    requires
        join_error(program_id, game_account, player, now) is None,
    ensures
        ({
            let before = spec_load_game(program_id, game_account)->Ok_0;
            let after = join_effect(program_id, game_account, player);
            &&& before.game.state == GameState::Created
            &&& spec_load_game(program_id, after.0) == Ok::<GameAccount, ProgramError>(
                GameAccount { game: joined(before.game, player.key), ..before },
            )
            &&& game_account.lamports + player.lamports <= u64::MAX ==> {
                &&& after.0.lamports == game_account.lamports + before.game.bet_amount
                &&& after.1.lamports == player.lamports - before.game.bet_amount
                &&& reserve(program_id, after.0) == reserve(program_id, game_account)
                &&& escrow_funded(program_id, game_account) ==> escrow_funded(
                    program_id,
                    after.0,
                )
            }
        }),
{
    let before = spec_load_game(program_id, game_account)->Ok_0;
    let bet = before.game.bet_amount;
    lemma_load_stored(
        program_id,
        game_account.with_lamports((game_account.lamports + bet) as u64),
        GameAccount { game: joined(before.game, player.key), ..before },
    );
}

/// After a successful completion the account holds the same game in
/// `Completed`. Where the escrow was funded and the two balances fit the
/// ledger's unit together, both stakes have left the account and reached the
/// payout account, and the account's holdings beyond the stakes are as
/// before.
pub proof fn lemma_complete_outcome(
    program_id: Pubkey,
    game_account: AccountView,
    winner_account: AccountView,
    seed: [u8; 32],
)
    requires
        complete_error(program_id, game_account, seed) is None,
    ensures
        ({
            let before = spec_load_game(program_id, game_account)->Ok_0;
            let after = complete_effect(program_id, game_account, winner_account);
            &&& before.game.state == GameState::Joined
            &&& spec_load_game(program_id, after.0) == Ok::<GameAccount, ProgramError>(
                GameAccount { game: at_stage(before.game, GameState::Completed), ..before },
            )
            &&& escrow_funded(program_id, game_account) && game_account.lamports
                + winner_account.lamports <= u64::MAX ==> {
                &&& after.0.lamports == game_account.lamports - 2 * before.game.bet_amount
                &&& after.1.lamports == winner_account.lamports + 2 * before.game.bet_amount
                &&& reserve(program_id, after.0) == reserve(program_id, game_account)
                &&& escrow_funded(program_id, after.0)
            }
        }),
{
    let before = spec_load_game(program_id, game_account)->Ok_0;
    lemma_load_stored(
        program_id,
        game_account.with_lamports((game_account.lamports - 2 * before.game.bet_amount) as u64),
        GameAccount { game: at_stage(before.game, GameState::Completed), ..before },
    );
}

/// After a successful cancellation the account holds the same game in
/// `Cancelled`, and the account that was given is the creator's. Where the
/// escrow was funded and the two balances fit the ledger's unit together, the
/// stake has left the account and reached the creator's account, and the
/// account's holdings beyond the stakes are as before.
pub proof fn lemma_cancel_outcome(
    program_id: Pubkey,
    game_account: AccountView,
    player: AccountView,
    now: i64,
)
    requires
        cancel_error(program_id, game_account, player, now) is None,
    ensures
        ({
            let before = spec_load_game(program_id, game_account)->Ok_0;
            let after = cancel_effect(program_id, game_account, player);
            &&& before.game.state == GameState::Created
            &&& spec_load_game(program_id, after.0) == Ok::<GameAccount, ProgramError>(
                GameAccount { game: at_stage(before.game, GameState::Cancelled), ..before },
            )
            &&& player.key == before.game.player1
            &&& escrow_funded(program_id, game_account) && game_account.lamports
                + player.lamports <= u64::MAX ==> {
                &&& after.0.lamports == game_account.lamports - before.game.bet_amount
                &&& after.1.lamports == player.lamports + before.game.bet_amount
                &&& reserve(program_id, after.0) == reserve(program_id, game_account)
                &&& escrow_funded(program_id, after.0)
            }
        }),
{
    let before = spec_load_game(program_id, game_account)->Ok_0;
    lemma_load_stored(
        program_id,
        game_account.with_lamports((game_account.lamports - before.game.bet_amount) as u64),
        GameAccount { game: at_stage(before.game, GameState::Cancelled), ..before },
    );
}

/// An opening with a stake of zero is turned down with `InvalidBetAmount`,
/// whatever the accounts hold.
pub proof fn lemma_zero_bet_rejected(
    program_id: Pubkey,
    game_account: AccountView,
    player: AccountView,
    service_account: AccountView,
    rent_lamports: u64,
)
    ensures
        create_error(program_id, game_account, player, service_account, 0, rent_lamports) == Some(
            custom(CoinFlipError::InvalidBetAmount),
        ),
{
}

/// A call that opens a game with a stake of zero is turned down with
/// `InvalidBetAmount` and leaves every account as it was, whatever accounts
/// it names and however many; so is it through the checked entry.
pub proof fn lemma_zero_bet_call_rejected(
    program_id: Pubkey,
    accounts: Seq<AccountView>,
    choice: bool,
    now: i64,
    rent_lamports: u64,
)
    ensures
        process_spec(
            program_id,
            accounts,
            (GameInstruction::CreateGame { bet_amount: 0, choice }).spec_bytes(),
            now,
            rent_lamports,
        ) == (Err::<(), ProgramError>(custom(CoinFlipError::InvalidBetAmount)), accounts),
        process_checked_spec(
            program_id,
            accounts,
            (GameInstruction::CreateGame { bet_amount: 0, choice }).spec_bytes(),
            now,
            rent_lamports,
        ) == (Err::<(), ProgramError>(custom(CoinFlipError::InvalidBetAmount)), accounts),
{
    (GameInstruction::CreateGame { bet_amount: 0, choice }).lemma_try_from_slice_of_bytes();
}

/// The creator never joins the own game: on a game in `Created` the
/// creator's attempt is turned down with `NotAuthorized`, at any time and
/// whatever the creator holds. Anyone else's attempt is turned down with
/// `GameExpired` once the window has elapsed.
pub proof fn lemma_join_rejected(
    program_id: Pubkey,
    game_account: AccountView,
    player: AccountView,
    now: i64,
)
    requires
        spec_load_game(program_id, game_account) matches Ok(record) && record.game.state
            == GameState::Created,
    ensures
        ({
            let game = spec_load_game(program_id, game_account)->Ok_0.game;
            &&& player.key == game.player1 ==> join_error(program_id, game_account, player, now)
                == Some(custom(CoinFlipError::NotAuthorized))
            &&& player.key != game.player1 && spec_expired(game.created_at, now) ==> join_error(
                program_id,
                game_account,
                player,
                now,
            ) == Some(custom(CoinFlipError::GameExpired))
        }),
{
}

/// A completion pays both stakes to the side that the result names: to the
/// creator where the result is the creator's prediction, else to the player
/// who joined. Either way the game is then in `Completed`, with nothing else
/// of it changed, and the escrow holds nothing of the stakes.
pub proof fn lemma_complete_pays_winner(
    program_id: Pubkey,
    game_account: AccountView,
    winner_account: AccountView,
    seed: [u8; 32],
    result: bool,
)
    requires
        complete_error(program_id, game_account, seed) is None,
        escrow_funded(program_id, game_account),
        game_account.lamports + winner_account.lamports <= u64::MAX,
        pays_winner(program_id, game_account, winner_account, result),
    ensures
        ({
            let before = spec_load_game(program_id, game_account)->Ok_0;
            let game = before.game;
            let after = complete_effect(program_id, game_account, winner_account);
            &&& result == game.player1_choice ==> after.1.key == game.player1
            &&& result != game.player1_choice ==> game.player2 == Some(after.1.key)
            &&& after.1.lamports == winner_account.lamports + 2 * game.bet_amount
            &&& after.0.lamports == game_account.lamports - 2 * game.bet_amount
            &&& spec_load_game(program_id, after.0) == Ok::<GameAccount, ProgramError>(
                GameAccount { game: at_stage(game, GameState::Completed), ..before },
            )
            &&& at_stage(game, GameState::Completed).escrow_due() == 0
            &&& reserve(program_id, after.0) == reserve(program_id, game_account)
        }),
{
    lemma_complete_outcome(program_id, game_account, winner_account, seed);
}

/// A call that completes a game pays the account of the side that the
/// result names, and no other: the creator's where the result is the
/// creator's prediction, else that of the player who joined. The game is then
/// in `Completed` and the escrow holds nothing of the stakes. Where the
/// accounts are those of one ledger, both stakes have moved from the game
/// account to that account.
pub proof fn lemma_complete_call_pays_winner(
    program_id: Pubkey,
    accounts: Seq<AccountView>,
    game_id: u64,
    seed: [u8; 32],
    result: bool,
    now: i64,
    rent_lamports: u64,
)
    requires
        process_spec(
            program_id,
            accounts,
            (GameInstruction::CompleteGame { game_id, seed, result }).spec_bytes(),
            now,
            rent_lamports,
        ).0 is Ok,
    ensures
        ({
            let after = process_spec(
                program_id,
                accounts,
                (GameInstruction::CompleteGame { game_id, seed, result }).spec_bytes(),
                now,
                rent_lamports,
            ).1;
            let game = spec_load_game(program_id, accounts[0])->Ok_0.game;
            let stored_game = spec_load_game(program_id, after[0])->Ok_0.game;
            &&& accounts.len() >= 3
            &&& spec_load_game(program_id, accounts[0]) is Ok
            &&& result == game.player1_choice ==> accounts[2].key == game.player1
            &&& result != game.player1_choice ==> game.player2 == Some(accounts[2].key)
            &&& after[1] == accounts[1]
            &&& spec_load_game(program_id, after[0]) is Ok
            &&& stored_game == at_stage(game, GameState::Completed)
            &&& stored_game.escrow_due() == 0
            &&& sound_call(program_id, accounts) ==> {
                &&& after[2].lamports == accounts[2].lamports + 2 * game.bet_amount
                &&& after[0].lamports == accounts[0].lamports - 2 * game.bet_amount
            }
        }),
{
    (GameInstruction::CompleteGame { game_id, seed, result }).lemma_try_from_slice_of_bytes();
    lemma_complete_outcome(program_id, accounts[0], accounts[2], seed);
    if sound_call(program_id, accounts) {
        lemma_total_covers_pair(accounts, 0, 2);
    }
}

/// A game in `Completed` or `Cancelled` takes no further operation: a join, a
/// completion and a cancellation are each turned down with
/// `InvalidGameState`.
pub proof fn lemma_terminal_rejects(
    program_id: Pubkey,
    game_account: AccountView,
    player: AccountView,
    seed: [u8; 32],
    now: i64,
)
    requires
        spec_load_game(program_id, game_account) matches Ok(record)
            && record.game.state.is_terminal(),
    ensures
        join_error(program_id, game_account, player, now) == Some(
            custom(CoinFlipError::InvalidGameState),
        ),
        complete_error(program_id, game_account, seed) == Some(
            custom(CoinFlipError::InvalidGameState),
        ),
        cancel_error(program_id, game_account, player, now) == Some(
            custom(CoinFlipError::InvalidGameState),
        ),
{
}

/// A call that completes or cancels a game in `Completed` or `Cancelled` is
/// turned down with `InvalidGameState` and leaves every account as it was; so
/// is it through the checked entry, whatever the accounts are.
pub proof fn lemma_finished_game_call_rejected(
    program_id: Pubkey,
    accounts: Seq<AccountView>,
    game_id: u64,
    seed: [u8; 32],
    result: bool,
    now: i64,
    rent_lamports: u64,
)
    requires
        accounts.len() >= 3,
        spec_load_game(program_id, accounts[0]) matches Ok(record)
            && record.game.state.is_terminal(),
    ensures
        process_spec(
            program_id,
            accounts,
            (GameInstruction::CompleteGame { game_id, seed, result }).spec_bytes(),
            now,
            rent_lamports,
        ) == (Err::<(), ProgramError>(custom(CoinFlipError::InvalidGameState)), accounts),
        process_spec(
            program_id,
            accounts,
            (GameInstruction::CancelGame { game_id }).spec_bytes(),
            now,
            rent_lamports,
        ) == (Err::<(), ProgramError>(custom(CoinFlipError::InvalidGameState)), accounts),
        process_checked_spec(
            program_id,
            accounts,
            (GameInstruction::CompleteGame { game_id, seed, result }).spec_bytes(),
            now,
            rent_lamports,
        ) == (Err::<(), ProgramError>(custom(CoinFlipError::InvalidGameState)), accounts),
        process_checked_spec(
            program_id,
            accounts,
            (GameInstruction::CancelGame { game_id }).spec_bytes(),
            now,
            rent_lamports,
        ) == (Err::<(), ProgramError>(custom(CoinFlipError::InvalidGameState)), accounts),
{
    (GameInstruction::CompleteGame { game_id, seed, result }).lemma_try_from_slice_of_bytes();
    (GameInstruction::CancelGame { game_id }).lemma_try_from_slice_of_bytes();
}

/// A game in `Created` is cancelled by its creator at any time, and without
/// the creator's signature once its window has elapsed; the stake goes to the
/// creator's account either way.
pub proof fn lemma_cancel_allowed(
    program_id: Pubkey,
    game_account: AccountView,
    player: AccountView,
    now: i64,
)
    requires
        spec_load_game(program_id, game_account) matches Ok(record) && record.game.state
            == GameState::Created && player.key == record.game.player1,
    ensures
        ({
            let game = spec_load_game(program_id, game_account)->Ok_0.game;
            &&& player.is_signer || spec_expired(game.created_at, now) ==> cancel_error(
                program_id,
                game_account,
                player,
                now,
            ) is None
            &&& !player.is_signer && !spec_expired(game.created_at, now) ==> cancel_error(
                program_id,
                game_account,
                player,
                now,
            ) == Some(custom(CoinFlipError::NotAuthorized))
        }),
{
}

/// No two games get the same number: of two openings that succeed one after
/// the other on one service account, the first game gets the number that the
/// service held and the second the number after it.
pub proof fn lemma_ids_are_allotted_once(
    program_id: Pubkey,
    service_account: AccountView,
    first_game: AccountView,
    first_player: AccountView,
    first_bet: u64,
    first_choice: bool,
    first_now: i64,
    second_game: AccountView,
    second_player: AccountView,
    second_bet: u64,
    second_choice: bool,
    second_now: i64,
    rent_lamports: u64,
)
    requires
        create_error(
            program_id,
            first_game,
            first_player,
            service_account,
            first_bet,
            rent_lamports,
        ) is None,
        create_error(
            program_id,
            second_game,
            second_player,
            create_effect(
                first_game,
                first_player,
                service_account,
                first_bet,
                first_choice,
                first_now,
                rent_lamports,
            ).2,
            second_bet,
            rent_lamports,
        ) is None,
    ensures
        ({
            let counter = GameServiceAccount::spec_unpack(service_account.data)->Ok_0.next_game_id;
            let first = create_effect(
                first_game,
                first_player,
                service_account,
                first_bet,
                first_choice,
                first_now,
                rent_lamports,
            );
            let second = create_effect(
                second_game,
                second_player,
                first.2,
                second_bet,
                second_choice,
                second_now,
                rent_lamports,
            );
            &&& spec_load_game(program_id, first.0) is Ok
            &&& spec_load_game(program_id, second.0) is Ok
            &&& spec_load_game(program_id, first.0)->Ok_0.game.id == counter
            &&& spec_load_game(program_id, second.0)->Ok_0.game.id == counter + 1
            &&& spec_load_game(program_id, first.0)->Ok_0.game.id != spec_load_game(
                program_id,
                second.0,
            )->Ok_0.game.id
            &&& GameServiceAccount::spec_unpack(second.2.data)->Ok_0.next_game_id == counter + 2
        }),
{
    lemma_create_outcome(
        program_id,
        first_game,
        first_player,
        service_account,
        first_bet,
        first_choice,
        first_now,
        rent_lamports,
    );
    let first = create_effect(
        first_game,
        first_player,
        service_account,
        first_bet,
        first_choice,
        first_now,
        rent_lamports,
    );
    lemma_create_outcome(
        program_id,
        second_game,
        second_player,
        first.2,
        second_bet,
        second_choice,
        second_now,
        rent_lamports,
    );
}

/// No call creates or destroys value: whatever the call and however it ends,
/// the accounts it was given are as many as before and hold together what
/// they held, and a game account that held at least the stakes of its game
/// still does. Only of a call that succeeds is it asked that the accounts are
/// those of one ledger.
pub proof fn lemma_process_conserves_total(
    program_id: Pubkey,
    accounts: Seq<AccountView>,
    instruction_data: Seq<u8>,
    now: i64,
    rent_lamports: u64,
)
    requires
        process_spec(program_id, accounts, instruction_data, now, rent_lamports).0 is Ok
            ==> sound_call(program_id, accounts),
    ensures
        ({
            let after = process_spec(program_id, accounts, instruction_data, now, rent_lamports).1;
            &&& after.len() == accounts.len()
            &&& total_lamports(after) == total_lamports(accounts)
            &&& accounts.len() > 0 && escrow_funded(program_id, accounts[0]) ==> escrow_funded(
                program_id,
                after[0],
            )
        }),
{
    let outcome = process_spec(program_id, accounts, instruction_data, now, rent_lamports);
    if outcome.0 is Ok {
        match GameInstruction::spec_try_from_slice(instruction_data)->Ok_0 {
            GameInstruction::CreateGame { bet_amount, choice } => {
                lemma_total_covers_pair(accounts, 0, 1);
                lemma_create_outcome(
                    program_id,
                    accounts[0],
                    accounts[1],
                    accounts[2],
                    bet_amount,
                    choice,
                    now,
                    rent_lamports,
                );
                let after = create_effect(
                    accounts[0],
                    accounts[1],
                    accounts[2],
                    bet_amount,
                    choice,
                    now,
                    rent_lamports,
                );
                lemma_total_update(accounts, 0, after.0);
                lemma_total_update(accounts.update(0, after.0), 1, after.1);
                lemma_total_update(accounts.update(0, after.0).update(1, after.1), 2, after.2);
            },
            GameInstruction::JoinGame { game_id } => {
                lemma_total_covers_pair(accounts, 0, 1);
                lemma_join_outcome(program_id, accounts[0], accounts[1], now);
                let after = join_effect(program_id, accounts[0], accounts[1]);
                lemma_total_update(accounts, 0, after.0);
                lemma_total_update(accounts.update(0, after.0), 1, after.1);
            },
            GameInstruction::CompleteGame { game_id, seed, result } => {
                lemma_total_covers_pair(accounts, 0, 2);
                lemma_complete_outcome(program_id, accounts[0], accounts[2], seed);
                let after = complete_effect(program_id, accounts[0], accounts[2]);
                lemma_total_update(accounts, 0, after.0);
                lemma_total_update(accounts.update(0, after.0), 2, after.1);
            },
            GameInstruction::CancelGame { game_id } => {
                lemma_total_covers_pair(accounts, 0, 1);
                lemma_cancel_outcome(program_id, accounts[0], accounts[1], now);
                let after = cancel_effect(program_id, accounts[0], accounts[1]);
                lemma_total_update(accounts, 0, after.0);
                lemma_total_update(accounts.update(0, after.0), 1, after.1);
            },
        }
    }
}

/// A call through the checked entry creates or destroys no value either,
/// whatever the accounts are. What `process` turns down it turns down with
/// the same answer; and where it succeeds, each account was given once, the
/// accounts were those of one ledger, and the call did what `process` does.
pub proof fn lemma_checked_call(
    program_id: Pubkey,
    accounts: Seq<AccountView>,
    instruction_data: Seq<u8>,
    now: i64,
    rent_lamports: u64,
)
    ensures
        ({
            let outcome = process_checked_spec(
                program_id,
                accounts,
                instruction_data,
                now,
                rent_lamports,
            );
            &&& outcome.1.len() == accounts.len()
            &&& total_lamports(outcome.1) == total_lamports(accounts)
            &&& outcome.0 is Err ==> outcome.1 == accounts
            &&& process_spec(program_id, accounts, instruction_data, now, rent_lamports).0 is Err
                ==> outcome == process_spec(
                program_id,
                accounts,
                instruction_data,
                now,
                rent_lamports,
            )
            &&& outcome.0 is Ok ==> {
                &&& spec_keys_differ(accounts)
                &&& sound_call(program_id, accounts)
                &&& outcome == process_spec(
                    program_id,
                    accounts,
                    instruction_data,
                    now,
                    rent_lamports,
                )
            }
        }),
{
    if unsound_call(program_id, accounts) is None {
        lemma_process_conserves_total(program_id, accounts, instruction_data, now, rent_lamports);
    }
}

} // verus!
