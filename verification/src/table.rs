//! One game and its two players: the books of the three of them over every
//! sequence of successful calls, and the edges that the game moves along.

use crate::account::AccountView;
use crate::laws::{
    lemma_cancel_outcome, lemma_complete_outcome, lemma_create_outcome, lemma_join_outcome,
};
use crate::processor::{
    cancel_effect, cancel_error, complete_effect, complete_error, create_effect, create_error,
    escrow_funded, join_effect, join_error, reserve, spec_load_game,
};
use crate::pubkey::Pubkey;
use crate::state::GameState;
use vstd::prelude::*;

verus! {

/// The accounts around one game: the account that holds it, the service
/// account, and the accounts of the two players.
pub ghost struct Table {
    pub game_account: AccountView,
    pub service_account: AccountView,
    pub player1: AccountView,
    pub player2: AccountView,
}

/// A call on the game of a table: an opening by the first player, a join by
/// the second, a completion that pays the account of the side that the result
/// names, or a cancellation that refunds the first player, signed by that
/// player or not.
pub ghost enum Call {
    Create { bet_amount: u64, choice: bool, now: i64, rent_lamports: u64 },
    Join { now: i64 },
    Complete { seed: [u8; 32], result: bool },
    Cancel { now: i64, signed: bool },
}

/// What the escrow holds of the stakes of the game in `account`; nothing
/// where the account holds no game.
pub open spec fn escrow_balance(program_id: Pubkey, account: AccountView) -> int {
    match spec_load_game(program_id, account) {
        Ok(record) => record.game.escrow_due(),
        Err(_) => 0,
    }
}

/// The books of a table: what the two players hold and what the escrow holds
/// of their stakes.
pub open spec fn books(program_id: Pubkey, table: Table) -> int {
    table.player1.lamports + table.player2.lamports + escrow_balance(
        program_id,
        table.game_account,
    )
}

/// Whether a table can stand on a ledger: its balances together fit the
/// ledger's unit, the game account holds at least the stakes of its game, and
/// the players of the game are the players at the table.
pub open spec fn sound(program_id: Pubkey, table: Table) -> bool {
    &&& table.game_account.lamports + table.player1.lamports + table.player2.lamports
        <= u64::MAX
    &&& escrow_funded(program_id, table.game_account)
    &&& spec_load_game(program_id, table.game_account) matches Ok(record) ==> {
        &&& record.game.player1 == table.player1.key
        &&& record.game.player2 matches Some(key) ==> key == table.player2.key
    }
}

/// The table after a call that succeeds; `None` where the call is turned
/// down.
pub open spec fn step(program_id: Pubkey, table: Table, call: Call) -> Option<Table> {
    match call {
        Call::Create { bet_amount, choice, now, rent_lamports } => {
            if create_error(
                program_id,
                table.game_account,
                table.player1,
                table.service_account,
                bet_amount,
                rent_lamports,
            ) is None {
                let after = create_effect(
                    table.game_account,
                    table.player1,
                    table.service_account,
                    bet_amount,
                    choice,
                    now,
                    rent_lamports,
                );
                Some(
                    Table {
                        game_account: after.0,
                        player1: after.1,
                        service_account: after.2,
                        ..table
                    },
                )
            } else {
                None
            }
        },
        Call::Join { now } => {
            if join_error(program_id, table.game_account, table.player2, now) is None {
                let after = join_effect(program_id, table.game_account, table.player2);
                Some(Table { game_account: after.0, player2: after.1, ..table })
            } else {
                None
            }
        },
        Call::Complete { seed, result } => {
            if complete_error(program_id, table.game_account, seed) is None {
                let game = spec_load_game(program_id, table.game_account)->Ok_0.game;
                if result == game.player1_choice {
                    let after = complete_effect(program_id, table.game_account, table.player1);
                    Some(Table { game_account: after.0, player1: after.1, ..table })
                } else {
                    let after = complete_effect(program_id, table.game_account, table.player2);
                    Some(Table { game_account: after.0, player2: after.1, ..table })
                }
            } else {
                None
            }
        },
        Call::Cancel { now, signed } => {
            let player = AccountView { is_signer: signed, ..table.player1 };
            if cancel_error(program_id, table.game_account, player, now) is None {
                let after = cancel_effect(program_id, table.game_account, player);
                Some(Table { game_account: after.0, player1: after.1, ..table })
            } else {
                None
            }
        },
    }
}

/// The rent that a call allots: that of an opening, nothing for any other
/// call.
pub open spec fn rent_of(call: Call) -> int {
    match call {
        Call::Create { rent_lamports, .. } => rent_lamports as int,
        _ => 0,
    }
}

/// The table after a sequence of calls that all succeed; `None` where one of
/// them is turned down.
pub open spec fn run(program_id: Pubkey, table: Table, calls: Seq<Call>) -> Option<Table>
    decreases calls.len(),
{
    if calls.len() == 0 {
        Some(table)
    } else {
        match step(program_id, table, calls[0]) {
            Some(next) => run(program_id, next, calls.drop_first()),
            None => None,
        }
    }
}

/// The rent that the calls of a sequence allot together.
pub open spec fn rent_paid(calls: Seq<Call>) -> int
    decreases calls.len(),
{
    if calls.len() == 0 {
        0
    } else {
        rent_of(calls[0]) + rent_paid(calls.drop_first())
    }
}

/// A successful call keeps a sound table sound, leaves the sum of the three
/// balances as it was, and changes the books by nothing but the rent that an
/// opening allots: the rent is then what the game account holds beyond the
/// stakes, so that the escrow holds of the stakes exactly what the stage of
/// the game prescribes.
pub proof fn lemma_step_conserves(program_id: Pubkey, table: Table, call: Call)
    requires
        sound(program_id, table),
        step(program_id, table, call) is Some,
    ensures
        ({
            let after = step(program_id, table, call)->Some_0;
            &&& sound(program_id, after)
            &&& spec_load_game(program_id, after.game_account) is Ok
            &&& after.game_account.lamports + after.player1.lamports + after.player2.lamports
                == table.game_account.lamports + table.player1.lamports
                + table.player2.lamports
            &&& books(program_id, after) + rent_of(call) == books(program_id, table)
            &&& reserve(program_id, after.game_account) == reserve(
                program_id,
                table.game_account,
            ) + rent_of(call)
            &&& after.player1.key == table.player1.key
            &&& after.player2.key == table.player2.key
        }),
{
    match call {
        Call::Create { bet_amount, choice, now, rent_lamports } => {
            lemma_create_outcome(
                program_id,
                table.game_account,
                table.player1,
                table.service_account,
                bet_amount,
                choice,
                now,
                rent_lamports,
            );
        },
        Call::Join { now } => {
            lemma_join_outcome(program_id, table.game_account, table.player2, now);
        },
        Call::Complete { seed, result } => {
            let game = spec_load_game(program_id, table.game_account)->Ok_0.game;
            if result == game.player1_choice {
                lemma_complete_outcome(program_id, table.game_account, table.player1, seed);
            } else {
                lemma_complete_outcome(program_id, table.game_account, table.player2, seed);
            }
        },
        Call::Cancel { now, signed } => {
            let player = AccountView { is_signer: signed, ..table.player1 };
            lemma_cancel_outcome(program_id, table.game_account, player, now);
        },
    }
}

/// Conservation: over every sequence of successful calls on one game, the sum
/// of what the two players hold and what the escrow holds of their stakes
/// changes by nothing but the rent allotted at the opening, which stays in the
/// game account beyond the stakes; the balances of the two players and of the
/// game account together do not change at all.
pub proof fn lemma_conservation(program_id: Pubkey, table: Table, calls: Seq<Call>)
    requires
        sound(program_id, table),
        run(program_id, table, calls) is Some,
    ensures
        ({
            let after = run(program_id, table, calls)->Some_0;
            &&& sound(program_id, after)
            &&& books(program_id, after) + rent_paid(calls) == books(program_id, table)
            &&& reserve(program_id, after.game_account) == reserve(
                program_id,
                table.game_account,
            ) + rent_paid(calls)
            &&& after.game_account.lamports + after.player1.lamports + after.player2.lamports
                == table.game_account.lamports + table.player1.lamports
                + table.player2.lamports
        }),
    decreases calls.len(),
{
    if calls.len() > 0 {
        lemma_step_conserves(program_id, table, calls[0]);
        let next = step(program_id, table, calls[0])->Some_0;
        lemma_conservation(program_id, next, calls.drop_first());
    }
}

/// Rent is allotted once: among successful calls on one game only the first
/// can be an opening.
pub proof fn lemma_opening_comes_first(program_id: Pubkey, table: Table, calls: Seq<Call>, i: int)
    requires
        sound(program_id, table),
        run(program_id, table, calls) is Some,
        0 < i < calls.len(),
    ensures
        !(calls[i] is Create),
    decreases calls.len(),
{
    lemma_step_conserves(program_id, table, calls[0]);
    let next = step(program_id, table, calls[0])->Some_0;
    lemma_opening_after_any(program_id, next, calls.drop_first(), i - 1);
}

/// Once the account holds a game, no later call of a successful sequence is
/// an opening.
pub proof fn lemma_opening_after_any(program_id: Pubkey, table: Table, calls: Seq<Call>, i: int)
    requires
        sound(program_id, table),
        spec_load_game(program_id, table.game_account) is Ok,
        run(program_id, table, calls) is Some,
        0 <= i < calls.len(),
    ensures
        !(calls[i] is Create),
    decreases calls.len(),
{
    if i > 0 {
        lemma_step_conserves(program_id, table, calls[0]);
        let next = step(program_id, table, calls[0])->Some_0;
        lemma_opening_after_any(program_id, next, calls.drop_first(), i - 1);
    }
}

/// Whether a game goes from the stage `from` to the stage `to` by one
/// operation: by a join, a completion or a cancellation.
pub open spec fn is_edge(from: GameState, to: GameState) -> bool {
    ||| from == GameState::Created && to == GameState::Joined
    ||| from == GameState::Joined && to == GameState::Completed
    ||| from == GameState::Created && to == GameState::Cancelled
}

/// A successful call moves the game along one edge of its lifecycle and
/// changes nothing else of it but the second player, who is set by the join
/// and by no other call; an opening finds no game and leaves one in
/// `Created`. Once written, the record stays initialized.
pub proof fn lemma_step_follows_an_edge(program_id: Pubkey, table: Table, call: Call)
    requires
        sound(program_id, table),
        step(program_id, table, call) is Some,
    ensures
        ({
            let before = spec_load_game(program_id, table.game_account);
            let after = spec_load_game(
                program_id,
                step(program_id, table, call)->Some_0.game_account,
            );
            &&& after is Ok
            &&& after->Ok_0.is_initialized
            &&& call is Create ==> before is Err && after->Ok_0.game.state == GameState::Created
            &&& !(call is Create) ==> {
                let old_game = before->Ok_0.game;
                let new_game = after->Ok_0.game;
                &&& before is Ok
                &&& is_edge(old_game.state, new_game.state)
                &&& new_game.id == old_game.id
                &&& new_game.player1 == old_game.player1
                &&& new_game.bet_amount == old_game.bet_amount
                &&& new_game.created_at == old_game.created_at
                &&& new_game.service_hash == old_game.service_hash
                &&& new_game.player1_choice == old_game.player1_choice
                &&& call is Join ==> old_game.player2 is None && new_game.player2 == Some(
                    table.player2.key,
                )
                &&& !(call is Join) ==> new_game.player2 == old_game.player2
            }
        }),
{
    lemma_step_conserves(program_id, table, call);
    match call {
        Call::Create { bet_amount, choice, now, rent_lamports } => {
            lemma_create_outcome(
                program_id,
                table.game_account,
                table.player1,
                table.service_account,
                bet_amount,
                choice,
                now,
                rent_lamports,
            );
        },
        Call::Join { now } => {
            lemma_join_outcome(program_id, table.game_account, table.player2, now);
        },
        Call::Complete { seed, result } => {
            let game = spec_load_game(program_id, table.game_account)->Ok_0.game;
            if result == game.player1_choice {
                lemma_complete_outcome(program_id, table.game_account, table.player1, seed);
            } else {
                lemma_complete_outcome(program_id, table.game_account, table.player2, seed);
            }
        },
        Call::Cancel { now, signed } => {
            let player = AccountView { is_signer: signed, ..table.player1 };
            lemma_cancel_outcome(program_id, table.game_account, player, now);
        },
    }
}

} // verus!
