//! A whole ledger: many accounts, and calls that each name some of them. No
//! sequence of calls creates or destroys value, and none leaves a game
//! account with less than the stakes of its game.

use crate::account::{
    lemma_total_covers_pair, lemma_total_nonnegative, lemma_total_update, total_lamports,
    AccountView,
};
use crate::instruction::GameInstruction;
use crate::laws::{
    lemma_cancel_outcome, lemma_complete_outcome, lemma_create_outcome, lemma_join_outcome,
    lemma_process_conserves_total,
};
use crate::processor::{escrow_funded, process_spec};
use crate::pubkey::Pubkey;
use crate::state::GameServiceAccount;
use vstd::prelude::*;

verus! {

/// A call on a ledger: the places of the accounts that it names, in the order
/// in which the operation takes them, and what else a call is made of.
pub ghost struct Request {
    pub picks: Seq<int>,
    pub instruction_data: Seq<u8>,
    pub now: i64,
    pub rent_lamports: u64,
}

/// Whether `picks` are places of the ledger, each named once.
pub open spec fn names_accounts(ledger: Seq<AccountView>, picks: Seq<int>) -> bool {
    &&& forall|j: int| 0 <= j < picks.len() ==> 0 <= #[trigger] picks[j] < ledger.len()
    &&& forall|j: int, k: int| 0 <= j < k < picks.len() ==> picks[j] != picks[k]
}

/// The accounts at the places `picks` of the ledger.
pub open spec fn picked(ledger: Seq<AccountView>, picks: Seq<int>) -> Seq<AccountView> {
    Seq::new(picks.len(), |j: int| ledger[picks[j]])
}

/// The ledger with `accounts` at the places `picks`.
pub open spec fn put_back(
    ledger: Seq<AccountView>,
    picks: Seq<int>,
    accounts: Seq<AccountView>,
) -> Seq<AccountView>
    decreases picks.len(),
{
    if picks.len() == 0 {
        ledger
    } else {
        put_back(ledger, picks.drop_last(), accounts.drop_last()).update(
            picks.last(),
            accounts.last(),
        )
    }
}

/// Whether the account that an opening or a join takes the stake from is no
/// account of the program: the ledger moves value only out of accounts of its
/// own program for transfers.
pub open spec fn payer_is_wallet(
    program_id: Pubkey,
    accounts: Seq<AccountView>,
    instruction_data: Seq<u8>,
) -> bool {
    match GameInstruction::spec_try_from_slice(instruction_data) {
        Ok(GameInstruction::CreateGame { .. }) | Ok(GameInstruction::JoinGame { .. }) => {
            accounts.len() >= 2 ==> accounts[1].owner != program_id
        },
        _ => true,
    }
}

/// Whether the ledger can take the request.
pub open spec fn admissible(
    program_id: Pubkey,
    ledger: Seq<AccountView>,
    request: Request,
) -> bool {
    &&& names_accounts(ledger, request.picks)
    &&& payer_is_wallet(program_id, picked(ledger, request.picks), request.instruction_data)
}

/// The ledger after the request was served, whether it succeeded or not.
pub open spec fn serve(
    program_id: Pubkey,
    ledger: Seq<AccountView>,
    request: Request,
) -> Seq<AccountView> {
    put_back(
        ledger,
        request.picks,
        process_spec(
            program_id,
            picked(ledger, request.picks),
            request.instruction_data,
            request.now,
            request.rent_lamports,
        ).1,
    )
}

/// The ledger after the requests were served one after the other.
pub open spec fn serve_all(
    program_id: Pubkey,
    ledger: Seq<AccountView>,
    requests: Seq<Request>,
) -> Seq<AccountView>
    decreases requests.len(),
{
    if requests.len() == 0 {
        ledger
    } else {
        serve_all(program_id, serve(program_id, ledger, requests[0]), requests.drop_first())
    }
}

/// Whether the ledger can take each request when its turn comes.
pub open spec fn all_admissible(
    program_id: Pubkey,
    ledger: Seq<AccountView>,
    requests: Seq<Request>,
) -> bool
    decreases requests.len(),
{
    requests.len() == 0 || (admissible(program_id, ledger, requests[0]) && all_admissible(
        program_id,
        serve(program_id, ledger, requests[0]),
        requests.drop_first(),
    ))
}

/// Whether the balances of the ledger fit its unit together and every account
/// that holds a game holds at least the stakes of that game.
pub open spec fn ledger_sound(program_id: Pubkey, ledger: Seq<AccountView>) -> bool {
    &&& total_lamports(ledger) <= u64::MAX
    &&& forall|k: int| 0 <= k < ledger.len() ==> escrow_funded(program_id, #[trigger] ledger[k])
}

/// Putting accounts back changes the places that were picked and no others.
pub proof fn lemma_put_back(
    ledger: Seq<AccountView>,
    picks: Seq<int>,
    accounts: Seq<AccountView>,
)
    requires
        names_accounts(ledger, picks),
        accounts.len() == picks.len(),
    ensures
        put_back(ledger, picks, accounts).len() == ledger.len(),
        forall|j: int|
            0 <= j < picks.len() ==> #[trigger] put_back(ledger, picks, accounts)[picks[j]]
                == accounts[j],
        forall|k: int|
            0 <= k < ledger.len() && (forall|j: int| 0 <= j < picks.len() ==> picks[j] != k)
                ==> #[trigger] put_back(ledger, picks, accounts)[k] == ledger[k],
    decreases picks.len(),
{
    if picks.len() > 0 {
        let fewer = picks.drop_last();
        let before = put_back(ledger, fewer, accounts.drop_last());
        lemma_put_back(ledger, fewer, accounts.drop_last());
        assert forall|j: int| 0 <= j < picks.len() implies #[trigger] put_back(
            ledger,
            picks,
            accounts,
        )[picks[j]] == accounts[j] by {
            if j < picks.len() - 1 {
                assert(before[fewer[j]] == accounts.drop_last()[j]);
            }
        }
        assert forall|k: int|
            0 <= k < ledger.len() && (forall|j: int|
                0 <= j < picks.len() ==> picks[j] != k) implies #[trigger] put_back(
            ledger,
            picks,
            accounts,
        )[k] == ledger[k] by {
            assert(forall|j: int| 0 <= j < fewer.len() ==> fewer[j] != k);
        }
    }
}

/// The picked accounts hold together no more than the ledger.
pub proof fn lemma_picked_total(ledger: Seq<AccountView>, picks: Seq<int>)
    requires
        names_accounts(ledger, picks),
    ensures
        total_lamports(picked(ledger, picks)) <= total_lamports(ledger),
    decreases picks.len(),
{
    if picks.len() == 0 {
        lemma_total_nonnegative(ledger);
    } else {
        let last = picks.last();
        let fewer = picks.drop_last();
        let emptied = ledger.update(last, ledger[last].with_lamports(0));
        assert(names_accounts(emptied, fewer));
        lemma_picked_total(emptied, fewer);
        lemma_total_update(ledger, last, ledger[last].with_lamports(0));
        assert(picked(emptied, fewer) =~= picked(ledger, picks).drop_last());
    }
}

/// Putting accounts back changes the sum of the ledger by the difference
/// between what the accounts hold and what the picked accounts held.
pub proof fn lemma_put_back_total(
    ledger: Seq<AccountView>,
    picks: Seq<int>,
    accounts: Seq<AccountView>,
)
    requires
        names_accounts(ledger, picks),
        accounts.len() == picks.len(),
    ensures
        total_lamports(put_back(ledger, picks, accounts)) == total_lamports(ledger)
            - total_lamports(picked(ledger, picks)) + total_lamports(accounts),
    decreases picks.len(),
{
    if picks.len() > 0 {
        let fewer = picks.drop_last();
        let before = put_back(ledger, fewer, accounts.drop_last());
        lemma_put_back_total(ledger, fewer, accounts.drop_last());
        lemma_put_back(ledger, fewer, accounts.drop_last());
        assert(forall|j: int| 0 <= j < fewer.len() ==> fewer[j] != picks.last());
        lemma_total_update(before, picks.last(), accounts.last());
        assert(picked(ledger, fewer) =~= picked(ledger, picks).drop_last());
    }
}

/// A call leaves every account beside the game account with at least the
/// stakes of the game that it may hold, where the payer is no account of the
/// program.
pub proof fn lemma_process_keeps_others_funded(
    program_id: Pubkey,
    accounts: Seq<AccountView>,
    instruction_data: Seq<u8>,
    now: i64,
    rent_lamports: u64,
    j: int,
)
    requires
        total_lamports(accounts) <= u64::MAX,
        accounts.len() > 0 ==> escrow_funded(program_id, accounts[0]),
        payer_is_wallet(program_id, accounts, instruction_data),
        1 <= j < accounts.len(),
        escrow_funded(program_id, accounts[j]),
    ensures
        escrow_funded(
            program_id,
            process_spec(program_id, accounts, instruction_data, now, rent_lamports).1[j],
        ),
{
    let outcome = process_spec(program_id, accounts, instruction_data, now, rent_lamports);
    if outcome.0 is Ok {
        match GameInstruction::spec_try_from_slice(instruction_data)->Ok_0 {
            GameInstruction::CreateGame { bet_amount, choice } => {
                lemma_total_covers_pair(accounts, 0, 1);
                lemma_create_outcome(
                    program_id,
                    accounts[0],
                    accounts[1],
                    accounts[2],
                    bet_amount,
                    choice,
                    now,
                    rent_lamports,
                );
                if j == 2 {
                    let service = GameServiceAccount::spec_unpack(accounts[2].data)->Ok_0;
                    let next = GameServiceAccount {
                        next_game_id: (service.next_game_id + 1) as u64,
                        ..service
                    };
                    next.lemma_layout();
                }
            },
            GameInstruction::JoinGame { game_id } => {
                lemma_total_covers_pair(accounts, 0, 1);
                lemma_join_outcome(program_id, accounts[0], accounts[1], now);
            },
            GameInstruction::CompleteGame { game_id, seed, result } => {
                lemma_total_covers_pair(accounts, 0, 2);
                lemma_complete_outcome(program_id, accounts[0], accounts[2], seed);
            },
            GameInstruction::CancelGame { game_id } => {
                lemma_total_covers_pair(accounts, 0, 1);
                lemma_cancel_outcome(program_id, accounts[0], accounts[1], now);
            },
        }
    }
}

/// Serving a request that the ledger can take keeps a sound ledger sound and
/// leaves its length and the sum of its balances as they were.
pub proof fn lemma_serve_conserves(program_id: Pubkey, ledger: Seq<AccountView>, request: Request)
    requires
        ledger_sound(program_id, ledger),
        admissible(program_id, ledger, request),
    ensures
        ledger_sound(program_id, serve(program_id, ledger, request)),
        serve(program_id, ledger, request).len() == ledger.len(),
        total_lamports(serve(program_id, ledger, request)) == total_lamports(ledger),
{
    let picks = request.picks;
    let accounts = picked(ledger, picks);
    let after = process_spec(
        program_id,
        accounts,
        request.instruction_data,
        request.now,
        request.rent_lamports,
    ).1;
    let served = serve(program_id, ledger, request);
    lemma_picked_total(ledger, picks);
    lemma_process_conserves_total(
        program_id,
        accounts,
        request.instruction_data,
        request.now,
        request.rent_lamports,
    );
    lemma_put_back(ledger, picks, after);
    lemma_put_back_total(ledger, picks, after);
    assert forall|k: int| 0 <= k < served.len() implies escrow_funded(
        program_id,
        #[trigger] served[k],
    ) by {
        if exists|j: int| 0 <= j < picks.len() && picks[j] == k {
            let j = choose|j: int| 0 <= j < picks.len() && picks[j] == k;
            if j > 0 {
                lemma_process_keeps_others_funded(
                    program_id,
                    accounts,
                    request.instruction_data,
                    request.now,
                    request.rent_lamports,
                    j,
                );
            }
        }
    }
}

/// Conservation on a whole ledger: however many requests are served, on
/// whichever accounts and however each of them ends, the ledger holds as much
/// as before, and every game account on it holds at least the stakes that the
/// stage of its game prescribes.
pub proof fn lemma_ledger_conservation(
    program_id: Pubkey,
    ledger: Seq<AccountView>,
    requests: Seq<Request>,
)
    requires
        ledger_sound(program_id, ledger),
        all_admissible(program_id, ledger, requests),
    ensures
        ledger_sound(program_id, serve_all(program_id, ledger, requests)),
        serve_all(program_id, ledger, requests).len() == ledger.len(),
        total_lamports(serve_all(program_id, ledger, requests)) == total_lamports(ledger),
    decreases requests.len(),
{
    if requests.len() > 0 {
        lemma_serve_conserves(program_id, ledger, requests[0]);
        lemma_ledger_conservation(
            program_id,
            serve(program_id, ledger, requests[0]),
            requests.drop_first(),
        );
    }
}

} // verus!
