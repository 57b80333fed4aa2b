use vstd::prelude::*;

use crate::accounts::{first_failure, lemma_all_checks_hold};
use crate::cancel::{
    cancel_sol_token_actions, cancel_token_sol_actions, cancel_token_token_actions, CancelSolToken, CancelTokenSol,
    CancelTokenToken,
};
use crate::exchange::{
    exchange_sol_token_actions, exchange_token_sol_actions, exchange_token_token_actions, ExchangeSolToken,
    ExchangeTokenSol, ExchangeTokenToken,
};
use crate::initialize::{
    initialize_sol_token_actions, initialize_token_sol_actions, initialize_token_token_actions, opened_state,
    InitializeSolToken, InitializeTokenSol, InitializeTokenToken,
};
use crate::actions::ActionView;
use crate::lamports::can_move;
use crate::ledger::{run, shortfall, step, Ledger, Rent};
use crate::native_mint::spec_native_mint;

verus! {

// ---------- opening ----------

/// A completed opening of a SOL-for-tokens exchange leaves the offered
/// lamports in the state account on top of its rent, all of it paid by the
/// initializer.
pub proof fn opening_sol_token_escrows_the_offer(
    open: InitializeSolToken,
    program_id: Seq<u8>,
    exchange_idx: u64,
    initializer_amount: u64,
    taker_amount: u64,
    before: Ledger,
    rent: Rent,
)
    requires
        first_failure(open.checks(program_id, exchange_idx)) is None,
        spec_native_mint() is Some,
        open.initializer.key@ != open.exchange_state@,
        run(
            before,
            rent,
            initialize_sol_token_actions(
                open,
                program_id,
                exchange_idx,
                initializer_amount,
                taker_amount,
                spec_native_mint().unwrap(),
            ),
        ) is Some,
    ensures
        ({
            let opened = run(
                before,
                rent,
                initialize_sol_token_actions(
                    open,
                    program_id,
                    exchange_idx,
                    initializer_amount,
                    taker_amount,
                    spec_native_mint().unwrap(),
                ),
            ).unwrap();
            let topup = shortfall(before.lamports_of(open.exchange_state@), rent.state_account);
            &&& opened.lamports_of(open.exchange_state@) == before.lamports_of(open.exchange_state@) + topup
                + initializer_amount
            &&& opened.lamports_of(open.initializer.key@) == before.lamports_of(open.initializer.key@) - topup
                - initializer_amount
        }),
{
    reveal_with_fuel(run, 4);
}

/// A completed opening of a tokens-for-SOL exchange leaves the new escrow
/// wallet holding exactly the offered amount, taken from the funding account.
pub proof fn opening_token_sol_escrows_the_offer(
    open: InitializeTokenSol,
    program_id: Seq<u8>,
    exchange_idx: u64,
    initializer_amount: u64,
    taker_amount: u64,
    before: Ledger,
    rent: Rent,
)
    requires
        first_failure(open.checks(program_id, exchange_idx, initializer_amount)) is None,
        spec_native_mint() is Some,
        open.initializer_withdraw_token_account.key@ != open.escrow_wallet@,
        run(
            before,
            rent,
            initialize_token_sol_actions(
                open,
                program_id,
                exchange_idx,
                initializer_amount,
                taker_amount,
                spec_native_mint().unwrap(),
            ),
        ) is Some,
    ensures
        ({
            let opened = run(
                before,
                rent,
                initialize_token_sol_actions(
                    open,
                    program_id,
                    exchange_idx,
                    initializer_amount,
                    taker_amount,
                    spec_native_mint().unwrap(),
                ),
            ).unwrap();
            &&& opened.tokens_of(open.escrow_wallet@) == initializer_amount
            &&& opened.tokens_of(open.initializer_withdraw_token_account.key@) == before.tokens_of(
                open.initializer_withdraw_token_account.key@,
            ) - initializer_amount
        }),
{
    reveal_with_fuel(run, 5);
}

/// A completed opening of a tokens-for-tokens exchange leaves the new escrow
/// wallet holding exactly the offered amount, taken from the funding account.
pub proof fn opening_token_token_escrows_the_offer(
    open: InitializeTokenToken,
    program_id: Seq<u8>,
    exchange_idx: u64,
    initializer_amount: u64,
    taker_amount: u64,
    before: Ledger,
    rent: Rent,
)
    requires
        first_failure(open.checks(program_id, exchange_idx, initializer_amount)) is None,
        open.initializer_withdraw_token_account.key@ != open.escrow_wallet@,
        run(
            before,
            rent,
            initialize_token_token_actions(open, program_id, exchange_idx, initializer_amount, taker_amount),
        ) is Some,
    ensures
        ({
            let opened = run(
                before,
                rent,
                initialize_token_token_actions(open, program_id, exchange_idx, initializer_amount, taker_amount),
            ).unwrap();
            &&& opened.tokens_of(open.escrow_wallet@) == initializer_amount
            &&& opened.tokens_of(open.initializer_withdraw_token_account.key@) == before.tokens_of(
                open.initializer_withdraw_token_account.key@,
            ) - initializer_amount
        }),
{
    reveal_with_fuel(run, 5);
}

// ---------- withdrawing ----------

/// Withdrawing a SOL-for-tokens offer whose state account is open completes,
/// gives the initializer the state account's whole balance, the offered
/// lamports and the rent, and leaves the state account empty and closed.
pub proof fn withdrawing_sol_token_moves_the_whole_escrow(
    accounts: CancelSolToken,
    program_id: Seq<u8>,
    exchange_idx: u64,
    before: Ledger,
    rent: Rent,
)
    requires
        first_failure(accounts.checks(program_id, exchange_idx)) is None,
        can_move(
            accounts.exchange_state.lamports,
            accounts.initializer.lamports,
            accounts.exchange_state.data.initializer_amount,
        ),
        accounts.exchange_state.lamports == before.lamports_of(accounts.exchange_state.key@),
        accounts.initializer.lamports == before.lamports_of(accounts.initializer.key@),
        before.is_open(accounts.exchange_state.key@),
    ensures
        run(before, rent, cancel_sol_token_actions(accounts)) is Some,
        ({
            let after = run(before, rent, cancel_sol_token_actions(accounts)).unwrap();
            &&& !after.is_open(accounts.exchange_state.key@)
            &&& after.lamports_of(accounts.initializer.key@) == before.lamports_of(accounts.initializer.key@)
                + before.lamports_of(accounts.exchange_state.key@)
            &&& after.lamports_of(accounts.exchange_state.key@) == 0
        }),
{
    lemma_all_checks_hold(accounts.checks(program_id, exchange_idx));
    assert(accounts.checks(program_id, exchange_idx)[5].0);
    reveal_with_fuel(run, 4);
}

/// A completed withdrawal of a tokens-for-SOL offer moves the escrow wallet's
/// whole token balance, which is the offered amount, back to the initializer's
/// account, and gives the initializer the lamports of the escrow wallet and of
/// the state account, both of which end empty.
pub proof fn withdrawing_token_sol_moves_the_whole_escrow(
    accounts: CancelTokenSol,
    program_id: Seq<u8>,
    exchange_idx: u64,
    before: Ledger,
    rent: Rent,
)
    requires
        first_failure(accounts.checks(program_id, exchange_idx)) is None,
        run(before, rent, cancel_token_sol_actions(accounts, program_id, exchange_idx)) is Some,
        accounts.initializer_withdraw_token_account.key@ != accounts.escrow_wallet.key@,
        accounts.initializer.key@ != accounts.escrow_wallet.key@,
        accounts.exchange_state.key@ != accounts.escrow_wallet.key@,
    ensures
        ({
            let after = run(before, rent, cancel_token_sol_actions(accounts, program_id, exchange_idx)).unwrap();
            let withdraw = accounts.initializer_withdraw_token_account.key@;
            let escrow = accounts.escrow_wallet.key@;
            let state = accounts.exchange_state.key@;
            let initializer = accounts.initializer.key@;
            &&& before.tokens_of(escrow) == accounts.exchange_state.data.initializer_amount
            &&& after.tokens_of(withdraw) == before.tokens_of(withdraw) + before.tokens_of(escrow)
            &&& after.tokens_of(escrow) == 0
            &&& after.lamports_of(initializer) == before.lamports_of(initializer) + before.lamports_of(escrow)
                + before.lamports_of(state)
            &&& after.lamports_of(escrow) == 0
            &&& after.lamports_of(state) == 0
        }),
{
    lemma_all_checks_hold(accounts.checks(program_id, exchange_idx));
    assert(accounts.checks(program_id, exchange_idx)[7].0);
    reveal_with_fuel(run, 4);
}

/// A completed withdrawal of a tokens-for-tokens offer moves the escrow
/// wallet's whole token balance, which is the offered amount, back to the
/// initializer's account, and gives the initializer the lamports of the escrow
/// wallet and of the state account, both of which end empty.
pub proof fn withdrawing_token_token_moves_the_whole_escrow(
    accounts: CancelTokenToken,
    program_id: Seq<u8>,
    exchange_idx: u64,
    before: Ledger,
    rent: Rent,
)
    requires
        first_failure(accounts.checks(program_id, exchange_idx)) is None,
        run(before, rent, cancel_token_token_actions(accounts, program_id, exchange_idx)) is Some,
        accounts.initializer_withdraw_token_account.key@ != accounts.escrow_wallet.key@,
        accounts.initializer.key@ != accounts.escrow_wallet.key@,
        accounts.exchange_state.key@ != accounts.escrow_wallet.key@,
    ensures
        ({
            let after = run(before, rent, cancel_token_token_actions(accounts, program_id, exchange_idx)).unwrap();
            let withdraw = accounts.initializer_withdraw_token_account.key@;
            let escrow = accounts.escrow_wallet.key@;
            let state = accounts.exchange_state.key@;
            let initializer = accounts.initializer.key@;
            &&& before.tokens_of(escrow) == accounts.exchange_state.data.initializer_amount
            &&& after.tokens_of(withdraw) == before.tokens_of(withdraw) + before.tokens_of(escrow)
            &&& after.tokens_of(escrow) == 0
            &&& after.lamports_of(initializer) == before.lamports_of(initializer) + before.lamports_of(escrow)
                + before.lamports_of(state)
            &&& after.lamports_of(escrow) == 0
            &&& after.lamports_of(state) == 0
        }),
{
    lemma_all_checks_hold(accounts.checks(program_id, exchange_idx));
    assert(accounts.checks(program_id, exchange_idx)[8].0);
    reveal_with_fuel(run, 4);
}

// ---------- taking ----------

/// A completed take of a SOL-for-tokens offer delivers to each party exactly
/// what the other offered: the initializer's receiving account gains the asked
/// tokens, which leave the taker's paying account; the taker gains the offered
/// lamports; the rest of the state account's lamports go to the initializer
/// and the state account ends empty.
pub proof fn taking_sol_token_swaps_the_amounts(
    accounts: ExchangeSolToken,
    program_id: Seq<u8>,
    exchange_idx: u64,
    before: Ledger,
    rent: Rent,
)
    requires
        first_failure(accounts.checks(program_id, exchange_idx)) is None,
        can_move(
            accounts.exchange_state.lamports,
            accounts.taker.lamports,
            accounts.exchange_state.data.initializer_amount,
        ),
        accounts.exchange_state.lamports == before.lamports_of(accounts.exchange_state.key@),
        accounts.taker.lamports == before.lamports_of(accounts.taker.key@),
        accounts.initializer_receive_token_account.key@ != accounts.taker_withdraw_token_account.key@,
        accounts.taker.key@ != accounts.exchange_state.key@,
        accounts.taker.key@ != accounts.initializer@,
        run(before, rent, exchange_sol_token_actions(accounts)) is Some,
    ensures
        ({
            let state = accounts.exchange_state.data;
            let after = run(before, rent, exchange_sol_token_actions(accounts)).unwrap();
            &&& after.tokens_of(accounts.initializer_receive_token_account.key@) == before.tokens_of(
                accounts.initializer_receive_token_account.key@,
            ) + state.taker_amount
            &&& after.tokens_of(accounts.taker_withdraw_token_account.key@) == before.tokens_of(
                accounts.taker_withdraw_token_account.key@,
            ) - state.taker_amount
            &&& after.lamports_of(accounts.taker.key@) == before.lamports_of(accounts.taker.key@)
                + state.initializer_amount
            &&& after.lamports_of(accounts.initializer@) == before.lamports_of(accounts.initializer@)
                + before.lamports_of(accounts.exchange_state.key@) - state.initializer_amount
            &&& after.lamports_of(accounts.exchange_state.key@) == 0
        }),
{
    lemma_all_checks_hold(accounts.checks(program_id, exchange_idx));
    assert(accounts.checks(program_id, exchange_idx)[10].0);
    reveal_with_fuel(run, 5);
}

/// A completed take of a tokens-for-SOL offer delivers to each party exactly
/// what the other offered: the initializer gains the asked lamports from the
/// taker, and the taker's receiving account gains the escrow wallet's whole
/// balance, which is the offered amount; the lamports of the escrow wallet and
/// of the state account go to the initializer and both end empty.
pub proof fn taking_token_sol_swaps_the_amounts(
    accounts: ExchangeTokenSol,
    program_id: Seq<u8>,
    exchange_idx: u64,
    before: Ledger,
    rent: Rent,
)
    requires
        first_failure(accounts.checks(program_id, exchange_idx)) is None,
        accounts.taker_receive_token_account.key@ != accounts.escrow_wallet.key@,
        accounts.taker.key@ != accounts.initializer@,
        accounts.escrow_wallet.key@ != accounts.initializer@,
        accounts.escrow_wallet.key@ != accounts.taker.key@,
        accounts.exchange_state.key@ != accounts.taker.key@,
        accounts.exchange_state.key@ != accounts.escrow_wallet.key@,
        run(before, rent, exchange_token_sol_actions(accounts, program_id, exchange_idx)) is Some,
    ensures
        ({
            let state = accounts.exchange_state.data;
            let escrow = accounts.escrow_wallet.key@;
            let after = run(before, rent, exchange_token_sol_actions(accounts, program_id, exchange_idx)).unwrap();
            &&& before.tokens_of(escrow) == state.initializer_amount
            &&& after.tokens_of(accounts.taker_receive_token_account.key@) == before.tokens_of(
                accounts.taker_receive_token_account.key@,
            ) + before.tokens_of(escrow)
            &&& after.tokens_of(escrow) == 0
            &&& after.lamports_of(accounts.taker.key@) == before.lamports_of(accounts.taker.key@) - state.taker_amount
            &&& after.lamports_of(accounts.initializer@) == before.lamports_of(accounts.initializer@)
                + state.taker_amount + before.lamports_of(escrow) + before.lamports_of(accounts.exchange_state.key@)
            &&& after.lamports_of(escrow) == 0
            &&& after.lamports_of(accounts.exchange_state.key@) == 0
        }),
{
    lemma_all_checks_hold(accounts.checks(program_id, exchange_idx));
    assert(accounts.checks(program_id, exchange_idx)[7].0);
    reveal_with_fuel(run, 5);
}

/// A completed take of a tokens-for-tokens offer delivers to each party
/// exactly what the other offered: the initializer's receiving account gains
/// the asked amount, which leaves the taker's paying account, and the taker's
/// receiving account gains the escrow wallet's whole balance, which is the
/// offered amount; the lamports of the escrow wallet and of the state account
/// go to the initializer and both end empty.
pub proof fn taking_token_token_swaps_the_amounts(
    accounts: ExchangeTokenToken,
    program_id: Seq<u8>,
    exchange_idx: u64,
    before: Ledger,
    rent: Rent,
)
    requires
        first_failure(accounts.checks(program_id, exchange_idx)) is None,
        ({
            let keys = seq![
                accounts.initializer_receive_token_account.key@,
                accounts.taker_withdraw_token_account.key@,
                accounts.taker_receive_token_account.key@,
                accounts.escrow_wallet.key@,
            ];
            forall|i: int, j: int| 0 <= i < j < 4 ==> keys[i] != keys[j]
        }),
        accounts.escrow_wallet.key@ != accounts.initializer@,
        accounts.exchange_state.key@ != accounts.escrow_wallet.key@,
        run(before, rent, exchange_token_token_actions(accounts, program_id, exchange_idx)) is Some,
    ensures
        ({
            let state = accounts.exchange_state.data;
            let escrow = accounts.escrow_wallet.key@;
            let after = run(before, rent, exchange_token_token_actions(accounts, program_id, exchange_idx)).unwrap();
            &&& before.tokens_of(escrow) == state.initializer_amount
            &&& after.tokens_of(accounts.initializer_receive_token_account.key@) == before.tokens_of(
                accounts.initializer_receive_token_account.key@,
            ) + state.taker_amount
            &&& after.tokens_of(accounts.taker_withdraw_token_account.key@) == before.tokens_of(
                accounts.taker_withdraw_token_account.key@,
            ) - state.taker_amount
            &&& after.tokens_of(accounts.taker_receive_token_account.key@) == before.tokens_of(
                accounts.taker_receive_token_account.key@,
            ) + before.tokens_of(escrow)
            &&& after.tokens_of(escrow) == 0
            &&& after.lamports_of(accounts.initializer@) == before.lamports_of(accounts.initializer@)
                + before.lamports_of(escrow) + before.lamports_of(accounts.exchange_state.key@)
            &&& after.lamports_of(escrow) == 0
            &&& after.lamports_of(accounts.exchange_state.key@) == 0
        }),
{
    let keys = seq![
        accounts.initializer_receive_token_account.key@,
        accounts.taker_withdraw_token_account.key@,
        accounts.taker_receive_token_account.key@,
        accounts.escrow_wallet.key@,
    ];
    assert(keys[0] != keys[1] && keys[0] != keys[2] && keys[0] != keys[3]);
    assert(keys[1] != keys[2] && keys[1] != keys[3] && keys[2] != keys[3]);
    lemma_all_checks_hold(accounts.checks(program_id, exchange_idx));
    assert(accounts.checks(program_id, exchange_idx)[13].0);
    reveal_with_fuel(run, 5);
}

// ---------- opening, then withdrawing ----------

/// Once an opening of a SOL-for-tokens exchange has completed, withdrawing it
/// completes and gives the initializer back every lamport it paid, the offer and
/// the rent, together with whatever the state address held before, and leaves
/// the state account empty.
pub proof fn withdrawing_sol_token_refunds_the_initializer(
    open: InitializeSolToken,
    cancel: CancelSolToken,
    program_id: Seq<u8>,
    exchange_idx: u64,
    initializer_amount: u64,
    taker_amount: u64,
    before: Ledger,
    rent: Rent,
)
    requires
        first_failure(open.checks(program_id, exchange_idx)) is None,
        first_failure(cancel.checks(program_id, exchange_idx)) is None,
        spec_native_mint() is Some,
        cancel.exchange_state.data@ == opened_state(
            exchange_idx,
            open.initializer.key@,
            open.taker@,
            spec_native_mint().unwrap(),
            open.taker_mint@,
            initializer_amount,
            taker_amount,
        ),
        ({
            let opened = run(
                before,
                rent,
                initialize_sol_token_actions(
                    open,
                    program_id,
                    exchange_idx,
                    initializer_amount,
                    taker_amount,
                    spec_native_mint().unwrap(),
                ),
            );
            &&& opened is Some
            &&& cancel.initializer.lamports == opened.unwrap().lamports_of(open.initializer.key@)
            &&& cancel.exchange_state.lamports == opened.unwrap().lamports_of(open.exchange_state@)
        }),
        can_move(cancel.exchange_state.lamports, cancel.initializer.lamports, initializer_amount),
    ensures
        ({
            let opened = run(
                before,
                rent,
                initialize_sol_token_actions(
                    open,
                    program_id,
                    exchange_idx,
                    initializer_amount,
                    taker_amount,
                    spec_native_mint().unwrap(),
                ),
            ).unwrap();
            let withdrawn = run(opened, rent, cancel_sol_token_actions(cancel));
            &&& withdrawn is Some
            &&& !withdrawn.unwrap().is_open(open.exchange_state@)
            &&& withdrawn.unwrap().lamports_of(open.initializer.key@) == before.lamports_of(open.initializer.key@)
                + before.lamports_of(open.exchange_state@)
            &&& withdrawn.unwrap().lamports_of(open.exchange_state@) == 0
        }),
{
    lemma_all_checks_hold(open.checks(program_id, exchange_idx));
    lemma_all_checks_hold(cancel.checks(program_id, exchange_idx));
    assert(cancel.checks(program_id, exchange_idx)[1].0);
    assert(cancel.checks(program_id, exchange_idx)[2].0);
    assert(cancel.checks(program_id, exchange_idx)[3].0);
    assert(cancel.checks(program_id, exchange_idx)[4].0);
    assert(cancel.checks(program_id, exchange_idx)[5].0);
    assert(open.checks(program_id, exchange_idx)[1].0);
    // Both instructions derive the state account from the same seeds.
    assert(cancel.state_seeds(exchange_idx) =~= open.state_seeds(exchange_idx));
    reveal_with_fuel(run, 4);
}

/// Once an opening of a tokens-for-SOL exchange has completed, withdrawing it
/// completes and gives the initializer's token account back exactly its balance
/// and the initializer back every lamport it paid for the two rents, together
/// with whatever the two addresses held before; the escrow wallet ends with no
/// tokens and both accounts with no lamports.
pub proof fn withdrawing_token_sol_returns_the_escrow(
    open: InitializeTokenSol,
    cancel: CancelTokenSol,
    program_id: Seq<u8>,
    exchange_idx: u64,
    initializer_amount: u64,
    taker_amount: u64,
    before: Ledger,
    rent: Rent,
)
    requires
        first_failure(open.checks(program_id, exchange_idx, initializer_amount)) is None,
        first_failure(cancel.checks(program_id, exchange_idx)) is None,
        spec_native_mint() is Some,
        cancel.exchange_state.data@ == opened_state(
            exchange_idx,
            open.initializer.key@,
            open.taker@,
            open.initializer_mint@,
            spec_native_mint().unwrap(),
            initializer_amount,
            taker_amount,
        ),
        cancel.initializer_withdraw_token_account.key@ == open.initializer_withdraw_token_account.key@,
        open.initializer_withdraw_token_account.key@ != open.escrow_wallet@,
        open.initializer.key@ != open.escrow_wallet@,
        open.exchange_state@ != open.escrow_wallet@,
        ({
            let opened = run(
                before,
                rent,
                initialize_token_sol_actions(
                    open,
                    program_id,
                    exchange_idx,
                    initializer_amount,
                    taker_amount,
                    spec_native_mint().unwrap(),
                ),
            );
            opened is Some
        }),
    ensures
        ({
            let opened = run(
                before,
                rent,
                initialize_token_sol_actions(
                    open,
                    program_id,
                    exchange_idx,
                    initializer_amount,
                    taker_amount,
                    spec_native_mint().unwrap(),
                ),
            ).unwrap();
            let withdrawn = run(opened, rent, cancel_token_sol_actions(cancel, program_id, exchange_idx));
            let withdraw = open.initializer_withdraw_token_account.key@;
            &&& withdrawn is Some
            &&& !withdrawn.unwrap().is_open(open.exchange_state@)
            &&& !withdrawn.unwrap().is_open(open.escrow_wallet@)
            &&& withdrawn.unwrap().tokens_of(withdraw) == before.tokens_of(withdraw)
            &&& withdrawn.unwrap().tokens_of(open.escrow_wallet@) == 0
            &&& withdrawn.unwrap().lamports_of(open.initializer.key@) == before.lamports_of(open.initializer.key@)
                + before.lamports_of(open.exchange_state@) + before.lamports_of(open.escrow_wallet@)
            &&& withdrawn.unwrap().lamports_of(open.exchange_state@) == 0
            &&& withdrawn.unwrap().lamports_of(open.escrow_wallet@) == 0
        }),
{
    lemma_all_checks_hold(open.checks(program_id, exchange_idx, initializer_amount));
    lemma_all_checks_hold(cancel.checks(program_id, exchange_idx));
    assert(cancel.checks(program_id, exchange_idx)[3].0);
    assert(cancel.checks(program_id, exchange_idx)[4].0);
    assert(cancel.checks(program_id, exchange_idx)[5].0);
    assert(cancel.checks(program_id, exchange_idx)[6].0);
    assert(cancel.checks(program_id, exchange_idx)[7].0);
    assert(cancel.checks(program_id, exchange_idx)[8].0);
    assert(open.checks(program_id, exchange_idx, initializer_amount)[1].0);
    assert(open.checks(program_id, exchange_idx, initializer_amount)[2].0);
    // Both instructions derive the two accounts from the same seeds.
    assert(cancel.state_seeds(exchange_idx) =~= open.state_seeds(exchange_idx));
    assert(cancel.wallet_seeds(exchange_idx) =~= open.wallet_seeds(exchange_idx));
    reveal_with_fuel(run, 5);
}

/// Once an opening of a tokens-for-tokens exchange has completed, withdrawing
/// it completes and gives the initializer's token account back exactly its balance
/// and the initializer back every lamport it paid for the two rents, together
/// with whatever the two addresses held before; the escrow wallet ends with no
/// tokens and both accounts with no lamports.
pub proof fn withdrawing_token_token_returns_the_escrow(
    open: InitializeTokenToken,
    cancel: CancelTokenToken,
    program_id: Seq<u8>,
    exchange_idx: u64,
    initializer_amount: u64,
    taker_amount: u64,
    before: Ledger,
    rent: Rent,
)
    requires
        first_failure(open.checks(program_id, exchange_idx, initializer_amount)) is None,
        first_failure(cancel.checks(program_id, exchange_idx)) is None,
        cancel.exchange_state.data@ == opened_state(
            exchange_idx,
            open.initializer.key@,
            open.taker@,
            open.initializer_mint@,
            open.taker_mint@,
            initializer_amount,
            taker_amount,
        ),
        cancel.initializer_withdraw_token_account.key@ == open.initializer_withdraw_token_account.key@,
        open.initializer_withdraw_token_account.key@ != open.escrow_wallet@,
        open.initializer.key@ != open.escrow_wallet@,
        open.exchange_state@ != open.escrow_wallet@,
        ({
            let opened = run(
                before,
                rent,
                initialize_token_token_actions(open, program_id, exchange_idx, initializer_amount, taker_amount),
            );
            opened is Some
        }),
    ensures
        ({
            let opened = run(
                before,
                rent,
                initialize_token_token_actions(open, program_id, exchange_idx, initializer_amount, taker_amount),
            ).unwrap();
            let withdrawn = run(opened, rent, cancel_token_token_actions(cancel, program_id, exchange_idx));
            let withdraw = open.initializer_withdraw_token_account.key@;
            &&& withdrawn is Some
            &&& !withdrawn.unwrap().is_open(open.exchange_state@)
            &&& !withdrawn.unwrap().is_open(open.escrow_wallet@)
            &&& withdrawn.unwrap().tokens_of(withdraw) == before.tokens_of(withdraw)
            &&& withdrawn.unwrap().tokens_of(open.escrow_wallet@) == 0
            &&& withdrawn.unwrap().lamports_of(open.initializer.key@) == before.lamports_of(open.initializer.key@)
                + before.lamports_of(open.exchange_state@) + before.lamports_of(open.escrow_wallet@)
            &&& withdrawn.unwrap().lamports_of(open.exchange_state@) == 0
            &&& withdrawn.unwrap().lamports_of(open.escrow_wallet@) == 0
        }),
{
    lemma_all_checks_hold(open.checks(program_id, exchange_idx, initializer_amount));
    lemma_all_checks_hold(cancel.checks(program_id, exchange_idx));
    assert(cancel.checks(program_id, exchange_idx)[3].0);
    assert(cancel.checks(program_id, exchange_idx)[4].0);
    assert(cancel.checks(program_id, exchange_idx)[5].0);
    assert(cancel.checks(program_id, exchange_idx)[6].0);
    assert(cancel.checks(program_id, exchange_idx)[7].0);
    assert(cancel.checks(program_id, exchange_idx)[8].0);
    assert(cancel.checks(program_id, exchange_idx)[9].0);
    assert(open.checks(program_id, exchange_idx, initializer_amount)[1].0);
    assert(open.checks(program_id, exchange_idx, initializer_amount)[2].0);
    // Both instructions derive the two accounts from the same seeds.
    assert(cancel.state_seeds(exchange_idx) =~= open.state_seeds(exchange_idx));
    assert(cancel.wallet_seeds(exchange_idx) =~= open.wallet_seeds(exchange_idx));
    reveal_with_fuel(run, 5);
}

// ---------- opening, then taking ----------

/// Once an opening of a SOL-for-tokens exchange has completed, taking it
/// completes where the taker's accounts allow, and leaves each party with
/// what it had before the offer plus the swap: the
/// initializer pays the offered lamports and gets back the rent (with whatever
/// the state address held before), the taker gains them, and the asked tokens
/// move from the taker's paying account to the initializer's receiving
/// account; the state account ends empty.
pub proof fn taking_opened_sol_token_offer_swaps_the_amounts(
    open: InitializeSolToken,
    take: ExchangeSolToken,
    program_id: Seq<u8>,
    exchange_idx: u64,
    initializer_amount: u64,
    taker_amount: u64,
    before: Ledger,
    rent: Rent,
)
    requires
        first_failure(open.checks(program_id, exchange_idx)) is None,
        first_failure(take.checks(program_id, exchange_idx)) is None,
        spec_native_mint() is Some,
        take.exchange_state.data@ == opened_state(
            exchange_idx,
            open.initializer.key@,
            open.taker@,
            spec_native_mint().unwrap(),
            open.taker_mint@,
            initializer_amount,
            taker_amount,
        ),
        take.initializer_receive_token_account.key@ != take.taker_withdraw_token_account.key@,
        open.taker@ != open.initializer.key@,
        open.taker@ != open.exchange_state@,
        ({
            let opened = run(
                before,
                rent,
                initialize_sol_token_actions(
                    open,
                    program_id,
                    exchange_idx,
                    initializer_amount,
                    taker_amount,
                    spec_native_mint().unwrap(),
                ),
            );
            &&& opened is Some
            &&& take.exchange_state.lamports == opened.unwrap().lamports_of(open.exchange_state@)
            &&& take.taker.lamports == opened.unwrap().lamports_of(open.taker@)
        }),
        ({
            let receive = take.initializer_receive_token_account;
            let pay = take.taker_withdraw_token_account;
            &&& before.holds(receive.key@, receive.mint@, receive.owner@, receive.amount as int)
            &&& before.holds(pay.key@, pay.mint@, pay.owner@, pay.amount as int)
        }),
        can_move(take.exchange_state.lamports, take.taker.lamports, initializer_amount),
    ensures
        ({
            let opened = run(
                before,
                rent,
                initialize_sol_token_actions(
                    open,
                    program_id,
                    exchange_idx,
                    initializer_amount,
                    taker_amount,
                    spec_native_mint().unwrap(),
                ),
            ).unwrap();
            let run_taken = run(opened, rent, exchange_sol_token_actions(take));
            let taken = run_taken.unwrap();
            let initializer = open.initializer.key@;
            let taker = open.taker@;
            let receive = take.initializer_receive_token_account.key@;
            let pay = take.taker_withdraw_token_account.key@;
            &&& run_taken is Some
            &&& !taken.is_open(open.exchange_state@)
            &&& taken.lamports_of(initializer) == before.lamports_of(initializer) + before.lamports_of(
                open.exchange_state@,
            ) - initializer_amount
            &&& taken.lamports_of(taker) == before.lamports_of(taker) + initializer_amount
            &&& taken.lamports_of(open.exchange_state@) == 0
            &&& taken.tokens_of(receive) == before.tokens_of(receive) + taker_amount
            &&& taken.tokens_of(pay) == before.tokens_of(pay) - taker_amount
        }),
{
    lemma_all_checks_hold(open.checks(program_id, exchange_idx));
    lemma_all_checks_hold(take.checks(program_id, exchange_idx));
    assert(take.checks(program_id, exchange_idx)[0].0);
    assert(take.checks(program_id, exchange_idx)[1].0);
    assert(take.checks(program_id, exchange_idx)[2].0);
    assert(take.checks(program_id, exchange_idx)[3].0);
    assert(take.checks(program_id, exchange_idx)[4].0);
    assert(take.checks(program_id, exchange_idx)[5].0);
    assert(take.checks(program_id, exchange_idx)[6].0);
    assert(take.checks(program_id, exchange_idx)[7].0);
    assert(take.checks(program_id, exchange_idx)[8].0);
    assert(take.checks(program_id, exchange_idx)[9].0);
    assert(take.checks(program_id, exchange_idx)[10].0);
    assert(open.checks(program_id, exchange_idx)[1].0);
    // Both instructions derive the state account from the same seeds.
    assert(take.state_seeds(exchange_idx) =~= open.state_seeds(exchange_idx));
    reveal_with_fuel(run, 5);
}

/// Once an opening of a tokens-for-SOL exchange has completed, taking it
/// completes where the taker can pay, and leaves each party with what it
/// had before the offer plus the swap: the
/// offered tokens move from the initializer's funding account to the taker's
/// receiving account, the asked lamports from the taker to the initializer,
/// who also gets back both rents (with whatever the two addresses held
/// before); the escrow wallet ends with no tokens and both accounts with no
/// lamports.
pub proof fn taking_opened_token_sol_offer_swaps_the_amounts(
    open: InitializeTokenSol,
    take: ExchangeTokenSol,
    program_id: Seq<u8>,
    exchange_idx: u64,
    initializer_amount: u64,
    taker_amount: u64,
    before: Ledger,
    rent: Rent,
)
    requires
        first_failure(open.checks(program_id, exchange_idx, initializer_amount)) is None,
        first_failure(take.checks(program_id, exchange_idx)) is None,
        spec_native_mint() is Some,
        take.exchange_state.data@ == opened_state(
            exchange_idx,
            open.initializer.key@,
            open.taker@,
            open.initializer_mint@,
            spec_native_mint().unwrap(),
            initializer_amount,
            taker_amount,
        ),
        ({
            let tokens = seq![
                open.initializer_withdraw_token_account.key@,
                open.escrow_wallet@,
                take.taker_receive_token_account.key@,
            ];
            let lamports = seq![open.initializer.key@, open.exchange_state@, open.escrow_wallet@, open.taker@];
            &&& forall|i: int, j: int| 0 <= i < j < 3 ==> tokens[i] != tokens[j]
            &&& forall|i: int, j: int| 0 <= i < j < 4 ==> lamports[i] != lamports[j]
        }),
        ({
            let opened = run(
                before,
                rent,
                initialize_token_sol_actions(
                    open,
                    program_id,
                    exchange_idx,
                    initializer_amount,
                    taker_amount,
                    spec_native_mint().unwrap(),
                ),
            );
            opened is Some
        }),
        !before.is_open(open.taker@),
        before.lamports_of(open.taker@) >= taker_amount,
        ({
            let receive = take.taker_receive_token_account;
            before.holds(receive.key@, receive.mint@, receive.owner@, receive.amount as int)
        }),
    ensures
        ({
            let opened = run(
                before,
                rent,
                initialize_token_sol_actions(
                    open,
                    program_id,
                    exchange_idx,
                    initializer_amount,
                    taker_amount,
                    spec_native_mint().unwrap(),
                ),
            ).unwrap();
            let run_taken = run(opened, rent, exchange_token_sol_actions(take, program_id, exchange_idx));
            let taken = run_taken.unwrap();
            let initializer = open.initializer.key@;
            let taker = open.taker@;
            let funding = open.initializer_withdraw_token_account.key@;
            let receive = take.taker_receive_token_account.key@;
            &&& run_taken is Some
            &&& !taken.is_open(open.exchange_state@)
            &&& !taken.is_open(open.escrow_wallet@)
            &&& taken.tokens_of(funding) == before.tokens_of(funding) - initializer_amount
            &&& taken.tokens_of(receive) == before.tokens_of(receive) + initializer_amount
            &&& taken.tokens_of(open.escrow_wallet@) == 0
            &&& taken.lamports_of(initializer) == before.lamports_of(initializer) + taker_amount
                + before.lamports_of(open.exchange_state@) + before.lamports_of(open.escrow_wallet@)
            &&& taken.lamports_of(taker) == before.lamports_of(taker) - taker_amount
            &&& taken.lamports_of(open.exchange_state@) == 0
            &&& taken.lamports_of(open.escrow_wallet@) == 0
        }),
{
    let tokens = seq![
        open.initializer_withdraw_token_account.key@,
        open.escrow_wallet@,
        take.taker_receive_token_account.key@,
    ];
    let lamports = seq![open.initializer.key@, open.exchange_state@, open.escrow_wallet@, open.taker@];
    assert(tokens[0] != tokens[1] && tokens[0] != tokens[2] && tokens[1] != tokens[2]);
    assert(lamports[0] != lamports[1] && lamports[0] != lamports[2] && lamports[0] != lamports[3]);
    assert(lamports[1] != lamports[2] && lamports[1] != lamports[3] && lamports[2] != lamports[3]);
    lemma_all_checks_hold(open.checks(program_id, exchange_idx, initializer_amount));
    lemma_all_checks_hold(take.checks(program_id, exchange_idx));
    assert(take.checks(program_id, exchange_idx)[0].0);
    assert(take.checks(program_id, exchange_idx)[1].0);
    assert(take.checks(program_id, exchange_idx)[2].0);
    assert(take.checks(program_id, exchange_idx)[3].0);
    assert(take.checks(program_id, exchange_idx)[4].0);
    assert(take.checks(program_id, exchange_idx)[5].0);
    assert(take.checks(program_id, exchange_idx)[6].0);
    assert(take.checks(program_id, exchange_idx)[7].0);
    assert(take.checks(program_id, exchange_idx)[8].0);
    assert(take.checks(program_id, exchange_idx)[9].0);
    assert(open.checks(program_id, exchange_idx, initializer_amount)[1].0);
    assert(open.checks(program_id, exchange_idx, initializer_amount)[2].0);
    // Both instructions derive the two accounts from the same seeds.
    assert(take.state_seeds(exchange_idx) =~= open.state_seeds(exchange_idx));
    assert(take.wallet_seeds(exchange_idx) =~= open.wallet_seeds(exchange_idx));
    reveal_with_fuel(run, 5);
}

/// Once an opening of a tokens-for-tokens exchange has completed, taking it
/// completes where the taker's accounts allow, and leaves each party with
/// what it had before the offer plus the swap: the
/// offered tokens move from the initializer's funding account to the taker's
/// receiving account, the asked tokens from the taker's paying account to the
/// initializer's receiving account, and the initializer gets back both rents
/// (with whatever the two addresses held before); the escrow wallet ends with
/// no tokens and both accounts with no lamports.
pub proof fn taking_opened_token_token_offer_swaps_the_amounts(
    open: InitializeTokenToken,
    take: ExchangeTokenToken,
    program_id: Seq<u8>,
    exchange_idx: u64,
    initializer_amount: u64,
    taker_amount: u64,
    before: Ledger,
    rent: Rent,
)
    requires
        first_failure(open.checks(program_id, exchange_idx, initializer_amount)) is None,
        first_failure(take.checks(program_id, exchange_idx)) is None,
        take.exchange_state.data@ == opened_state(
            exchange_idx,
            open.initializer.key@,
            open.taker@,
            open.initializer_mint@,
            open.taker_mint@,
            initializer_amount,
            taker_amount,
        ),
        ({
            let tokens = seq![
                open.initializer_withdraw_token_account.key@,
                open.escrow_wallet@,
                take.taker_receive_token_account.key@,
                take.taker_withdraw_token_account.key@,
                take.initializer_receive_token_account.key@,
            ];
            let lamports = seq![open.initializer.key@, open.exchange_state@, open.escrow_wallet@];
            &&& forall|i: int, j: int| 0 <= i < j < 5 ==> tokens[i] != tokens[j]
            &&& forall|i: int, j: int| 0 <= i < j < 3 ==> lamports[i] != lamports[j]
        }),
        ({
            let opened = run(
                before,
                rent,
                initialize_token_token_actions(open, program_id, exchange_idx, initializer_amount, taker_amount),
            );
            opened is Some
        }),
        ({
            let initializer_receive = take.initializer_receive_token_account;
            let taker_pay = take.taker_withdraw_token_account;
            let taker_receive = take.taker_receive_token_account;
            &&& before.holds(
                initializer_receive.key@,
                initializer_receive.mint@,
                initializer_receive.owner@,
                initializer_receive.amount as int,
            )
            &&& before.holds(taker_pay.key@, taker_pay.mint@, taker_pay.owner@, taker_pay.amount as int)
            &&& before.holds(taker_receive.key@, taker_receive.mint@, taker_receive.owner@, taker_receive.amount as int)
        }),
    ensures
        ({
            let opened = run(
                before,
                rent,
                initialize_token_token_actions(open, program_id, exchange_idx, initializer_amount, taker_amount),
            ).unwrap();
            let run_taken = run(opened, rent, exchange_token_token_actions(take, program_id, exchange_idx));
            let taken = run_taken.unwrap();
            let initializer = open.initializer.key@;
            let funding = open.initializer_withdraw_token_account.key@;
            let taker_receive = take.taker_receive_token_account.key@;
            let taker_pay = take.taker_withdraw_token_account.key@;
            let initializer_receive = take.initializer_receive_token_account.key@;
            &&& run_taken is Some
            &&& !taken.is_open(open.exchange_state@)
            &&& !taken.is_open(open.escrow_wallet@)
            &&& taken.tokens_of(funding) == before.tokens_of(funding) - initializer_amount
            &&& taken.tokens_of(taker_receive) == before.tokens_of(taker_receive) + initializer_amount
            &&& taken.tokens_of(taker_pay) == before.tokens_of(taker_pay) - taker_amount
            &&& taken.tokens_of(initializer_receive) == before.tokens_of(initializer_receive) + taker_amount
            &&& taken.tokens_of(open.escrow_wallet@) == 0
            &&& taken.lamports_of(initializer) == before.lamports_of(initializer) + before.lamports_of(
                open.exchange_state@,
            ) + before.lamports_of(open.escrow_wallet@)
            &&& taken.lamports_of(open.exchange_state@) == 0
            &&& taken.lamports_of(open.escrow_wallet@) == 0
        }),
{
    let tokens = seq![
        open.initializer_withdraw_token_account.key@,
        open.escrow_wallet@,
        take.taker_receive_token_account.key@,
        take.taker_withdraw_token_account.key@,
        take.initializer_receive_token_account.key@,
    ];
    let lamports = seq![open.initializer.key@, open.exchange_state@, open.escrow_wallet@];
    assert(tokens[0] != tokens[1] && tokens[0] != tokens[2] && tokens[0] != tokens[3] && tokens[0] != tokens[4]);
    assert(tokens[1] != tokens[2] && tokens[1] != tokens[3] && tokens[1] != tokens[4]);
    assert(tokens[2] != tokens[3] && tokens[2] != tokens[4] && tokens[3] != tokens[4]);
    assert(lamports[0] != lamports[1] && lamports[0] != lamports[2] && lamports[1] != lamports[2]);
    lemma_all_checks_hold(open.checks(program_id, exchange_idx, initializer_amount));
    lemma_all_checks_hold(take.checks(program_id, exchange_idx));
    assert(take.checks(program_id, exchange_idx)[0].0);
    assert(take.checks(program_id, exchange_idx)[1].0);
    assert(take.checks(program_id, exchange_idx)[2].0);
    assert(take.checks(program_id, exchange_idx)[3].0);
    assert(take.checks(program_id, exchange_idx)[4].0);
    assert(take.checks(program_id, exchange_idx)[5].0);
    assert(take.checks(program_id, exchange_idx)[6].0);
    assert(take.checks(program_id, exchange_idx)[7].0);
    assert(take.checks(program_id, exchange_idx)[8].0);
    assert(take.checks(program_id, exchange_idx)[9].0);
    assert(take.checks(program_id, exchange_idx)[10].0);
    assert(take.checks(program_id, exchange_idx)[11].0);
    assert(take.checks(program_id, exchange_idx)[12].0);
    assert(take.checks(program_id, exchange_idx)[13].0);
    assert(take.checks(program_id, exchange_idx)[14].0);
    assert(take.checks(program_id, exchange_idx)[15].0);
    assert(open.checks(program_id, exchange_idx, initializer_amount)[1].0);
    assert(open.checks(program_id, exchange_idx, initializer_amount)[2].0);
    // Both instructions derive the two accounts from the same seeds.
    assert(take.state_seeds(exchange_idx) =~= open.state_seeds(exchange_idx));
    assert(take.wallet_seeds(exchange_idx) =~= open.wallet_seeds(exchange_idx));
    reveal_with_fuel(run, 5);
}

// ---------- accounts are opened once and settled once ----------

/// Opening refuses an exchange whose state account is still open (and, for
/// an offer of tokens, whose escrow wallet is): the instruction fails and
/// changes nothing, so an open exchange's terms and escrow are never replaced.
pub proof fn opening_refuses_an_open_exchange(
    open_sol_token: InitializeSolToken,
    open_token_sol: InitializeTokenSol,
    open_token_token: InitializeTokenToken,
    program_id: Seq<u8>,
    exchange_idx: u64,
    initializer_amount: u64,
    taker_amount: u64,
    native_mint: Seq<u8>,
    before: Ledger,
    rent: Rent,
)
    ensures
        before.is_open(open_sol_token.exchange_state@) ==> run(
            before,
            rent,
            initialize_sol_token_actions(
                open_sol_token,
                program_id,
                exchange_idx,
                initializer_amount,
                taker_amount,
                native_mint,
            ),
        ) is None,
        before.is_open(open_token_sol.exchange_state@) || before.is_open(open_token_sol.escrow_wallet@) ==> run(
            before,
            rent,
            initialize_token_sol_actions(
                open_token_sol,
                program_id,
                exchange_idx,
                initializer_amount,
                taker_amount,
                native_mint,
            ),
        ) is None,
        before.is_open(open_token_token.exchange_state@) || before.is_open(open_token_token.escrow_wallet@) ==> run(
            before,
            rent,
            initialize_token_token_actions(
                open_token_token,
                program_id,
                exchange_idx,
                initializer_amount,
                taker_amount,
            ),
        ) is None,
{
    reveal_with_fuel(run, 3);
}

/// Whether action `i` of `actions` closes the state account at `state`.
pub open spec fn closes_at(actions: Seq<ActionView>, i: int, state: Seq<u8>) -> bool {
    &&& 0 <= i < actions.len()
    &&& actions[i] is CloseStateAccount
    &&& actions[i]->CloseStateAccount_account == state
}

/// Whether no action of `actions` creates an account.
pub open spec fn creates_nothing(actions: Seq<ActionView>) -> bool {
    forall|i: int|
        0 <= i < actions.len() ==> !(#[trigger] actions[i] is CreateStateAccount) && !(actions[i] is CreateTokenAccount)
}

/// Whether `actions` close the state account at `state` and create no account:
/// what every withdrawal and every take does to its exchange.
pub open spec fn settles(actions: Seq<ActionView>, state: Seq<u8>) -> bool {
    &&& exists|i: int| closes_at(actions, i, state)
    &&& creates_nothing(actions)
}

/// Every withdrawal and every take settles its exchange's state account.
pub proof fn withdrawing_and_taking_settle_the_exchange(
    cancel_sol_token: CancelSolToken,
    cancel_token_sol: CancelTokenSol,
    cancel_token_token: CancelTokenToken,
    exchange_sol_token: ExchangeSolToken,
    exchange_token_sol: ExchangeTokenSol,
    exchange_token_token: ExchangeTokenToken,
    program_id: Seq<u8>,
    exchange_idx: u64,
)
    ensures
        settles(cancel_sol_token_actions(cancel_sol_token), cancel_sol_token.exchange_state.key@),
        settles(
            cancel_token_sol_actions(cancel_token_sol, program_id, exchange_idx),
            cancel_token_sol.exchange_state.key@,
        ),
        settles(
            cancel_token_token_actions(cancel_token_token, program_id, exchange_idx),
            cancel_token_token.exchange_state.key@,
        ),
        settles(exchange_sol_token_actions(exchange_sol_token), exchange_sol_token.exchange_state.key@),
        settles(
            exchange_token_sol_actions(exchange_token_sol, program_id, exchange_idx),
            exchange_token_sol.exchange_state.key@,
        ),
        settles(
            exchange_token_token_actions(exchange_token_token, program_id, exchange_idx),
            exchange_token_token.exchange_state.key@,
        ),
{
    assert(closes_at(cancel_sol_token_actions(cancel_sol_token), 2, cancel_sol_token.exchange_state.key@));
    assert(closes_at(cancel_token_sol_actions(cancel_token_sol, program_id, exchange_idx), 2, cancel_token_sol.exchange_state.key@));
    assert(closes_at(cancel_token_token_actions(cancel_token_token, program_id, exchange_idx), 2, cancel_token_token.exchange_state.key@));
    assert(closes_at(exchange_sol_token_actions(exchange_sol_token), 3, exchange_sol_token.exchange_state.key@));
    assert(closes_at(exchange_token_sol_actions(exchange_token_sol, program_id, exchange_idx), 3, exchange_token_sol.exchange_state.key@));
    assert(closes_at(exchange_token_token_actions(exchange_token_token, program_id, exchange_idx), 3, exchange_token_token.exchange_state.key@));
}

/// Actions that close a state account that is not open, and create none,
/// fail.
pub proof fn settling_a_closed_exchange_fails(ledger: Ledger, rent: Rent, actions: Seq<ActionView>, state: Seq<u8>)
    requires
        !ledger.is_open(state),
        settles(actions, state),
    ensures
        run(ledger, rent, actions) is None,
    decreases actions.len(),
{
    let i = choose|i: int| closes_at(actions, i, state);
    if i == 0 {
    } else {
        assert(!(actions[0] is CreateStateAccount) && !(actions[0] is CreateTokenAccount));
        match step(ledger, rent, actions[0]) {
            Some(next) => {
                assert(!next.is_open(state));
                let rest = actions.drop_first();
                assert(rest[i - 1] == actions[i]);
                assert(closes_at(rest, i - 1, state));
                assert forall|j: int| 0 <= j < rest.len() implies !(#[trigger] rest[j] is CreateStateAccount) && !(
                rest[j] is CreateTokenAccount) by {
                    assert(rest[j] == actions[j + 1]);
                }
                settling_a_closed_exchange_fails(next, rent, rest, state);
            },
            None => {},
        }
    }
}

/// Whether no action of `actions` creates an account at `key`: what every
/// instruction but an opening of the exchange at `key` does.
pub open spec fn creates_nothing_at(actions: Seq<ActionView>, key: Seq<u8>) -> bool {
    forall|i: int|
        0 <= i < actions.len() ==> (#[trigger] actions[i] is CreateStateAccount ==> actions[i]->CreateStateAccount_account
            != key) && (actions[i] is CreateTokenAccount ==> actions[i]->CreateTokenAccount_account != key)
}

/// An exchange is settled at most once: once a withdrawal or a take of it has
/// completed, any later withdrawal or take of the same state account fails,
/// whatever completed in between, unless that reopened the state account.
pub proof fn an_exchange_is_settled_at_most_once(
    before: Ledger,
    rent: Rent,
    first: Seq<ActionView>,
    between: Seq<ActionView>,
    second: Seq<ActionView>,
    state: Seq<u8>,
)
    requires
        settles(first, state),
        settles(second, state),
        creates_nothing_at(between, state),
        run(before, rent, first) is Some,
        run(run(before, rent, first).unwrap(), rent, between) is Some,
    ensures
        run(run(run(before, rent, first).unwrap(), rent, between).unwrap(), rent, second) is None,
{
    let settled = run(before, rent, first).unwrap();
    lemma_settling_closes(before, rent, first, state);
    lemma_closed_stays_closed(settled, rent, between, state);
    settling_a_closed_exchange_fails(run(settled, rent, between).unwrap(), rent, second, state);
}

/// A completed run of actions that create nothing at `key` leaves an account
/// that is not open at `key` still not open.
pub proof fn lemma_closed_stays_closed(ledger: Ledger, rent: Rent, actions: Seq<ActionView>, key: Seq<u8>)
    requires
        !ledger.is_open(key),
        creates_nothing_at(actions, key),
        run(ledger, rent, actions) is Some,
    ensures
        !run(ledger, rent, actions).unwrap().is_open(key),
    decreases actions.len(),
{
    if actions.len() > 0 {
        let next = step(ledger, rent, actions[0]).unwrap();
        let rest = actions.drop_first();
        assert(actions[0] is CreateStateAccount ==> actions[0]->CreateStateAccount_account != key);
        assert(actions[0] is CreateTokenAccount ==> actions[0]->CreateTokenAccount_account != key);
        assert(!next.is_open(key));
        assert forall|j: int| 0 <= j < rest.len() implies (#[trigger] rest[j] is CreateStateAccount
            ==> rest[j]->CreateStateAccount_account != key) && (rest[j] is CreateTokenAccount
            ==> rest[j]->CreateTokenAccount_account != key) by {
            assert(rest[j] == actions[j + 1]);
        }
        lemma_closed_stays_closed(next, rent, rest, key);
    }
}

/// A completed run of actions that settle `state` leaves it closed.
pub proof fn lemma_settling_closes(ledger: Ledger, rent: Rent, actions: Seq<ActionView>, state: Seq<u8>)
    requires
        creates_nothing(actions),
        run(ledger, rent, actions) is Some,
        !ledger.is_open(state) || (exists|i: int| closes_at(actions, i, state)),
    ensures
        !run(ledger, rent, actions).unwrap().is_open(state),
    decreases actions.len(),
{
    if actions.len() > 0 {
        let next = step(ledger, rent, actions[0]).unwrap();
        let rest = actions.drop_first();
        assert(!(actions[0] is CreateStateAccount) && !(actions[0] is CreateTokenAccount));
        assert forall|j: int| 0 <= j < rest.len() implies !(#[trigger] rest[j] is CreateStateAccount) && !(
        rest[j] is CreateTokenAccount) by {
            assert(rest[j] == actions[j + 1]);
        }
        if ledger.is_open(state) {
            let i = choose|i: int| closes_at(actions, i, state);
            if i > 0 {
                assert(rest[i - 1] == actions[i]);
                assert(closes_at(rest, i - 1, state));
            } else {
                assert(!next.is_open(state));
            }
        } else {
            assert(!next.is_open(state));
        }
        lemma_settling_closes(next, rent, rest, state);
    }
}

/// Withdrawing an offer of tokens completes when its accounts pass their rules and
/// the ledger holds them as the instruction reads them: the initializer's
/// token account open and not frozen, the state account open, and the escrow
/// wallet open, not frozen, owned by the state account and holding exactly the
/// offered amount.
pub proof fn withdrawing_token_sol_completes(
    accounts: CancelTokenSol,
    program_id: Seq<u8>,
    exchange_idx: u64,
    before: Ledger,
    rent: Rent,
)
    requires
        first_failure(accounts.checks(program_id, exchange_idx)) is None,
        before.holds(
            accounts.initializer_withdraw_token_account.key@,
            accounts.initializer_withdraw_token_account.mint@,
            accounts.initializer_withdraw_token_account.owner@,
            accounts.initializer_withdraw_token_account.amount as int,
        ),
        before.holds(
            accounts.escrow_wallet.key@,
            accounts.escrow_wallet.mint@,
            accounts.escrow_wallet.owner@,
            accounts.escrow_wallet.amount as int,
        ),
        accounts.escrow_wallet.owner@ == accounts.exchange_state.key@,
        accounts.escrow_wallet.amount == accounts.exchange_state.data.initializer_amount,
        before.is_open(accounts.exchange_state.key@),
        accounts.exchange_state.key@ != accounts.escrow_wallet.key@,
        accounts.initializer_withdraw_token_account.key@ != accounts.escrow_wallet.key@,
    ensures
        run(before, rent, cancel_token_sol_actions(accounts, program_id, exchange_idx)) is Some,
{
    lemma_all_checks_hold(accounts.checks(program_id, exchange_idx));
    assert(accounts.checks(program_id, exchange_idx)[0].0);
    assert(accounts.checks(program_id, exchange_idx)[1].0);
    assert(accounts.checks(program_id, exchange_idx)[2].0);
    assert(accounts.checks(program_id, exchange_idx)[3].0);
    assert(accounts.checks(program_id, exchange_idx)[4].0);
    assert(accounts.checks(program_id, exchange_idx)[5].0);
    assert(accounts.checks(program_id, exchange_idx)[6].0);
    assert(accounts.checks(program_id, exchange_idx)[7].0);
    assert(accounts.checks(program_id, exchange_idx)[8].0);
    assert(accounts.checks(program_id, exchange_idx)[9].0);
    reveal_with_fuel(run, 4);
}

/// Withdrawing an offer of tokens completes when its accounts pass their rules and
/// the ledger holds them as the instruction reads them: the initializer's
/// token account open and not frozen, the state account open, and the escrow
/// wallet open, not frozen, owned by the state account and holding exactly the
/// offered amount.
pub proof fn withdrawing_token_token_completes(
    accounts: CancelTokenToken,
    program_id: Seq<u8>,
    exchange_idx: u64,
    before: Ledger,
    rent: Rent,
)
    requires
        first_failure(accounts.checks(program_id, exchange_idx)) is None,
        before.holds(
            accounts.initializer_withdraw_token_account.key@,
            accounts.initializer_withdraw_token_account.mint@,
            accounts.initializer_withdraw_token_account.owner@,
            accounts.initializer_withdraw_token_account.amount as int,
        ),
        before.holds(
            accounts.escrow_wallet.key@,
            accounts.escrow_wallet.mint@,
            accounts.escrow_wallet.owner@,
            accounts.escrow_wallet.amount as int,
        ),
        accounts.escrow_wallet.owner@ == accounts.exchange_state.key@,
        accounts.escrow_wallet.amount == accounts.exchange_state.data.initializer_amount,
        before.is_open(accounts.exchange_state.key@),
        accounts.exchange_state.key@ != accounts.escrow_wallet.key@,
        accounts.initializer_withdraw_token_account.key@ != accounts.escrow_wallet.key@,
    ensures
        run(before, rent, cancel_token_token_actions(accounts, program_id, exchange_idx)) is Some,
{
    lemma_all_checks_hold(accounts.checks(program_id, exchange_idx));
    assert(accounts.checks(program_id, exchange_idx)[0].0);
    assert(accounts.checks(program_id, exchange_idx)[1].0);
    assert(accounts.checks(program_id, exchange_idx)[2].0);
    assert(accounts.checks(program_id, exchange_idx)[3].0);
    assert(accounts.checks(program_id, exchange_idx)[4].0);
    assert(accounts.checks(program_id, exchange_idx)[5].0);
    assert(accounts.checks(program_id, exchange_idx)[6].0);
    assert(accounts.checks(program_id, exchange_idx)[7].0);
    assert(accounts.checks(program_id, exchange_idx)[8].0);
    assert(accounts.checks(program_id, exchange_idx)[9].0);
    assert(accounts.checks(program_id, exchange_idx)[10].0);
    reveal_with_fuel(run, 4);
}

/// Taking a SOL-for-tokens offer completes when its accounts pass their rules,
/// the two balances it sets stay in range, and the ledger holds the accounts
/// as the instruction reads them: the two token accounts open and not frozen,
/// the state account open.
pub proof fn taking_sol_token_completes(
    accounts: ExchangeSolToken,
    program_id: Seq<u8>,
    exchange_idx: u64,
    before: Ledger,
    rent: Rent,
)
    requires
        first_failure(accounts.checks(program_id, exchange_idx)) is None,
        can_move(
            accounts.exchange_state.lamports,
            accounts.taker.lamports,
            accounts.exchange_state.data.initializer_amount,
        ),
        accounts.exchange_state.lamports == before.lamports_of(accounts.exchange_state.key@),
        accounts.taker.lamports == before.lamports_of(accounts.taker.key@),
        before.holds(
            accounts.initializer_receive_token_account.key@,
            accounts.initializer_receive_token_account.mint@,
            accounts.initializer_receive_token_account.owner@,
            accounts.initializer_receive_token_account.amount as int,
        ),
        before.holds(
            accounts.taker_withdraw_token_account.key@,
            accounts.taker_withdraw_token_account.mint@,
            accounts.taker_withdraw_token_account.owner@,
            accounts.taker_withdraw_token_account.amount as int,
        ),
        before.is_open(accounts.exchange_state.key@),
    ensures
        run(before, rent, exchange_sol_token_actions(accounts)) is Some,
{
    lemma_all_checks_hold(accounts.checks(program_id, exchange_idx));
    assert(accounts.checks(program_id, exchange_idx)[0].0);
    assert(accounts.checks(program_id, exchange_idx)[1].0);
    assert(accounts.checks(program_id, exchange_idx)[2].0);
    assert(accounts.checks(program_id, exchange_idx)[3].0);
    assert(accounts.checks(program_id, exchange_idx)[4].0);
    assert(accounts.checks(program_id, exchange_idx)[5].0);
    assert(accounts.checks(program_id, exchange_idx)[6].0);
    assert(accounts.checks(program_id, exchange_idx)[7].0);
    assert(accounts.checks(program_id, exchange_idx)[8].0);
    assert(accounts.checks(program_id, exchange_idx)[9].0);
    assert(accounts.checks(program_id, exchange_idx)[10].0);
    reveal_with_fuel(run, 5);
}

/// Taking a tokens-for-SOL offer completes when its accounts pass their rules,
/// the taker is a plain account holding the asked lamports, and the ledger
/// holds the accounts as the instruction reads them: the taker's receiving
/// account open and not frozen, the state account open, and the escrow wallet
/// open, not frozen, owned by the state account and holding exactly the
/// offered amount.
pub proof fn taking_token_sol_completes(
    accounts: ExchangeTokenSol,
    program_id: Seq<u8>,
    exchange_idx: u64,
    before: Ledger,
    rent: Rent,
)
    requires
        first_failure(accounts.checks(program_id, exchange_idx)) is None,
        !before.is_open(accounts.taker.key@),
        before.lamports_of(accounts.taker.key@) >= accounts.exchange_state.data.taker_amount,
        before.holds(
            accounts.taker_receive_token_account.key@,
            accounts.taker_receive_token_account.mint@,
            accounts.taker_receive_token_account.owner@,
            accounts.taker_receive_token_account.amount as int,
        ),
        before.holds(
            accounts.escrow_wallet.key@,
            accounts.escrow_wallet.mint@,
            accounts.escrow_wallet.owner@,
            accounts.escrow_wallet.amount as int,
        ),
        accounts.escrow_wallet.owner@ == accounts.exchange_state.key@,
        accounts.escrow_wallet.amount == accounts.exchange_state.data.initializer_amount,
        before.is_open(accounts.exchange_state.key@),
        accounts.exchange_state.key@ != accounts.escrow_wallet.key@,
        accounts.taker_receive_token_account.key@ != accounts.escrow_wallet.key@,
    ensures
        run(before, rent, exchange_token_sol_actions(accounts, program_id, exchange_idx)) is Some,
{
    lemma_all_checks_hold(accounts.checks(program_id, exchange_idx));
    assert(accounts.checks(program_id, exchange_idx)[0].0);
    assert(accounts.checks(program_id, exchange_idx)[1].0);
    assert(accounts.checks(program_id, exchange_idx)[2].0);
    assert(accounts.checks(program_id, exchange_idx)[3].0);
    assert(accounts.checks(program_id, exchange_idx)[4].0);
    assert(accounts.checks(program_id, exchange_idx)[5].0);
    assert(accounts.checks(program_id, exchange_idx)[6].0);
    assert(accounts.checks(program_id, exchange_idx)[7].0);
    assert(accounts.checks(program_id, exchange_idx)[8].0);
    assert(accounts.checks(program_id, exchange_idx)[9].0);
    reveal_with_fuel(run, 5);
}

/// Taking a tokens-for-tokens offer completes when its accounts pass their
/// rules and the ledger holds them as the instruction reads them: the three
/// token accounts of the parties open and not frozen, the state account open,
/// and the escrow wallet open, not frozen, owned by the state account and
/// holding exactly the offered amount.
pub proof fn taking_token_token_completes(
    accounts: ExchangeTokenToken,
    program_id: Seq<u8>,
    exchange_idx: u64,
    before: Ledger,
    rent: Rent,
)
    requires
        first_failure(accounts.checks(program_id, exchange_idx)) is None,
        before.holds(
            accounts.initializer_receive_token_account.key@,
            accounts.initializer_receive_token_account.mint@,
            accounts.initializer_receive_token_account.owner@,
            accounts.initializer_receive_token_account.amount as int,
        ),
        before.holds(
            accounts.taker_withdraw_token_account.key@,
            accounts.taker_withdraw_token_account.mint@,
            accounts.taker_withdraw_token_account.owner@,
            accounts.taker_withdraw_token_account.amount as int,
        ),
        before.holds(
            accounts.taker_receive_token_account.key@,
            accounts.taker_receive_token_account.mint@,
            accounts.taker_receive_token_account.owner@,
            accounts.taker_receive_token_account.amount as int,
        ),
        before.holds(
            accounts.escrow_wallet.key@,
            accounts.escrow_wallet.mint@,
            accounts.escrow_wallet.owner@,
            accounts.escrow_wallet.amount as int,
        ),
        accounts.escrow_wallet.owner@ == accounts.exchange_state.key@,
        accounts.escrow_wallet.amount == accounts.exchange_state.data.initializer_amount,
        before.is_open(accounts.exchange_state.key@),
        accounts.exchange_state.key@ != accounts.escrow_wallet.key@,
        ({
            let keys = seq![
                accounts.initializer_receive_token_account.key@,
                accounts.taker_withdraw_token_account.key@,
                accounts.taker_receive_token_account.key@,
                accounts.escrow_wallet.key@,
            ];
            forall|i: int, j: int| 0 <= i < j < 4 ==> keys[i] != keys[j]
        }),
    ensures
        run(before, rent, exchange_token_token_actions(accounts, program_id, exchange_idx)) is Some,
{
    let keys = seq![
        accounts.initializer_receive_token_account.key@,
        accounts.taker_withdraw_token_account.key@,
        accounts.taker_receive_token_account.key@,
        accounts.escrow_wallet.key@,
    ];
    assert(keys[0] != keys[1] && keys[0] != keys[2] && keys[0] != keys[3]);
    assert(keys[1] != keys[2] && keys[1] != keys[3] && keys[2] != keys[3]);
    lemma_all_checks_hold(accounts.checks(program_id, exchange_idx));
    assert(accounts.checks(program_id, exchange_idx)[0].0);
    assert(accounts.checks(program_id, exchange_idx)[1].0);
    assert(accounts.checks(program_id, exchange_idx)[2].0);
    assert(accounts.checks(program_id, exchange_idx)[3].0);
    assert(accounts.checks(program_id, exchange_idx)[4].0);
    assert(accounts.checks(program_id, exchange_idx)[5].0);
    assert(accounts.checks(program_id, exchange_idx)[6].0);
    assert(accounts.checks(program_id, exchange_idx)[7].0);
    assert(accounts.checks(program_id, exchange_idx)[8].0);
    assert(accounts.checks(program_id, exchange_idx)[9].0);
    assert(accounts.checks(program_id, exchange_idx)[10].0);
    assert(accounts.checks(program_id, exchange_idx)[11].0);
    assert(accounts.checks(program_id, exchange_idx)[12].0);
    assert(accounts.checks(program_id, exchange_idx)[13].0);
    assert(accounts.checks(program_id, exchange_idx)[14].0);
    assert(accounts.checks(program_id, exchange_idx)[15].0);
    reveal_with_fuel(run, 5);
}

} // verus!
