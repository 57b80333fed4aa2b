use vstd::prelude::*;

use crate::accounts::{at_derived_address, first_failure};
use crate::cancel::{CancelSolToken, CancelTokenSol, CancelTokenToken};
use crate::exchange::{ExchangeSolToken, ExchangeTokenSol, ExchangeTokenToken};
use crate::actions::ActionView;
use crate::initialize::{
    initialize_sol_token_actions, initialize_token_sol_actions, initialize_token_token_actions, InitializeSolToken,
    InitializeTokenSol, InitializeTokenToken,
};
use crate::lamports::can_move;
use crate::state::ExchangeStateView;
use crate::seeds::{exchange_seeds, sol_token_keys, state_tag, token_sol_keys, token_token_keys, wallet_tag};

verus! {

/// Opening a SOL-for-tokens exchange passes its account rules exactly when the
/// initializer signs and the state account sits at the address derived from
/// the exchange's seeds.
pub proof fn opening_sol_token_passes_exactly_when(open: InitializeSolToken, program_id: Seq<u8>, exchange_idx: u64)
    ensures
        (first_failure(open.checks(program_id, exchange_idx)) is None) <==> ({
            let keys = sol_token_keys(open.initializer.key@, open.taker@, open.taker_mint@);
            &&& open.initializer.is_signer
            &&& at_derived_address(open.exchange_state@, exchange_seeds(state_tag(), exchange_idx, keys), program_id)
        }),
{
    reveal_with_fuel(first_failure, 3);
}

/// Opening a tokens-for-SOL exchange passes its account rules exactly when
/// the initializer signs, the state account and the escrow wallet sit at the
/// addresses derived from the exchange's seeds, and the funding account is
/// the initializer's, of the offered mint, and holds at least the offered
/// amount (its whole balance may be offered).
pub proof fn opening_token_sol_passes_exactly_when(
    open: InitializeTokenSol,
    program_id: Seq<u8>,
    exchange_idx: u64,
    initializer_amount: u64,
)
    ensures
        (first_failure(open.checks(program_id, exchange_idx, initializer_amount)) is None) <==> ({
            let keys = token_sol_keys(open.initializer.key@, open.initializer_mint@, open.taker@);
            let funding = open.initializer_withdraw_token_account;
            &&& open.initializer.is_signer
            &&& at_derived_address(open.exchange_state@, exchange_seeds(state_tag(), exchange_idx, keys), program_id)
            &&& at_derived_address(open.escrow_wallet@, exchange_seeds(wallet_tag(), exchange_idx, keys), program_id)
            &&& funding.owner@ == open.initializer.key@
            &&& funding.mint@ == open.initializer_mint@
            &&& funding.amount >= initializer_amount
        }),
{
    reveal_with_fuel(first_failure, 7);
}

/// Opening a tokens-for-tokens exchange passes its account rules exactly when
/// the initializer signs, the state account and the escrow wallet sit at the
/// addresses derived from the exchange's seeds, and the funding account is
/// the initializer's, of the offered mint, and holds at least the offered
/// amount (its whole balance may be offered).
pub proof fn opening_token_token_passes_exactly_when(
    open: InitializeTokenToken,
    program_id: Seq<u8>,
    exchange_idx: u64,
    initializer_amount: u64,
)
    ensures
        (first_failure(open.checks(program_id, exchange_idx, initializer_amount)) is None) <==> ({
            let keys = token_token_keys(open.initializer.key@, open.initializer_mint@, open.taker@, open.taker_mint@);
            let funding = open.initializer_withdraw_token_account;
            &&& open.initializer.is_signer
            &&& at_derived_address(open.exchange_state@, exchange_seeds(state_tag(), exchange_idx, keys), program_id)
            &&& at_derived_address(open.escrow_wallet@, exchange_seeds(wallet_tag(), exchange_idx, keys), program_id)
            &&& funding.owner@ == open.initializer.key@
            &&& funding.mint@ == open.initializer_mint@
            &&& funding.amount >= initializer_amount
        }),
{
    reveal_with_fuel(first_failure, 7);
}

/// Withdrawing a SOL-for-tokens offer passes its account rules exactly when
/// the initializer signs, the state account sits at the address derived from
/// the exchange's seeds and records this initializer, taker and asked mint,
/// and the state account is not the initializer's own account.
pub proof fn withdrawing_sol_token_passes_exactly_when(accounts: CancelSolToken, program_id: Seq<u8>, exchange_idx: u64)
    ensures
        (first_failure(accounts.checks(program_id, exchange_idx)) is None) <==> ({
            let keys = sol_token_keys(accounts.initializer.key@, accounts.taker@, accounts.taker_mint@);
            let state = accounts.exchange_state;
            &&& accounts.initializer.is_signer
            &&& at_derived_address(state.key@, exchange_seeds(state_tag(), exchange_idx, keys), program_id)
            &&& state.data.initializer@ == accounts.initializer.key@
            &&& state.data.taker@ == accounts.taker@
            &&& state.data.taker_mint@ == accounts.taker_mint@
            &&& state.key@ != accounts.initializer.key@
        }),
{
    reveal_with_fuel(first_failure, 7);
}

/// Withdrawing a tokens-for-SOL offer passes its account rules exactly when
/// the initializer signs and gets the tokens back in its own account of the
/// offered mint, the state account and the escrow wallet (of the offered
/// mint) sit at the addresses derived from the exchange's seeds, the state
/// records this initializer, offered mint and taker, and the state account is
/// not the initializer's own account.
pub proof fn withdrawing_token_sol_passes_exactly_when(accounts: CancelTokenSol, program_id: Seq<u8>, exchange_idx: u64)
    ensures
        (first_failure(accounts.checks(program_id, exchange_idx)) is None) <==> ({
            let keys = token_sol_keys(accounts.initializer.key@, accounts.initializer_mint@, accounts.taker@);
            let state = accounts.exchange_state;
            let receive = accounts.initializer_withdraw_token_account;
            &&& accounts.initializer.is_signer
            &&& receive.owner@ == accounts.initializer.key@
            &&& receive.mint@ == accounts.initializer_mint@
            &&& at_derived_address(state.key@, exchange_seeds(state_tag(), exchange_idx, keys), program_id)
            &&& at_derived_address(accounts.escrow_wallet.key@, exchange_seeds(wallet_tag(), exchange_idx, keys), program_id)
            &&& accounts.escrow_wallet.mint@ == accounts.initializer_mint@
            &&& state.data.initializer@ == accounts.initializer.key@
            &&& state.data.initializer_mint@ == accounts.initializer_mint@
            &&& state.data.taker@ == accounts.taker@
            &&& state.key@ != accounts.initializer.key@
        }),
{
    reveal_with_fuel(first_failure, 11);
}

/// Withdrawing a tokens-for-tokens offer passes its account rules exactly
/// when the initializer signs and gets the tokens back in its own account of
/// the offered mint, the state account and the escrow wallet (of the offered
/// mint) sit at the addresses derived from the exchange's seeds, the state
/// records this initializer, offered mint, taker and asked mint, and the state
/// account is not the initializer's own account.
pub proof fn withdrawing_token_token_passes_exactly_when(
    accounts: CancelTokenToken,
    program_id: Seq<u8>,
    exchange_idx: u64,
)
    ensures
        (first_failure(accounts.checks(program_id, exchange_idx)) is None) <==> ({
            let keys = token_token_keys(
                accounts.initializer.key@,
                accounts.initializer_mint@,
                accounts.taker@,
                accounts.taker_mint@,
            );
            let state = accounts.exchange_state;
            let receive = accounts.initializer_withdraw_token_account;
            &&& accounts.initializer.is_signer
            &&& receive.owner@ == accounts.initializer.key@
            &&& receive.mint@ == accounts.initializer_mint@
            &&& at_derived_address(state.key@, exchange_seeds(state_tag(), exchange_idx, keys), program_id)
            &&& at_derived_address(accounts.escrow_wallet.key@, exchange_seeds(wallet_tag(), exchange_idx, keys), program_id)
            &&& accounts.escrow_wallet.mint@ == accounts.initializer_mint@
            &&& state.data.initializer@ == accounts.initializer.key@
            &&& state.data.initializer_mint@ == accounts.initializer_mint@
            &&& state.data.taker@ == accounts.taker@
            &&& state.data.taker_mint@ == accounts.taker_mint@
            &&& state.key@ != accounts.initializer.key@
        }),
{
    reveal_with_fuel(first_failure, 12);
}

/// Taking a SOL-for-tokens offer passes its account rules exactly when the
/// taker signs, pays from its own account of the asked mint holding at least
/// the asked amount, into an account of the asked mint owned by the
/// initializer; the state account sits at the address derived from the
/// exchange's seeds and records this initializer, taker and asked mint; and
/// the state account is not the initializer's own account.
pub proof fn taking_sol_token_passes_exactly_when(accounts: ExchangeSolToken, program_id: Seq<u8>, exchange_idx: u64)
    ensures
        (first_failure(accounts.checks(program_id, exchange_idx)) is None) <==> ({
            let keys = sol_token_keys(accounts.initializer@, accounts.taker.key@, accounts.taker_mint@);
            let state = accounts.exchange_state;
            let pay = accounts.taker_withdraw_token_account;
            let receive = accounts.initializer_receive_token_account;
            &&& accounts.taker.is_signer
            &&& pay.owner@ == accounts.taker.key@
            &&& pay.mint@ == accounts.taker_mint@
            &&& pay.amount >= state.data.taker_amount
            &&& receive.owner@ == accounts.initializer@
            &&& receive.mint@ == accounts.taker_mint@
            &&& at_derived_address(state.key@, exchange_seeds(state_tag(), exchange_idx, keys), program_id)
            &&& state.data.initializer@ == accounts.initializer@
            &&& state.data.taker@ == accounts.taker.key@
            &&& state.data.taker_mint@ == accounts.taker_mint@
            &&& state.key@ != accounts.initializer@
        }),
{
    reveal_with_fuel(first_failure, 12);
}

/// Taking a tokens-for-SOL offer passes its account rules exactly when the
/// taker signs and receives the tokens in its own account of the offered
/// mint; the state account and the escrow wallet (of the offered mint) sit at
/// the addresses derived from the exchange's seeds; the state records this
/// initializer, offered mint and taker; and the state account is not the
/// initializer's own account.
pub proof fn taking_token_sol_passes_exactly_when(accounts: ExchangeTokenSol, program_id: Seq<u8>, exchange_idx: u64)
    ensures
        (first_failure(accounts.checks(program_id, exchange_idx)) is None) <==> ({
            let keys = token_sol_keys(accounts.initializer@, accounts.initializer_mint@, accounts.taker.key@);
            let state = accounts.exchange_state;
            let receive = accounts.taker_receive_token_account;
            &&& accounts.taker.is_signer
            &&& receive.owner@ == accounts.taker.key@
            &&& receive.mint@ == accounts.initializer_mint@
            &&& at_derived_address(state.key@, exchange_seeds(state_tag(), exchange_idx, keys), program_id)
            &&& at_derived_address(accounts.escrow_wallet.key@, exchange_seeds(wallet_tag(), exchange_idx, keys), program_id)
            &&& accounts.escrow_wallet.mint@ == accounts.initializer_mint@
            &&& state.data.initializer@ == accounts.initializer@
            &&& state.data.initializer_mint@ == accounts.initializer_mint@
            &&& state.data.taker@ == accounts.taker.key@
            &&& state.key@ != accounts.initializer@
        }),
{
    reveal_with_fuel(first_failure, 11);
}

/// Taking a tokens-for-tokens offer passes its account rules exactly when the
/// taker signs, pays from its own account of the asked mint holding at least
/// the asked amount into an account of the asked mint owned by the
/// initializer, and receives the escrowed tokens in its own account of the
/// offered mint; the state account and the escrow wallet (of the offered mint)
/// sit at the addresses derived from the exchange's seeds; the state records
/// this initializer, offered mint, taker and asked mint; and the state account
/// is not the initializer's own account.
pub proof fn taking_token_token_passes_exactly_when(
    accounts: ExchangeTokenToken,
    program_id: Seq<u8>,
    exchange_idx: u64,
)
    ensures
        (first_failure(accounts.checks(program_id, exchange_idx)) is None) <==> ({
            let keys = token_token_keys(
                accounts.initializer@,
                accounts.initializer_mint@,
                accounts.taker.key@,
                accounts.taker_mint@,
            );
            let state = accounts.exchange_state;
            let pay = accounts.taker_withdraw_token_account;
            let paid_to = accounts.initializer_receive_token_account;
            let receive = accounts.taker_receive_token_account;
            &&& accounts.taker.is_signer
            &&& pay.owner@ == accounts.taker.key@
            &&& pay.mint@ == accounts.taker_mint@
            &&& pay.amount >= state.data.taker_amount
            &&& paid_to.owner@ == accounts.initializer@
            &&& paid_to.mint@ == accounts.taker_mint@
            &&& receive.owner@ == accounts.taker.key@
            &&& receive.mint@ == accounts.initializer_mint@
            &&& at_derived_address(state.key@, exchange_seeds(state_tag(), exchange_idx, keys), program_id)
            &&& at_derived_address(accounts.escrow_wallet.key@, exchange_seeds(wallet_tag(), exchange_idx, keys), program_id)
            &&& accounts.escrow_wallet.mint@ == accounts.initializer_mint@
            &&& state.data.initializer@ == accounts.initializer@
            &&& state.data.initializer_mint@ == accounts.initializer_mint@
            &&& state.data.taker@ == accounts.taker.key@
            &&& state.data.taker_mint@ == accounts.taker_mint@
            &&& state.key@ != accounts.initializer@
        }),
{
    reveal_with_fuel(first_failure, 17);
}

/// Whether `actions` create the state account at `state` as a 160-byte account
/// paid by `payer`, and store `terms` there and nowhere else.
pub open spec fn opens_with(actions: Seq<ActionView>, payer: Seq<u8>, state: Seq<u8>, terms: ExchangeStateView) -> bool {
    &&& exists|i: int| 0 <= i < actions.len() && #[trigger] actions[i] is WriteState
    &&& exists|i: int| 0 <= i < actions.len() && #[trigger] actions[i] is CreateStateAccount
    &&& forall|i: int|
        0 <= i < actions.len() ==> match #[trigger] actions[i] {
            ActionView::WriteState { account, state: written } => account == state && written == terms,
            ActionView::CreateStateAccount { payer: paid_by, account, space, .. } => paid_by == payer && account
                == state && space == 160,
            _ => true,
        }
}

/// Opening a SOL-for-tokens exchange creates the state account, paid by the
/// initializer, and records in it the exchange's index, the initializer, the
/// taker, the native mint as the offered mint, the asked mint and both amounts.
pub proof fn opening_sol_token_records_the_terms(
    open: InitializeSolToken,
    program_id: Seq<u8>,
    exchange_idx: u64,
    initializer_amount: u64,
    taker_amount: u64,
    native_mint: Seq<u8>,
)
    ensures
        opens_with(
            initialize_sol_token_actions(open, program_id, exchange_idx, initializer_amount, taker_amount, native_mint),
            open.initializer.key@,
            open.exchange_state@,
            ExchangeStateView {
                exchange_idx,
                initializer: open.initializer.key@,
                taker: open.taker@,
                initializer_mint: native_mint,
                taker_mint: open.taker_mint@,
                initializer_amount,
                taker_amount,
            },
        ),
{
    let actions = initialize_sol_token_actions(
        open,
        program_id,
        exchange_idx,
        initializer_amount,
        taker_amount,
        native_mint,
    );
    assert(actions[2] is WriteState);
    assert(actions[0] is CreateStateAccount);
}

/// Opening a tokens-for-SOL exchange creates the state account, paid by the
/// initializer, and records in it the exchange's index, the initializer, the
/// taker, the offered mint, the native mint as the asked mint and both amounts.
pub proof fn opening_token_sol_records_the_terms(
    open: InitializeTokenSol,
    program_id: Seq<u8>,
    exchange_idx: u64,
    initializer_amount: u64,
    taker_amount: u64,
    native_mint: Seq<u8>,
)
    ensures
        opens_with(
            initialize_token_sol_actions(open, program_id, exchange_idx, initializer_amount, taker_amount, native_mint),
            open.initializer.key@,
            open.exchange_state@,
            ExchangeStateView {
                exchange_idx,
                initializer: open.initializer.key@,
                taker: open.taker@,
                initializer_mint: open.initializer_mint@,
                taker_mint: native_mint,
                initializer_amount,
                taker_amount,
            },
        ),
{
    let actions = initialize_token_sol_actions(
        open,
        program_id,
        exchange_idx,
        initializer_amount,
        taker_amount,
        native_mint,
    );
    assert(actions[3] is WriteState);
    assert(actions[0] is CreateStateAccount);
}

/// Opening a tokens-for-tokens exchange creates the state account, paid by
/// the initializer, and records in it the exchange's index, the initializer,
/// the taker, the offered mint, the asked mint and both amounts.
pub proof fn opening_token_token_records_the_terms(
    open: InitializeTokenToken,
    program_id: Seq<u8>,
    exchange_idx: u64,
    initializer_amount: u64,
    taker_amount: u64,
)
    ensures
        opens_with(
            initialize_token_token_actions(open, program_id, exchange_idx, initializer_amount, taker_amount),
            open.initializer.key@,
            open.exchange_state@,
            ExchangeStateView {
                exchange_idx,
                initializer: open.initializer.key@,
                taker: open.taker@,
                initializer_mint: open.initializer_mint@,
                taker_mint: open.taker_mint@,
                initializer_amount,
                taker_amount,
            },
        ),
{
    let actions = initialize_token_token_actions(open, program_id, exchange_idx, initializer_amount, taker_amount);
    assert(actions[3] is WriteState);
    assert(actions[0] is CreateStateAccount);
}

/// Moving lamports directly between two balances is possible exactly when
/// the source holds the amount and the destination's balance stays within
/// the range of a balance; a withdrawal or take of SOL is refused for range
/// only outside these bounds.
pub proof fn lamports_move_exactly_within_range(from: u64, to: u64, amount: u64)
    ensures
        can_move(from, to, amount) <==> (amount <= from && to as int + amount as int <= 0xffff_ffff_ffff_ffff),
{
}

} // verus!
