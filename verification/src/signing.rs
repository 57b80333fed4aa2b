use vstd::prelude::*;

use crate::accounts::{first_failure, lemma_all_checks_hold};
use crate::actions::ActionView;
use crate::cancel::{cancel_token_sol_actions, cancel_token_token_actions, CancelTokenSol, CancelTokenToken};
use crate::exchange::{
    exchange_sol_token_actions, exchange_token_sol_actions, exchange_token_token_actions, ExchangeSolToken,
    ExchangeTokenSol, ExchangeTokenToken,
};
use crate::initialize::{
    initialize_sol_token_actions, initialize_token_sol_actions, initialize_token_token_actions, InitializeSolToken,
    InitializeTokenSol, InitializeTokenToken,
};
use crate::pda::program_address;

verus! {

/// Whether `seeds` let the program sign for `key`: the last seed is a single
/// byte, and the seeds before it derive `key` under `program_id` with that
/// byte as the bump. Signing with anything else, the runtime refuses the
/// action.
pub open spec fn seeds_sign_for(seeds: Seq<Seq<u8>>, key: Seq<u8>, program_id: Seq<u8>) -> bool {
    &&& seeds.len() > 0
    &&& seeds.last().len() == 1
    &&& program_address(seeds.drop_last(), program_id) == Some((key, seeds.last()[0]))
}

/// Whether `action`, where it creates an account, signs for the new account's
/// own address.
pub open spec fn creates_with_own_seeds(action: ActionView, program_id: Seq<u8>) -> bool {
    match action {
        ActionView::CreateStateAccount { account, signer_seeds, .. } => seeds_sign_for(
            signer_seeds,
            account,
            program_id,
        ),
        ActionView::CreateTokenAccount { account, signer_seeds, .. } => seeds_sign_for(
            signer_seeds,
            account,
            program_id,
        ),
        _ => true,
    }
}

/// The authority of a token transfer or of closing a token account, with the
/// seeds it signs with; `None` for any other action.
pub open spec fn token_authority(action: ActionView) -> Option<(Seq<u8>, Seq<Seq<u8>>)> {
    match action {
        ActionView::TokenTransfer { authority, signer_seeds, .. } => Some((authority, signer_seeds)),
        ActionView::CloseTokenAccount { authority, signer_seeds, .. } => Some((authority, signer_seeds)),
        _ => None,
    }
}

/// Whether every token transfer and token-account close of `actions` is made
/// either by the state account at `state`, signing with seeds for it, or by
/// `user` (where given), who signs the transaction and carries no seeds; and
/// every account created is created with seeds for its own address.
pub open spec fn signs_correctly(
    actions: Seq<ActionView>,
    state: Seq<u8>,
    user: Option<Seq<u8>>,
    program_id: Seq<u8>,
) -> bool {
    forall|i: int|
        0 <= i < actions.len() ==> {
            &&& creates_with_own_seeds(#[trigger] actions[i], program_id)
            &&& token_authority(actions[i]) matches Some((authority, seeds)) ==> {
                ||| authority == state && seeds_sign_for(seeds, state, program_id)
                ||| user == Some(authority) && seeds.len() == 0
            }
        }
}

/// Opening a SOL-for-tokens exchange creates the state account with seeds
/// that derive its address.
pub proof fn opening_sol_token_signs_correctly(
    open: InitializeSolToken,
    program_id: Seq<u8>,
    exchange_idx: u64,
    initializer_amount: u64,
    taker_amount: u64,
    native_mint: Seq<u8>,
)
    requires
        first_failure(open.checks(program_id, exchange_idx)) is None,
    ensures
        signs_correctly(
            initialize_sol_token_actions(open, program_id, exchange_idx, initializer_amount, taker_amount, native_mint),
            open.exchange_state@,
            None,
            program_id,
        ),
{
    lemma_all_checks_hold(open.checks(program_id, exchange_idx));
    assert(open.checks(program_id, exchange_idx)[1].0);
    let actions = initialize_sol_token_actions(
        open,
        program_id,
        exchange_idx,
        initializer_amount,
        taker_amount,
        native_mint,
    );
    assert(actions[0]->CreateStateAccount_signer_seeds.drop_last() =~= open.state_seeds(exchange_idx));
}

/// Opening a tokens-for-SOL exchange creates the state account and the escrow
/// wallet each with seeds that derive its own address, and the initializer
/// moves the offered tokens signing for itself.
pub proof fn opening_token_sol_signs_correctly(
    open: InitializeTokenSol,
    program_id: Seq<u8>,
    exchange_idx: u64,
    initializer_amount: u64,
    taker_amount: u64,
    native_mint: Seq<u8>,
)
    requires
        first_failure(open.checks(program_id, exchange_idx, initializer_amount)) is None,
    ensures
        signs_correctly(
            initialize_token_sol_actions(open, program_id, exchange_idx, initializer_amount, taker_amount, native_mint),
            open.exchange_state@,
            Some(open.initializer.key@),
            program_id,
        ),
{
    lemma_all_checks_hold(open.checks(program_id, exchange_idx, initializer_amount));
    assert(open.checks(program_id, exchange_idx, initializer_amount)[1].0);
    assert(open.checks(program_id, exchange_idx, initializer_amount)[2].0);
    let actions = initialize_token_sol_actions(
        open,
        program_id,
        exchange_idx,
        initializer_amount,
        taker_amount,
        native_mint,
    );
    assert(actions[0]->CreateStateAccount_signer_seeds.drop_last() =~= open.state_seeds(exchange_idx));
    assert(actions[1]->CreateTokenAccount_signer_seeds.drop_last() =~= open.wallet_seeds(exchange_idx));
}

/// Opening a tokens-for-tokens exchange creates the state account and the
/// escrow wallet each with seeds that derive its own address, and the
/// initializer moves the offered tokens signing for itself.
pub proof fn opening_token_token_signs_correctly(
    open: InitializeTokenToken,
    program_id: Seq<u8>,
    exchange_idx: u64,
    initializer_amount: u64,
    taker_amount: u64,
)
    requires
        first_failure(open.checks(program_id, exchange_idx, initializer_amount)) is None,
    ensures
        signs_correctly(
            initialize_token_token_actions(open, program_id, exchange_idx, initializer_amount, taker_amount),
            open.exchange_state@,
            Some(open.initializer.key@),
            program_id,
        ),
{
    lemma_all_checks_hold(open.checks(program_id, exchange_idx, initializer_amount));
    assert(open.checks(program_id, exchange_idx, initializer_amount)[1].0);
    assert(open.checks(program_id, exchange_idx, initializer_amount)[2].0);
    let actions = initialize_token_token_actions(open, program_id, exchange_idx, initializer_amount, taker_amount);
    assert(actions[0]->CreateStateAccount_signer_seeds.drop_last() =~= open.state_seeds(exchange_idx));
    assert(actions[1]->CreateTokenAccount_signer_seeds.drop_last() =~= open.wallet_seeds(exchange_idx));
}

/// Withdrawing a tokens-for-SOL offer moves and closes the escrow only as
/// the state account, signing with seeds that derive the state account.
pub proof fn withdrawing_token_sol_signs_as_the_state_account(
    accounts: CancelTokenSol,
    program_id: Seq<u8>,
    exchange_idx: u64,
)
    requires
        first_failure(accounts.checks(program_id, exchange_idx)) is None,
    ensures
        signs_correctly(
            cancel_token_sol_actions(accounts, program_id, exchange_idx),
            accounts.exchange_state.key@,
            None,
            program_id,
        ),
{
    lemma_all_checks_hold(accounts.checks(program_id, exchange_idx));
    assert(accounts.checks(program_id, exchange_idx)[3].0);
    let actions = cancel_token_sol_actions(accounts, program_id, exchange_idx);
    assert(actions[0]->TokenTransfer_signer_seeds.drop_last() =~= accounts.state_seeds(exchange_idx));
}

/// Withdrawing a tokens-for-tokens offer moves and closes the escrow only as
/// the state account, signing with seeds that derive the state account.
pub proof fn withdrawing_token_token_signs_as_the_state_account(
    accounts: CancelTokenToken,
    program_id: Seq<u8>,
    exchange_idx: u64,
)
    requires
        first_failure(accounts.checks(program_id, exchange_idx)) is None,
    ensures
        signs_correctly(
            cancel_token_token_actions(accounts, program_id, exchange_idx),
            accounts.exchange_state.key@,
            None,
            program_id,
        ),
{
    lemma_all_checks_hold(accounts.checks(program_id, exchange_idx));
    assert(accounts.checks(program_id, exchange_idx)[3].0);
    let actions = cancel_token_token_actions(accounts, program_id, exchange_idx);
    assert(actions[0]->TokenTransfer_signer_seeds.drop_last() =~= accounts.state_seeds(exchange_idx));
}

/// Taking a tokens-for-SOL offer releases and closes the escrow only as the
/// state account, signing with seeds that derive the state account.
pub proof fn taking_token_sol_signs_as_the_state_account(
    accounts: ExchangeTokenSol,
    program_id: Seq<u8>,
    exchange_idx: u64,
)
    requires
        first_failure(accounts.checks(program_id, exchange_idx)) is None,
    ensures
        signs_correctly(
            exchange_token_sol_actions(accounts, program_id, exchange_idx),
            accounts.exchange_state.key@,
            None,
            program_id,
        ),
{
    lemma_all_checks_hold(accounts.checks(program_id, exchange_idx));
    assert(accounts.checks(program_id, exchange_idx)[3].0);
    let actions = exchange_token_sol_actions(accounts, program_id, exchange_idx);
    assert(actions[1]->TokenTransfer_signer_seeds.drop_last() =~= accounts.state_seeds(exchange_idx));
}

/// Taking a tokens-for-tokens offer moves tokens only as the taker, who signs
/// the transaction and carries no seeds, or as the state account, signing
/// with seeds that derive the state account.
pub proof fn taking_token_token_signs_correctly(accounts: ExchangeTokenToken, program_id: Seq<u8>, exchange_idx: u64)
    requires
        first_failure(accounts.checks(program_id, exchange_idx)) is None,
    ensures
        signs_correctly(
            exchange_token_token_actions(accounts, program_id, exchange_idx),
            accounts.exchange_state.key@,
            Some(accounts.taker.key@),
            program_id,
        ),
{
    lemma_all_checks_hold(accounts.checks(program_id, exchange_idx));
    assert(accounts.checks(program_id, exchange_idx)[8].0);
    let actions = exchange_token_token_actions(accounts, program_id, exchange_idx);
    assert(actions[1]->TokenTransfer_signer_seeds.drop_last() =~= accounts.state_seeds(exchange_idx));
}

/// Taking a SOL-for-tokens offer moves tokens only as the taker, who signs
/// the transaction and carries no seeds.
pub proof fn taking_sol_token_signs_as_the_taker(accounts: ExchangeSolToken, program_id: Seq<u8>)
    ensures
        signs_correctly(
            exchange_sol_token_actions(accounts),
            accounts.exchange_state.key@,
            Some(accounts.taker.key@),
            program_id,
        ),
{
    let actions = exchange_sol_token_actions(accounts);
    assert(actions[0]->TokenTransfer_signer_seeds =~= Seq::<Seq<u8>>::empty());
}

} // verus!
