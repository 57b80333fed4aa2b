use vstd::prelude::*;

use crate::accounts::{at_derived_address, first_failure, lemma_all_checks_hold};
use crate::cancel::{CancelSolToken, CancelTokenSol, CancelTokenToken};
use crate::exchange::{ExchangeSolToken, ExchangeTokenSol, ExchangeTokenToken};
use crate::initialize::{opened_state, InitializeSolToken, InitializeTokenSol, InitializeTokenToken};
use crate::native_mint::spec_native_mint;

verus! {

/// Only the initializer recorded in the exchange, signing the transaction,
/// can withdraw it, and only through the state account derived for it.
pub proof fn withdrawing_sol_token_needs_the_initializer(accounts: CancelSolToken, program_id: Seq<u8>, exchange_idx: u64)
    requires
        first_failure(accounts.checks(program_id, exchange_idx)) is None,
    ensures
        accounts.initializer.is_signer,
        accounts.exchange_state.data.initializer@ == accounts.initializer.key@,
        at_derived_address(accounts.exchange_state.key@, accounts.state_seeds(exchange_idx), program_id),
{
    lemma_all_checks_hold(accounts.checks(program_id, exchange_idx));
    assert(accounts.checks(program_id, exchange_idx)[0].0);
    assert(accounts.checks(program_id, exchange_idx)[1].0);
    assert(accounts.checks(program_id, exchange_idx)[2].0);
}

/// Only the initializer recorded in the exchange, signing the transaction,
/// can withdraw it, and only through the state account derived for it.
pub proof fn withdrawing_token_sol_needs_the_initializer(accounts: CancelTokenSol, program_id: Seq<u8>, exchange_idx: u64)
    requires
        first_failure(accounts.checks(program_id, exchange_idx)) is None,
    ensures
        accounts.initializer.is_signer,
        accounts.exchange_state.data.initializer@ == accounts.initializer.key@,
        at_derived_address(accounts.exchange_state.key@, accounts.state_seeds(exchange_idx), program_id),
{
    lemma_all_checks_hold(accounts.checks(program_id, exchange_idx));
    assert(accounts.checks(program_id, exchange_idx)[0].0);
    assert(accounts.checks(program_id, exchange_idx)[3].0);
    assert(accounts.checks(program_id, exchange_idx)[4].0);
}

/// Only the initializer recorded in the exchange, signing the transaction,
/// can withdraw it, and only through the state account derived for it.
pub proof fn withdrawing_token_token_needs_the_initializer(accounts: CancelTokenToken, program_id: Seq<u8>, exchange_idx: u64)
    requires
        first_failure(accounts.checks(program_id, exchange_idx)) is None,
    ensures
        accounts.initializer.is_signer,
        accounts.exchange_state.data.initializer@ == accounts.initializer.key@,
        at_derived_address(accounts.exchange_state.key@, accounts.state_seeds(exchange_idx), program_id),
{
    lemma_all_checks_hold(accounts.checks(program_id, exchange_idx));
    assert(accounts.checks(program_id, exchange_idx)[0].0);
    assert(accounts.checks(program_id, exchange_idx)[3].0);
    assert(accounts.checks(program_id, exchange_idx)[4].0);
}

/// Only the taker recorded in the exchange, signing the transaction, can take
/// a SOL-for-tokens offer, and only paying from its own account of the asked
/// mint that holds at least the asked amount.
pub proof fn taking_sol_token_needs_the_taker(accounts: ExchangeSolToken, program_id: Seq<u8>, exchange_idx: u64)
    requires
        first_failure(accounts.checks(program_id, exchange_idx)) is None,
    ensures
        accounts.taker.is_signer,
        accounts.exchange_state.data.taker@ == accounts.taker.key@,
        accounts.taker_withdraw_token_account.owner@ == accounts.taker.key@,
        accounts.taker_withdraw_token_account.mint@ == accounts.exchange_state.data.taker_mint@,
        accounts.taker_withdraw_token_account.amount >= accounts.exchange_state.data.taker_amount,
        at_derived_address(accounts.exchange_state.key@, accounts.state_seeds(exchange_idx), program_id),
{
    lemma_all_checks_hold(accounts.checks(program_id, exchange_idx));
    assert(accounts.checks(program_id, exchange_idx)[0].0);
    assert(accounts.checks(program_id, exchange_idx)[3].0);
    assert(accounts.checks(program_id, exchange_idx)[4].0);
    assert(accounts.checks(program_id, exchange_idx)[5].0);
    assert(accounts.checks(program_id, exchange_idx)[6].0);
    assert(accounts.checks(program_id, exchange_idx)[8].0);
    assert(accounts.checks(program_id, exchange_idx)[9].0);
}

/// Only the taker recorded in the exchange, signing the transaction, can take
/// a tokens-for-SOL offer, and the escrowed tokens go to its own account of
/// the offered mint.
pub proof fn taking_token_sol_needs_the_taker(accounts: ExchangeTokenSol, program_id: Seq<u8>, exchange_idx: u64)
    requires
        first_failure(accounts.checks(program_id, exchange_idx)) is None,
    ensures
        accounts.taker.is_signer,
        accounts.exchange_state.data.taker@ == accounts.taker.key@,
        accounts.taker_receive_token_account.owner@ == accounts.taker.key@,
        accounts.taker_receive_token_account.mint@ == accounts.exchange_state.data.initializer_mint@,
        at_derived_address(accounts.exchange_state.key@, accounts.state_seeds(exchange_idx), program_id),
{
    lemma_all_checks_hold(accounts.checks(program_id, exchange_idx));
    assert(accounts.checks(program_id, exchange_idx)[0].0);
    assert(accounts.checks(program_id, exchange_idx)[1].0);
    assert(accounts.checks(program_id, exchange_idx)[2].0);
    assert(accounts.checks(program_id, exchange_idx)[3].0);
    assert(accounts.checks(program_id, exchange_idx)[5].0);
    assert(accounts.checks(program_id, exchange_idx)[6].0);
}

/// Only the taker recorded in the exchange, signing the transaction, can take
/// a tokens-for-tokens offer, paying from its own account of the asked mint
/// that holds at least the asked amount, and receiving the escrowed tokens in
/// its own account of the offered mint.
pub proof fn taking_token_token_needs_the_taker(accounts: ExchangeTokenToken, program_id: Seq<u8>, exchange_idx: u64)
    requires
        first_failure(accounts.checks(program_id, exchange_idx)) is None,
    ensures
        accounts.taker.is_signer,
        accounts.exchange_state.data.taker@ == accounts.taker.key@,
        accounts.taker_withdraw_token_account.owner@ == accounts.taker.key@,
        accounts.taker_withdraw_token_account.mint@ == accounts.exchange_state.data.taker_mint@,
        accounts.taker_withdraw_token_account.amount >= accounts.exchange_state.data.taker_amount,
        accounts.taker_receive_token_account.owner@ == accounts.taker.key@,
        accounts.taker_receive_token_account.mint@ == accounts.exchange_state.data.initializer_mint@,
        at_derived_address(accounts.exchange_state.key@, accounts.state_seeds(exchange_idx), program_id),
{
    lemma_all_checks_hold(accounts.checks(program_id, exchange_idx));
    assert(accounts.checks(program_id, exchange_idx)[0].0);
    assert(accounts.checks(program_id, exchange_idx)[3].0);
    assert(accounts.checks(program_id, exchange_idx)[4].0);
    assert(accounts.checks(program_id, exchange_idx)[5].0);
    assert(accounts.checks(program_id, exchange_idx)[6].0);
    assert(accounts.checks(program_id, exchange_idx)[7].0);
    assert(accounts.checks(program_id, exchange_idx)[8].0);
    assert(accounts.checks(program_id, exchange_idx)[10].0);
    assert(accounts.checks(program_id, exchange_idx)[11].0);
    assert(accounts.checks(program_id, exchange_idx)[12].0);
}

/// The accounts of an opened tokens-for-tokens offer pass the rules of its
/// withdrawal: once opening passed its rules, withdrawing with the same
/// parties and mints, the state that opening stored, the escrow wallet it
/// created and a token account of the initializer's mint passes its rules too.
pub proof fn opened_token_token_offer_passes_the_withdrawal_rules(
    open: InitializeTokenToken,
    cancel: CancelTokenToken,
    program_id: Seq<u8>,
    exchange_idx: u64,
    initializer_amount: u64,
    taker_amount: u64,
)
    requires
        first_failure(open.checks(program_id, exchange_idx, initializer_amount)) is None,
        cancel.initializer.key@ == open.initializer.key@,
        cancel.initializer.is_signer,
        cancel.initializer_mint@ == open.initializer_mint@,
        cancel.taker@ == open.taker@,
        cancel.taker_mint@ == open.taker_mint@,
        cancel.exchange_state.key@ == open.exchange_state@,
        cancel.exchange_state.data@ == opened_state(
            exchange_idx,
            open.initializer.key@,
            open.taker@,
            open.initializer_mint@,
            open.taker_mint@,
            initializer_amount,
            taker_amount,
        ),
        cancel.escrow_wallet.key@ == open.escrow_wallet@,
        cancel.escrow_wallet.mint@ == open.initializer_mint@,
        cancel.initializer_withdraw_token_account.owner@ == open.initializer.key@,
        cancel.initializer_withdraw_token_account.mint@ == open.initializer_mint@,
        open.exchange_state@ != open.initializer.key@,
    ensures
        first_failure(cancel.checks(program_id, exchange_idx)) is None,
{
    lemma_all_checks_hold(open.checks(program_id, exchange_idx, initializer_amount));
    assert(open.checks(program_id, exchange_idx, initializer_amount)[1].0);
    assert(open.checks(program_id, exchange_idx, initializer_amount)[2].0);
    assert(cancel.state_seeds(exchange_idx) =~= open.state_seeds(exchange_idx));
    assert(cancel.wallet_seeds(exchange_idx) =~= open.wallet_seeds(exchange_idx));
    reveal_with_fuel(first_failure, 13);
}

/// The accounts of an opened SOL-for-tokens offer pass the rules of its
/// withdrawal: once opening passed its rules, withdrawing with the same parties and mint
/// and the state that opening stored passes its rules too.
pub proof fn opened_sol_token_offer_passes_the_withdrawal_rules(
    open: InitializeSolToken,
    cancel: CancelSolToken,
    program_id: Seq<u8>,
    exchange_idx: u64,
    initializer_amount: u64,
    taker_amount: u64,
)
    requires
        first_failure(open.checks(program_id, exchange_idx)) is None,
        spec_native_mint() is Some,
        cancel.initializer.key@ == open.initializer.key@,
        cancel.initializer.is_signer,
        cancel.taker@ == open.taker@,
        cancel.taker_mint@ == open.taker_mint@,
        cancel.exchange_state.key@ == open.exchange_state@,
        cancel.exchange_state.data@ == opened_state(
            exchange_idx,
            open.initializer.key@,
            open.taker@,
            spec_native_mint().unwrap(),
            open.taker_mint@,
            initializer_amount,
            taker_amount,
        ),
        open.exchange_state@ != open.initializer.key@,
    ensures
        first_failure(cancel.checks(program_id, exchange_idx)) is None,
{
    lemma_all_checks_hold(open.checks(program_id, exchange_idx));
    assert(open.checks(program_id, exchange_idx)[1].0);
    assert(cancel.state_seeds(exchange_idx) =~= open.state_seeds(exchange_idx));
    reveal_with_fuel(first_failure, 7);
}

/// The accounts of an opened tokens-for-SOL offer pass the rules of its
/// withdrawal: once opening passed its rules, withdrawing with the same parties and mint,
/// the state that opening stored, the escrow wallet it created and a token
/// account of the initializer's mint passes its rules too.
pub proof fn opened_token_sol_offer_passes_the_withdrawal_rules(
    open: InitializeTokenSol,
    cancel: CancelTokenSol,
    program_id: Seq<u8>,
    exchange_idx: u64,
    initializer_amount: u64,
    taker_amount: u64,
)
    requires
        first_failure(open.checks(program_id, exchange_idx, initializer_amount)) is None,
        spec_native_mint() is Some,
        cancel.initializer.key@ == open.initializer.key@,
        cancel.initializer.is_signer,
        cancel.initializer_mint@ == open.initializer_mint@,
        cancel.taker@ == open.taker@,
        cancel.exchange_state.key@ == open.exchange_state@,
        cancel.exchange_state.data@ == opened_state(
            exchange_idx,
            open.initializer.key@,
            open.taker@,
            open.initializer_mint@,
            spec_native_mint().unwrap(),
            initializer_amount,
            taker_amount,
        ),
        cancel.escrow_wallet.key@ == open.escrow_wallet@,
        cancel.escrow_wallet.mint@ == open.initializer_mint@,
        cancel.initializer_withdraw_token_account.owner@ == open.initializer.key@,
        cancel.initializer_withdraw_token_account.mint@ == open.initializer_mint@,
        open.exchange_state@ != open.initializer.key@,
    ensures
        first_failure(cancel.checks(program_id, exchange_idx)) is None,
{
    lemma_all_checks_hold(open.checks(program_id, exchange_idx, initializer_amount));
    assert(open.checks(program_id, exchange_idx, initializer_amount)[1].0);
    assert(open.checks(program_id, exchange_idx, initializer_amount)[2].0);
    assert(cancel.state_seeds(exchange_idx) =~= open.state_seeds(exchange_idx));
    assert(cancel.wallet_seeds(exchange_idx) =~= open.wallet_seeds(exchange_idx));
    reveal_with_fuel(first_failure, 12);
}

/// The accounts of an opened SOL-for-tokens offer pass the rules of its take
/// by its taker, signing and paying from its own account of the asked mint that holds the asked
/// amount into an initializer's account of that mint.
pub proof fn opened_sol_token_offer_passes_the_take_rules(
    open: InitializeSolToken,
    take: ExchangeSolToken,
    program_id: Seq<u8>,
    exchange_idx: u64,
    initializer_amount: u64,
    taker_amount: u64,
)
    requires
        first_failure(open.checks(program_id, exchange_idx)) is None,
        spec_native_mint() is Some,
        take.initializer@ == open.initializer.key@,
        take.taker.key@ == open.taker@,
        take.taker.is_signer,
        take.taker_mint@ == open.taker_mint@,
        take.exchange_state.key@ == open.exchange_state@,
        take.exchange_state.data@ == opened_state(
            exchange_idx,
            open.initializer.key@,
            open.taker@,
            spec_native_mint().unwrap(),
            open.taker_mint@,
            initializer_amount,
            taker_amount,
        ),
        take.initializer_receive_token_account.owner@ == open.initializer.key@,
        take.initializer_receive_token_account.mint@ == open.taker_mint@,
        take.taker_withdraw_token_account.owner@ == open.taker@,
        take.taker_withdraw_token_account.mint@ == open.taker_mint@,
        take.taker_withdraw_token_account.amount >= taker_amount,
        open.exchange_state@ != open.initializer.key@,
    ensures
        first_failure(take.checks(program_id, exchange_idx)) is None,
{
    lemma_all_checks_hold(open.checks(program_id, exchange_idx));
    assert(open.checks(program_id, exchange_idx)[1].0);
    assert(take.state_seeds(exchange_idx) =~= open.state_seeds(exchange_idx));
    reveal_with_fuel(first_failure, 12);
}

/// The accounts of an opened tokens-for-SOL offer pass the rules of its take
/// by its taker, signing and receiving the escrowed tokens in its own account of the offered mint.
pub proof fn opened_token_sol_offer_passes_the_take_rules(
    open: InitializeTokenSol,
    take: ExchangeTokenSol,
    program_id: Seq<u8>,
    exchange_idx: u64,
    initializer_amount: u64,
    taker_amount: u64,
)
    requires
        first_failure(open.checks(program_id, exchange_idx, initializer_amount)) is None,
        spec_native_mint() is Some,
        take.initializer@ == open.initializer.key@,
        take.initializer_mint@ == open.initializer_mint@,
        take.taker.key@ == open.taker@,
        take.taker.is_signer,
        take.exchange_state.key@ == open.exchange_state@,
        take.exchange_state.data@ == opened_state(
            exchange_idx,
            open.initializer.key@,
            open.taker@,
            open.initializer_mint@,
            spec_native_mint().unwrap(),
            initializer_amount,
            taker_amount,
        ),
        take.escrow_wallet.key@ == open.escrow_wallet@,
        take.escrow_wallet.mint@ == open.initializer_mint@,
        take.taker_receive_token_account.owner@ == open.taker@,
        take.taker_receive_token_account.mint@ == open.initializer_mint@,
        open.exchange_state@ != open.initializer.key@,
    ensures
        first_failure(take.checks(program_id, exchange_idx)) is None,
{
    lemma_all_checks_hold(open.checks(program_id, exchange_idx, initializer_amount));
    assert(open.checks(program_id, exchange_idx, initializer_amount)[1].0);
    assert(open.checks(program_id, exchange_idx, initializer_amount)[2].0);
    assert(take.state_seeds(exchange_idx) =~= open.state_seeds(exchange_idx));
    assert(take.wallet_seeds(exchange_idx) =~= open.wallet_seeds(exchange_idx));
    reveal_with_fuel(first_failure, 11);
}

/// The accounts of an opened tokens-for-tokens offer pass the rules of its
/// take by its taker, signing, paying from its own account of the asked mint that holds the
/// asked amount into an initializer's account of that mint, and receiving the
/// escrowed tokens in its own account of the offered mint.
pub proof fn opened_token_token_offer_passes_the_take_rules(
    open: InitializeTokenToken,
    take: ExchangeTokenToken,
    program_id: Seq<u8>,
    exchange_idx: u64,
    initializer_amount: u64,
    taker_amount: u64,
)
    requires
        first_failure(open.checks(program_id, exchange_idx, initializer_amount)) is None,
        take.initializer@ == open.initializer.key@,
        take.initializer_mint@ == open.initializer_mint@,
        take.taker.key@ == open.taker@,
        take.taker.is_signer,
        take.taker_mint@ == open.taker_mint@,
        take.exchange_state.key@ == open.exchange_state@,
        take.exchange_state.data@ == opened_state(
            exchange_idx,
            open.initializer.key@,
            open.taker@,
            open.initializer_mint@,
            open.taker_mint@,
            initializer_amount,
            taker_amount,
        ),
        take.escrow_wallet.key@ == open.escrow_wallet@,
        take.escrow_wallet.mint@ == open.initializer_mint@,
        take.initializer_receive_token_account.owner@ == open.initializer.key@,
        take.initializer_receive_token_account.mint@ == open.taker_mint@,
        take.taker_withdraw_token_account.owner@ == open.taker@,
        take.taker_withdraw_token_account.mint@ == open.taker_mint@,
        take.taker_withdraw_token_account.amount >= taker_amount,
        take.taker_receive_token_account.owner@ == open.taker@,
        take.taker_receive_token_account.mint@ == open.initializer_mint@,
        open.exchange_state@ != open.initializer.key@,
    ensures
        first_failure(take.checks(program_id, exchange_idx)) is None,
{
    lemma_all_checks_hold(open.checks(program_id, exchange_idx, initializer_amount));
    assert(open.checks(program_id, exchange_idx, initializer_amount)[1].0);
    assert(open.checks(program_id, exchange_idx, initializer_amount)[2].0);
    assert(take.state_seeds(exchange_idx) =~= open.state_seeds(exchange_idx));
    assert(take.wallet_seeds(exchange_idx) =~= open.wallet_seeds(exchange_idx));
    reveal_with_fuel(first_failure, 17);
}

} // verus!
