use vstd::prelude::*;

use crate::accounts::{
    at_derived_address, check_derived_address, derived_bump, error, first_failure, lemma_all_checks_hold, AccountError, AccountName,
    AccountRef, Bumps, Check, Context, ErrorCode, InstructionError, StateAccount, TokenAccount,
};
use crate::actions::{actions_view, chain, Action, ActionView};
use crate::lamports::{can_move, move_lamports};
use crate::pda::find_program_address;
use crate::pubkey::Pubkey;
use crate::seeds::{
    exchange_seeds, push_bump, sol_token_keys, sol_token_state_seeds, state_tag, token_sol_keys, token_sol_state_seeds,
    token_sol_wallet_seeds, token_token_keys, token_token_state_seeds, token_token_wallet_seeds, wallet_tag,
    with_bump,
};

verus! {

/// Accounts for withdrawing a SOL-for-tokens offer.
#[derive(Clone, Copy, Debug)]
pub struct CancelSolToken {
    pub initializer: AccountRef,
    pub taker: Pubkey,
    pub taker_mint: Pubkey,
    pub exchange_state: StateAccount,
}

impl CancelSolToken {
    /// Seeds of the exchange's state account.
    pub open spec fn state_seeds(&self, exchange_idx: u64) -> Seq<Seq<u8>> {
        exchange_seeds(state_tag(), exchange_idx, sol_token_keys(self.initializer.key@, self.taker@, self.taker_mint@))
    }

    /// The rules on the accounts, in the order they are checked.
    pub open spec fn checks(&self, program_id: Seq<u8>, exchange_idx: u64) -> Seq<Check> {
        let state = self.exchange_state;
        seq![
            (self.initializer.is_signer, error(ErrorCode::AccountNotSigner, AccountName::Initializer)),
            (
                at_derived_address(state.key@, self.state_seeds(exchange_idx), program_id),
                error(ErrorCode::ConstraintSeeds, AccountName::ExchangeState),
            ),
            (
                state.data.initializer@ == self.initializer.key@,
                error(ErrorCode::ConstraintHasOne, AccountName::ExchangeState),
            ),
            (state.data.taker@ == self.taker@, error(ErrorCode::ConstraintHasOne, AccountName::ExchangeState)),
            (
                state.data.taker_mint@ == self.taker_mint@,
                error(ErrorCode::ConstraintHasOne, AccountName::ExchangeState),
            ),
            (state.key@ != self.initializer.key@, error(ErrorCode::ConstraintClose, AccountName::ExchangeState)),
        ]
    }

    /// Checks the accounts; gives the bump of the state account's address.
    pub fn validate(&self, program_id: &Pubkey, exchange_idx: u64) -> (bumps: Result<Bumps, AccountError>)
        ensures
            bumps is Err <==> first_failure(self.checks(program_id@, exchange_idx)) is Some,
            bumps matches Err(e) ==> first_failure(self.checks(program_id@, exchange_idx)) == Some(e),
            bumps matches Ok(b) ==> b == (Bumps {
                exchange_state: derived_bump(self.state_seeds(exchange_idx), program_id@),
                escrow_wallet: None,
            }),
    {
        proof {
            reveal_with_fuel(first_failure, 7);
        }
        if !self.initializer.is_signer {
            return Err(AccountError { code: ErrorCode::AccountNotSigner, account: AccountName::Initializer });
        }
        let state = &self.exchange_state;
        let seeds = sol_token_state_seeds(exchange_idx, &self.initializer.key, &self.taker, &self.taker_mint);
        let bump = match check_derived_address(&state.key, &seeds, program_id) {
            Some(bump) => bump,
            None => return Err(AccountError { code: ErrorCode::ConstraintSeeds, account: AccountName::ExchangeState }),
        };
        let has_one = AccountError { code: ErrorCode::ConstraintHasOne, account: AccountName::ExchangeState };
        if !state.data.initializer.key_eq(&self.initializer.key) {
            return Err(has_one);
        }
        if !state.data.taker.key_eq(&self.taker) {
            return Err(has_one);
        }
        if !state.data.taker_mint.key_eq(&self.taker_mint) {
            return Err(has_one);
        }
        if state.key.key_eq(&self.initializer.key) {
            return Err(AccountError { code: ErrorCode::ConstraintClose, account: AccountName::ExchangeState });
        }
        Ok(Bumps { exchange_state: bump, escrow_wallet: None })
    }
}

/// Withdraws a SOL-for-tokens offer: checks that the state account is the one
/// derived for this exchange, then moves the offered lamports from the state
/// account back to the initializer.
pub fn cancel_sol_token(ctx: &Context<CancelSolToken>, exchange_idx: u64) -> (actions: Vec<Action>)
    requires
        first_failure(ctx.accounts.checks(ctx.program_id@, exchange_idx)) is None,
        ctx.bumps == (Bumps {
            exchange_state: derived_bump(ctx.accounts.state_seeds(exchange_idx), ctx.program_id@),
            escrow_wallet: None,
        }),
        can_move(
            ctx.accounts.exchange_state.lamports,
            ctx.accounts.initializer.lamports,
            ctx.accounts.exchange_state.data.initializer_amount,
        ),
    ensures
        actions_view(actions@) == seq![
            ActionView::SetLamports {
                account: ctx.accounts.exchange_state.key@,
                lamports: (ctx.accounts.exchange_state.lamports - ctx.accounts.exchange_state.data.initializer_amount) as u64,
            },
            ActionView::SetLamports {
                account: ctx.accounts.initializer.key@,
                lamports: (ctx.accounts.initializer.lamports + ctx.accounts.exchange_state.data.initializer_amount) as u64,
            },
        ],
{
    let accounts = &ctx.accounts;
    let amount = accounts.exchange_state.data.initializer_amount;
    let seeds = sol_token_state_seeds(exchange_idx, &accounts.initializer.key, &accounts.taker, &accounts.taker_mint);
    proof {
        lemma_all_checks_hold(accounts.checks(ctx.program_id@, exchange_idx));
        assert(accounts.checks(ctx.program_id@, exchange_idx)[1].0);
    }
    let found = find_program_address(&seeds, &ctx.program_id);
    let (address, _bump) = found.unwrap();
    // The account rules put the state account at the derived address.
    assert(address@ == accounts.exchange_state.key@);
    let (state_lamports, initializer_lamports) = move_lamports(
        accounts.exchange_state.lamports,
        accounts.initializer.lamports,
        amount,
    );
    let debit = Action::SetLamports { account: accounts.exchange_state.key, lamports: state_lamports };
    let credit = Action::SetLamports { account: accounts.initializer.key, lamports: initializer_lamports };
    let actions: Vec<Action> = vec![debit, credit];
    proof {
        assert(actions_view(actions@) =~= seq![debit@, credit@]);
    }
    actions
}

/// Everything that withdrawing a SOL-for-tokens offer does, once its accounts
/// pass their rules: give the offered lamports back, then close the state
/// account into the initializer.
pub open spec fn cancel_sol_token_actions(accounts: CancelSolToken) -> Seq<ActionView> {
    let state = accounts.exchange_state;
    seq![
        ActionView::SetLamports {
            account: state.key@,
            lamports: (state.lamports - state.data.initializer_amount) as u64,
        },
        ActionView::SetLamports {
            account: accounts.initializer.key@,
            lamports: (accounts.initializer.lamports + state.data.initializer_amount) as u64,
        },
        ActionView::CloseStateAccount { account: state.key@, destination: accounts.initializer.key@ },
    ]
}

/// Withdraws a SOL-for-tokens offer: checks the accounts, runs the handler and
/// closes the state account.
pub fn process_cancel_sol_token(program_id: &Pubkey, accounts: &CancelSolToken, exchange_idx: u64) -> (result: Result<
    Vec<Action>,
    InstructionError,
>)
    ensures
        match first_failure(accounts.checks(program_id@, exchange_idx)) {
            Some(e) => result == Err::<Vec<Action>, InstructionError>(InstructionError::Account(e)),
            None => if can_move(
                accounts.exchange_state.lamports,
                accounts.initializer.lamports,
                accounts.exchange_state.data.initializer_amount,
            ) {
                result matches Ok(actions) && actions_view(actions@) == cancel_sol_token_actions(*accounts)
            } else {
                result == Err::<Vec<Action>, InstructionError>(InstructionError::LamportsOutOfRange)
            },
        },
{
    let bumps = match accounts.validate(program_id, exchange_idx) {
        Ok(b) => b,
        Err(e) => return Err(InstructionError::Account(e)),
    };
    proof {
        lemma_all_checks_hold(accounts.checks(program_id@, exchange_idx));
        assert(accounts.checks(program_id@, exchange_idx)[1].0);
    }
    let amount = accounts.exchange_state.data.initializer_amount;
    if amount > accounts.exchange_state.lamports || amount > u64::MAX - accounts.initializer.lamports {
        return Err(InstructionError::LamportsOutOfRange);
    }
    let ctx = Context { program_id: *program_id, accounts: *accounts, bumps };
    let handled = cancel_sol_token(&ctx, exchange_idx);
    let close = Action::CloseStateAccount { account: accounts.exchange_state.key, destination: accounts.initializer.key };
    let actions = chain(Vec::new(), handled, vec![close]);
    proof {
        assert(actions_view(actions@) =~= cancel_sol_token_actions(*accounts));
    }
    Ok(actions)
}

/// Accounts for withdrawing a tokens-for-SOL offer.
#[derive(Clone, Copy, Debug)]
pub struct CancelTokenSol {
    pub initializer: AccountRef,
    pub initializer_mint: Pubkey,
    pub taker: Pubkey,
    /// The initializer's token account that gets the escrowed tokens back.
    pub initializer_withdraw_token_account: TokenAccount,
    pub exchange_state: StateAccount,
    pub escrow_wallet: TokenAccount,
}

impl CancelTokenSol {
    /// Seeds of the exchange's state account.
    pub open spec fn state_seeds(&self, exchange_idx: u64) -> Seq<Seq<u8>> {
        exchange_seeds(state_tag(), exchange_idx, token_sol_keys(self.initializer.key@, self.initializer_mint@, self.taker@))
    }

    /// Seeds of the exchange's escrow wallet.
    pub open spec fn wallet_seeds(&self, exchange_idx: u64) -> Seq<Seq<u8>> {
        exchange_seeds(wallet_tag(), exchange_idx, token_sol_keys(self.initializer.key@, self.initializer_mint@, self.taker@))
    }

    /// The rules on the accounts, in the order they are checked.
    pub open spec fn checks(&self, program_id: Seq<u8>, exchange_idx: u64) -> Seq<Check> {
        let withdraw = self.initializer_withdraw_token_account;
        let state = self.exchange_state;
        seq![
            (self.initializer.is_signer, error(ErrorCode::AccountNotSigner, AccountName::Initializer)),
            (
                withdraw.owner@ == self.initializer.key@,
                error(ErrorCode::ConstraintRaw, AccountName::InitializerWithdrawTokenAccount),
            ),
            (
                withdraw.mint@ == self.initializer_mint@,
                error(ErrorCode::ConstraintRaw, AccountName::InitializerWithdrawTokenAccount),
            ),
            (
                at_derived_address(state.key@, self.state_seeds(exchange_idx), program_id),
                error(ErrorCode::ConstraintSeeds, AccountName::ExchangeState),
            ),
            (
                state.data.initializer@ == self.initializer.key@,
                error(ErrorCode::ConstraintHasOne, AccountName::ExchangeState),
            ),
            (
                state.data.initializer_mint@ == self.initializer_mint@,
                error(ErrorCode::ConstraintHasOne, AccountName::ExchangeState),
            ),
            (state.data.taker@ == self.taker@, error(ErrorCode::ConstraintHasOne, AccountName::ExchangeState)),
            (state.key@ != self.initializer.key@, error(ErrorCode::ConstraintClose, AccountName::ExchangeState)),
            (
                at_derived_address(self.escrow_wallet.key@, self.wallet_seeds(exchange_idx), program_id),
                error(ErrorCode::ConstraintSeeds, AccountName::EscrowWallet),
            ),
            (
                self.escrow_wallet.mint@ == self.initializer_mint@,
                error(ErrorCode::ConstraintRaw, AccountName::EscrowWallet),
            ),
        ]
    }

    /// Checks the accounts; gives the bumps of the two derived addresses.
    pub fn validate(&self, program_id: &Pubkey, exchange_idx: u64) -> (bumps: Result<Bumps, AccountError>)
        ensures
            bumps is Err <==> first_failure(self.checks(program_id@, exchange_idx)) is Some,
            bumps matches Err(e) ==> first_failure(self.checks(program_id@, exchange_idx)) == Some(e),
            bumps matches Ok(b) ==> b == (Bumps {
                exchange_state: derived_bump(self.state_seeds(exchange_idx), program_id@),
                escrow_wallet: Some(derived_bump(self.wallet_seeds(exchange_idx), program_id@)),
            }),
    {
        proof {
            reveal_with_fuel(first_failure, 12);
        }
        if !self.initializer.is_signer {
            return Err(AccountError { code: ErrorCode::AccountNotSigner, account: AccountName::Initializer });
        }
        let withdraw = &self.initializer_withdraw_token_account;
        let raw = AccountError { code: ErrorCode::ConstraintRaw, account: AccountName::InitializerWithdrawTokenAccount };
        if !withdraw.owner.key_eq(&self.initializer.key) {
            return Err(raw);
        }
        if !withdraw.mint.key_eq(&self.initializer_mint) {
            return Err(raw);
        }
        let state = &self.exchange_state;
        let state_seeds = token_sol_state_seeds(exchange_idx, &self.initializer.key, &self.initializer_mint, &self.taker);
        let state_bump = match check_derived_address(&state.key, &state_seeds, program_id) {
            Some(bump) => bump,
            None => return Err(AccountError { code: ErrorCode::ConstraintSeeds, account: AccountName::ExchangeState }),
        };
        let has_one = AccountError { code: ErrorCode::ConstraintHasOne, account: AccountName::ExchangeState };
        if !state.data.initializer.key_eq(&self.initializer.key) {
            return Err(has_one);
        }
        if !state.data.initializer_mint.key_eq(&self.initializer_mint) {
            return Err(has_one);
        }
        if !state.data.taker.key_eq(&self.taker) {
            return Err(has_one);
        }
        if state.key.key_eq(&self.initializer.key) {
            return Err(AccountError { code: ErrorCode::ConstraintClose, account: AccountName::ExchangeState });
        }
        let wallet_seeds = token_sol_wallet_seeds(exchange_idx, &self.initializer.key, &self.initializer_mint, &self.taker);
        let wallet_bump = match check_derived_address(&self.escrow_wallet.key, &wallet_seeds, program_id) {
            Some(bump) => bump,
            None => return Err(AccountError { code: ErrorCode::ConstraintSeeds, account: AccountName::EscrowWallet }),
        };
        if !self.escrow_wallet.mint.key_eq(&self.initializer_mint) {
            return Err(AccountError { code: ErrorCode::ConstraintRaw, account: AccountName::EscrowWallet });
        }
        Ok(Bumps { exchange_state: state_bump, escrow_wallet: Some(wallet_bump) })
    }
}

/// Withdraws a tokens-for-SOL offer: the state account, signing with its seeds,
/// moves the escrowed tokens back to the initializer's token account and
/// closes the escrow wallet into the initializer.
pub fn cancel_token_sol(ctx: &Context<CancelTokenSol>, exchange_idx: u64) -> (actions: Vec<Action>)
    requires
        first_failure(ctx.accounts.checks(ctx.program_id@, exchange_idx)) is None,
        ctx.bumps == (Bumps {
            exchange_state: derived_bump(ctx.accounts.state_seeds(exchange_idx), ctx.program_id@),
            escrow_wallet: Some(derived_bump(ctx.accounts.wallet_seeds(exchange_idx), ctx.program_id@)),
        }),
    ensures
        actions_view(actions@) == seq![
            ActionView::TokenTransfer {
                from: ctx.accounts.escrow_wallet.key@,
                to: ctx.accounts.initializer_withdraw_token_account.key@,
                authority: ctx.accounts.exchange_state.key@,
                amount: ctx.accounts.exchange_state.data.initializer_amount,
                signer_seeds: with_bump(ctx.accounts.state_seeds(exchange_idx), ctx.bumps.exchange_state),
            },
            ActionView::CloseTokenAccount {
                account: ctx.accounts.escrow_wallet.key@,
                destination: ctx.accounts.initializer.key@,
                authority: ctx.accounts.exchange_state.key@,
                signer_seeds: with_bump(ctx.accounts.state_seeds(exchange_idx), ctx.bumps.exchange_state),
            },
        ],
{
    let accounts = &ctx.accounts;
    let amount = accounts.exchange_state.data.initializer_amount;
    let bump = ctx.bumps.exchange_state;
    let mut transfer_seeds = token_sol_state_seeds(
        exchange_idx,
        &accounts.initializer.key,
        &accounts.initializer_mint,
        &accounts.taker,
    );
    push_bump(&mut transfer_seeds, bump);
    let mut close_seeds = token_sol_state_seeds(
        exchange_idx,
        &accounts.initializer.key,
        &accounts.initializer_mint,
        &accounts.taker,
    );
    push_bump(&mut close_seeds, bump);
    let transfer = Action::TokenTransfer {
        from: accounts.escrow_wallet.key,
        to: accounts.initializer_withdraw_token_account.key,
        authority: accounts.exchange_state.key,
        amount,
        signer_seeds: transfer_seeds,
    };
    let close = Action::CloseTokenAccount {
        account: accounts.escrow_wallet.key,
        destination: accounts.initializer.key,
        authority: accounts.exchange_state.key,
        signer_seeds: close_seeds,
    };
    let actions: Vec<Action> = vec![transfer, close];
    proof {
        assert(actions_view(actions@) =~= seq![transfer@, close@]);
    }
    actions
}

/// Everything that withdrawing a tokens-for-SOL offer does, once its accounts pass
/// their rules: the handler's actions, then closing the state account into
/// the initializer.
pub open spec fn cancel_token_sol_actions(accounts: CancelTokenSol, program_id: Seq<u8>, exchange_idx: u64) -> Seq<ActionView> {
    let state = accounts.exchange_state;
    let signer_seeds = with_bump(
        accounts.state_seeds(exchange_idx),
        derived_bump(accounts.state_seeds(exchange_idx), program_id),
    );
    seq![
        ActionView::TokenTransfer {
            from: accounts.escrow_wallet.key@,
            to: accounts.initializer_withdraw_token_account.key@,
            authority: state.key@,
            amount: state.data.initializer_amount,
            signer_seeds,
        },
        ActionView::CloseTokenAccount {
            account: accounts.escrow_wallet.key@,
            destination: accounts.initializer.key@,
            authority: state.key@,
            signer_seeds,
        },
        ActionView::CloseStateAccount { account: state.key@, destination: accounts.initializer.key@ },
    ]
}

/// Withdraws a tokens-for-SOL offer: checks the accounts, runs the handler and
/// closes the state account.
pub fn process_cancel_token_sol(program_id: &Pubkey, accounts: &CancelTokenSol, exchange_idx: u64) -> (result: Result<
    Vec<Action>,
    InstructionError,
>)
    ensures
        match first_failure(accounts.checks(program_id@, exchange_idx)) {
            Some(e) => result == Err::<Vec<Action>, InstructionError>(InstructionError::Account(e)),
            None => result matches Ok(actions) && actions_view(actions@) == cancel_token_sol_actions(
                *accounts,
                program_id@,
                exchange_idx,
            ),
        },
{
    let bumps = match accounts.validate(program_id, exchange_idx) {
        Ok(b) => b,
        Err(e) => return Err(InstructionError::Account(e)),
    };
    let ctx = Context { program_id: *program_id, accounts: *accounts, bumps };
    let handled = cancel_token_sol(&ctx, exchange_idx);
    let close = Action::CloseStateAccount { account: accounts.exchange_state.key, destination: accounts.initializer.key };
    let actions = chain(Vec::new(), handled, vec![close]);
    proof {
        assert(actions_view(actions@) =~= cancel_token_sol_actions(*accounts, program_id@, exchange_idx));
    }
    Ok(actions)
}

/// Accounts for withdrawing a tokens-for-tokens offer.
#[derive(Clone, Copy, Debug)]
pub struct CancelTokenToken {
    pub initializer: AccountRef,
    pub initializer_mint: Pubkey,
    pub taker: Pubkey,
    pub taker_mint: Pubkey,
    /// The initializer's token account that gets the escrowed tokens back.
    pub initializer_withdraw_token_account: TokenAccount,
    pub exchange_state: StateAccount,
    pub escrow_wallet: TokenAccount,
}

impl CancelTokenToken {
    /// Seeds of the exchange's state account.
    pub open spec fn state_seeds(&self, exchange_idx: u64) -> Seq<Seq<u8>> {
        exchange_seeds(state_tag(), exchange_idx, token_token_keys(self.initializer.key@, self.initializer_mint@, self.taker@, self.taker_mint@))
    }

    /// Seeds of the exchange's escrow wallet.
    pub open spec fn wallet_seeds(&self, exchange_idx: u64) -> Seq<Seq<u8>> {
        exchange_seeds(wallet_tag(), exchange_idx, token_token_keys(self.initializer.key@, self.initializer_mint@, self.taker@, self.taker_mint@))
    }

    /// The rules on the accounts, in the order they are checked.
    pub open spec fn checks(&self, program_id: Seq<u8>, exchange_idx: u64) -> Seq<Check> {
        let withdraw = self.initializer_withdraw_token_account;
        let state = self.exchange_state;
        seq![
            (self.initializer.is_signer, error(ErrorCode::AccountNotSigner, AccountName::Initializer)),
            (
                withdraw.owner@ == self.initializer.key@,
                error(ErrorCode::ConstraintRaw, AccountName::InitializerWithdrawTokenAccount),
            ),
            (
                withdraw.mint@ == self.initializer_mint@,
                error(ErrorCode::ConstraintRaw, AccountName::InitializerWithdrawTokenAccount),
            ),
            (
                at_derived_address(state.key@, self.state_seeds(exchange_idx), program_id),
                error(ErrorCode::ConstraintSeeds, AccountName::ExchangeState),
            ),
            (
                state.data.initializer@ == self.initializer.key@,
                error(ErrorCode::ConstraintHasOne, AccountName::ExchangeState),
            ),
            (
                state.data.initializer_mint@ == self.initializer_mint@,
                error(ErrorCode::ConstraintHasOne, AccountName::ExchangeState),
            ),
            (state.data.taker@ == self.taker@, error(ErrorCode::ConstraintHasOne, AccountName::ExchangeState)),
            (
                state.data.taker_mint@ == self.taker_mint@,
                error(ErrorCode::ConstraintHasOne, AccountName::ExchangeState),
            ),
            (state.key@ != self.initializer.key@, error(ErrorCode::ConstraintClose, AccountName::ExchangeState)),
            (
                at_derived_address(self.escrow_wallet.key@, self.wallet_seeds(exchange_idx), program_id),
                error(ErrorCode::ConstraintSeeds, AccountName::EscrowWallet),
            ),
            (
                self.escrow_wallet.mint@ == self.initializer_mint@,
                error(ErrorCode::ConstraintRaw, AccountName::EscrowWallet),
            ),
        ]
    }

    /// Checks the accounts; gives the bumps of the two derived addresses.
    pub fn validate(&self, program_id: &Pubkey, exchange_idx: u64) -> (bumps: Result<Bumps, AccountError>)
        ensures
            bumps is Err <==> first_failure(self.checks(program_id@, exchange_idx)) is Some,
            bumps matches Err(e) ==> first_failure(self.checks(program_id@, exchange_idx)) == Some(e),
            bumps matches Ok(b) ==> b == (Bumps {
                exchange_state: derived_bump(self.state_seeds(exchange_idx), program_id@),
                escrow_wallet: Some(derived_bump(self.wallet_seeds(exchange_idx), program_id@)),
            }),
    {
        proof {
            reveal_with_fuel(first_failure, 13);
        }
        if !self.initializer.is_signer {
            return Err(AccountError { code: ErrorCode::AccountNotSigner, account: AccountName::Initializer });
        }
        let withdraw = &self.initializer_withdraw_token_account;
        let raw = AccountError { code: ErrorCode::ConstraintRaw, account: AccountName::InitializerWithdrawTokenAccount };
        if !withdraw.owner.key_eq(&self.initializer.key) {
            return Err(raw);
        }
        if !withdraw.mint.key_eq(&self.initializer_mint) {
            return Err(raw);
        }
        let state = &self.exchange_state;
        let state_seeds = token_token_state_seeds(exchange_idx, &self.initializer.key, &self.initializer_mint, &self.taker, &self.taker_mint);
        let state_bump = match check_derived_address(&state.key, &state_seeds, program_id) {
            Some(bump) => bump,
            None => return Err(AccountError { code: ErrorCode::ConstraintSeeds, account: AccountName::ExchangeState }),
        };
        let has_one = AccountError { code: ErrorCode::ConstraintHasOne, account: AccountName::ExchangeState };
        if !state.data.initializer.key_eq(&self.initializer.key) {
            return Err(has_one);
        }
        if !state.data.initializer_mint.key_eq(&self.initializer_mint) {
            return Err(has_one);
        }
        if !state.data.taker.key_eq(&self.taker) {
            return Err(has_one);
        }
        if !state.data.taker_mint.key_eq(&self.taker_mint) {
            return Err(has_one);
        }
        if state.key.key_eq(&self.initializer.key) {
            return Err(AccountError { code: ErrorCode::ConstraintClose, account: AccountName::ExchangeState });
        }
        let wallet_seeds = token_token_wallet_seeds(exchange_idx, &self.initializer.key, &self.initializer_mint, &self.taker, &self.taker_mint);
        let wallet_bump = match check_derived_address(&self.escrow_wallet.key, &wallet_seeds, program_id) {
            Some(bump) => bump,
            None => return Err(AccountError { code: ErrorCode::ConstraintSeeds, account: AccountName::EscrowWallet }),
        };
        if !self.escrow_wallet.mint.key_eq(&self.initializer_mint) {
            return Err(AccountError { code: ErrorCode::ConstraintRaw, account: AccountName::EscrowWallet });
        }
        Ok(Bumps { exchange_state: state_bump, escrow_wallet: Some(wallet_bump) })
    }
}

/// Withdraws a tokens-for-tokens offer: the state account, signing with its seeds,
/// moves the escrowed tokens back to the initializer's token account and
/// closes the escrow wallet into the initializer.
pub fn cancel_token_token(ctx: &Context<CancelTokenToken>, exchange_idx: u64) -> (actions: Vec<Action>)
    requires
        first_failure(ctx.accounts.checks(ctx.program_id@, exchange_idx)) is None,
        ctx.bumps == (Bumps {
            exchange_state: derived_bump(ctx.accounts.state_seeds(exchange_idx), ctx.program_id@),
            escrow_wallet: Some(derived_bump(ctx.accounts.wallet_seeds(exchange_idx), ctx.program_id@)),
        }),
    ensures
        actions_view(actions@) == seq![
            ActionView::TokenTransfer {
                from: ctx.accounts.escrow_wallet.key@,
                to: ctx.accounts.initializer_withdraw_token_account.key@,
                authority: ctx.accounts.exchange_state.key@,
                amount: ctx.accounts.exchange_state.data.initializer_amount,
                signer_seeds: with_bump(ctx.accounts.state_seeds(exchange_idx), ctx.bumps.exchange_state),
            },
            ActionView::CloseTokenAccount {
                account: ctx.accounts.escrow_wallet.key@,
                destination: ctx.accounts.initializer.key@,
                authority: ctx.accounts.exchange_state.key@,
                signer_seeds: with_bump(ctx.accounts.state_seeds(exchange_idx), ctx.bumps.exchange_state),
            },
        ],
{
    let accounts = &ctx.accounts;
    let amount = accounts.exchange_state.data.initializer_amount;
    let bump = ctx.bumps.exchange_state;
    let mut transfer_seeds = token_token_state_seeds(
        exchange_idx,
        &accounts.initializer.key,
        &accounts.initializer_mint,
        &accounts.taker,
        &accounts.taker_mint,
    );
    push_bump(&mut transfer_seeds, bump);
    let mut close_seeds = token_token_state_seeds(
        exchange_idx,
        &accounts.initializer.key,
        &accounts.initializer_mint,
        &accounts.taker,
        &accounts.taker_mint,
    );
    push_bump(&mut close_seeds, bump);
    let transfer = Action::TokenTransfer {
        from: accounts.escrow_wallet.key,
        to: accounts.initializer_withdraw_token_account.key,
        authority: accounts.exchange_state.key,
        amount,
        signer_seeds: transfer_seeds,
    };
    let close = Action::CloseTokenAccount {
        account: accounts.escrow_wallet.key,
        destination: accounts.initializer.key,
        authority: accounts.exchange_state.key,
        signer_seeds: close_seeds,
    };
    let actions: Vec<Action> = vec![transfer, close];
    proof {
        assert(actions_view(actions@) =~= seq![transfer@, close@]);
    }
    actions
}

/// Everything that withdrawing a tokens-for-tokens offer does, once its accounts pass
/// their rules: the handler's actions, then closing the state account into
/// the initializer.
pub open spec fn cancel_token_token_actions(accounts: CancelTokenToken, program_id: Seq<u8>, exchange_idx: u64) -> Seq<ActionView> {
    let state = accounts.exchange_state;
    let signer_seeds = with_bump(
        accounts.state_seeds(exchange_idx),
        derived_bump(accounts.state_seeds(exchange_idx), program_id),
    );
    seq![
        ActionView::TokenTransfer {
            from: accounts.escrow_wallet.key@,
            to: accounts.initializer_withdraw_token_account.key@,
            authority: state.key@,
            amount: state.data.initializer_amount,
            signer_seeds,
        },
        ActionView::CloseTokenAccount {
            account: accounts.escrow_wallet.key@,
            destination: accounts.initializer.key@,
            authority: state.key@,
            signer_seeds,
        },
        ActionView::CloseStateAccount { account: state.key@, destination: accounts.initializer.key@ },
    ]
}

/// Withdraws a tokens-for-tokens offer: checks the accounts, runs the handler and
/// closes the state account.
pub fn process_cancel_token_token(program_id: &Pubkey, accounts: &CancelTokenToken, exchange_idx: u64) -> (result: Result<
    Vec<Action>,
    InstructionError,
>)
    ensures
        match first_failure(accounts.checks(program_id@, exchange_idx)) {
            Some(e) => result == Err::<Vec<Action>, InstructionError>(InstructionError::Account(e)),
            None => result matches Ok(actions) && actions_view(actions@) == cancel_token_token_actions(
                *accounts,
                program_id@,
                exchange_idx,
            ),
        },
{
    let bumps = match accounts.validate(program_id, exchange_idx) {
        Ok(b) => b,
        Err(e) => return Err(InstructionError::Account(e)),
    };
    let ctx = Context { program_id: *program_id, accounts: *accounts, bumps };
    let handled = cancel_token_token(&ctx, exchange_idx);
    let close = Action::CloseStateAccount { account: accounts.exchange_state.key, destination: accounts.initializer.key };
    let actions = chain(Vec::new(), handled, vec![close]);
    proof {
        assert(actions_view(actions@) =~= cancel_token_token_actions(*accounts, program_id@, exchange_idx));
    }
    Ok(actions)
}

} // verus!
