use vstd::prelude::*;

use crate::accounts::{
    at_derived_address, check_derived_address, derived_bump, error, first_failure, lemma_all_checks_hold, AccountError,
    AccountName, AccountRef, Bumps, Check, Context, ErrorCode, InstructionError, StateAccount, TokenAccount,
};
use crate::actions::{actions_view, chain, Action, ActionView};
use crate::lamports::{can_move, move_lamports};
use crate::pda::find_program_address;
use crate::pubkey::Pubkey;
use crate::seeds::{
    exchange_seeds, push_bump, seeds_view, sol_token_keys, sol_token_state_seeds, state_tag, token_sol_keys,
    token_sol_state_seeds, token_sol_wallet_seeds, token_token_keys, token_token_state_seeds, token_token_wallet_seeds,
    wallet_tag, with_bump,
};

verus! {

/// Accounts for taking a SOL-for-tokens offer.
#[derive(Clone, Copy, Debug)]
pub struct ExchangeSolToken {
    pub initializer: Pubkey,
    pub taker: AccountRef,
    pub taker_mint: Pubkey,
    /// The initializer's token account that receives the taker's tokens.
    pub initializer_receive_token_account: TokenAccount,
    /// The taker's token account that pays the initializer.
    pub taker_withdraw_token_account: TokenAccount,
    pub exchange_state: StateAccount,
}

impl ExchangeSolToken {
    /// Seeds of the exchange's state account.
    pub open spec fn state_seeds(&self, exchange_idx: u64) -> Seq<Seq<u8>> {
        exchange_seeds(state_tag(), exchange_idx, sol_token_keys(self.initializer@, self.taker.key@, self.taker_mint@))
    }

    /// The rules on the accounts, in the order they are checked.
    pub open spec fn checks(&self, program_id: Seq<u8>, exchange_idx: u64) -> Seq<Check> {
        let receive = self.initializer_receive_token_account;
        let withdraw = self.taker_withdraw_token_account;
        let state = self.exchange_state;
        seq![
            (self.taker.is_signer, error(ErrorCode::AccountNotSigner, AccountName::Taker)),
            (
                receive.owner@ == self.initializer@,
                error(ErrorCode::ConstraintRaw, AccountName::InitializerReceiveTokenAccount),
            ),
            (
                receive.mint@ == self.taker_mint@,
                error(ErrorCode::ConstraintRaw, AccountName::InitializerReceiveTokenAccount),
            ),
            (
                withdraw.amount >= state.data.taker_amount,
                error(ErrorCode::ConstraintRaw, AccountName::TakerWithdrawTokenAccount),
            ),
            (withdraw.owner@ == self.taker.key@, error(ErrorCode::ConstraintRaw, AccountName::TakerWithdrawTokenAccount)),
            (withdraw.mint@ == self.taker_mint@, error(ErrorCode::ConstraintRaw, AccountName::TakerWithdrawTokenAccount)),
            (
                at_derived_address(state.key@, self.state_seeds(exchange_idx), program_id),
                error(ErrorCode::ConstraintSeeds, AccountName::ExchangeState),
            ),
            (state.data.initializer@ == self.initializer@, error(ErrorCode::ConstraintHasOne, AccountName::ExchangeState)),
            (state.data.taker@ == self.taker.key@, error(ErrorCode::ConstraintHasOne, AccountName::ExchangeState)),
            (state.data.taker_mint@ == self.taker_mint@, error(ErrorCode::ConstraintHasOne, AccountName::ExchangeState)),
            (state.key@ != self.initializer@, error(ErrorCode::ConstraintClose, AccountName::ExchangeState)),
        ]
    }

    /// Checks the accounts; gives the bump of the state account's address.
    pub fn validate(&self, program_id: &Pubkey, exchange_idx: u64) -> (bumps: Result<Bumps, AccountError>)
        ensures
            bumps is Err <==> first_failure(self.checks(program_id@, exchange_idx)) is Some,
            bumps matches Err(e) ==> first_failure(self.checks(program_id@, exchange_idx)) == Some(e),
            bumps matches Ok(b) ==> b == (Bumps {
                exchange_state: derived_bump(self.state_seeds(exchange_idx), program_id@),
                escrow_wallet: None,
            }),
    {
        proof {
            reveal_with_fuel(first_failure, 12);
        }
        if !self.taker.is_signer {
            return Err(AccountError { code: ErrorCode::AccountNotSigner, account: AccountName::Taker });
        }
        let receive = &self.initializer_receive_token_account;
        let raw = AccountError { code: ErrorCode::ConstraintRaw, account: AccountName::InitializerReceiveTokenAccount };
        if !receive.owner.key_eq(&self.initializer) {
            return Err(raw);
        }
        if !receive.mint.key_eq(&self.taker_mint) {
            return Err(raw);
        }
        let withdraw = &self.taker_withdraw_token_account;
        let state = &self.exchange_state;
        let raw = AccountError { code: ErrorCode::ConstraintRaw, account: AccountName::TakerWithdrawTokenAccount };
        if withdraw.amount < state.data.taker_amount {
            return Err(raw);
        }
        if !withdraw.owner.key_eq(&self.taker.key) {
            return Err(raw);
        }
        if !withdraw.mint.key_eq(&self.taker_mint) {
            return Err(raw);
        }
        let seeds = sol_token_state_seeds(exchange_idx, &self.initializer, &self.taker.key, &self.taker_mint);
        let bump = match check_derived_address(&state.key, &seeds, program_id) {
            Some(bump) => bump,
            None => return Err(AccountError { code: ErrorCode::ConstraintSeeds, account: AccountName::ExchangeState }),
        };
        let has_one = AccountError { code: ErrorCode::ConstraintHasOne, account: AccountName::ExchangeState };
        if !state.data.initializer.key_eq(&self.initializer) {
            return Err(has_one);
        }
        if !state.data.taker.key_eq(&self.taker.key) {
            return Err(has_one);
        }
        if !state.data.taker_mint.key_eq(&self.taker_mint) {
            return Err(has_one);
        }
        if state.key.key_eq(&self.initializer) {
            return Err(AccountError { code: ErrorCode::ConstraintClose, account: AccountName::ExchangeState });
        }
        Ok(Bumps { exchange_state: bump, escrow_wallet: None })
    }
}

/// Takes a SOL-for-tokens offer: checks that the state account is the one
/// derived for this exchange, the taker pays the asked tokens to the
/// initializer, and the offered lamports move from the state account to the taker.
pub fn exchange_sol_token(ctx: &Context<ExchangeSolToken>, exchange_idx: u64) -> (actions: Vec<Action>)
    requires
        first_failure(ctx.accounts.checks(ctx.program_id@, exchange_idx)) is None,
        ctx.bumps == (Bumps {
            exchange_state: derived_bump(ctx.accounts.state_seeds(exchange_idx), ctx.program_id@),
            escrow_wallet: None,
        }),
        can_move(
            ctx.accounts.exchange_state.lamports,
            ctx.accounts.taker.lamports,
            ctx.accounts.exchange_state.data.initializer_amount,
        ),
    ensures
        actions_view(actions@) == seq![
            ActionView::TokenTransfer {
                from: ctx.accounts.taker_withdraw_token_account.key@,
                to: ctx.accounts.initializer_receive_token_account.key@,
                authority: ctx.accounts.taker.key@,
                amount: ctx.accounts.exchange_state.data.taker_amount,
                signer_seeds: Seq::empty(),
            },
            ActionView::SetLamports {
                account: ctx.accounts.exchange_state.key@,
                lamports: (ctx.accounts.exchange_state.lamports - ctx.accounts.exchange_state.data.initializer_amount) as u64,
            },
            ActionView::SetLamports {
                account: ctx.accounts.taker.key@,
                lamports: (ctx.accounts.taker.lamports + ctx.accounts.exchange_state.data.initializer_amount) as u64,
            },
        ],
{
    let accounts = &ctx.accounts;
    let taker_amount = accounts.exchange_state.data.taker_amount;
    let initializer_amount = accounts.exchange_state.data.initializer_amount;
    let seeds = sol_token_state_seeds(exchange_idx, &accounts.initializer, &accounts.taker.key, &accounts.taker_mint);
    proof {
        lemma_all_checks_hold(accounts.checks(ctx.program_id@, exchange_idx));
        assert(accounts.checks(ctx.program_id@, exchange_idx)[6].0);
    }
    let found = find_program_address(&seeds, &ctx.program_id);
    let (address, _bump) = found.unwrap();
    // The account rules put the state account at the derived address.
    assert(address@ == accounts.exchange_state.key@);
    let transfer = Action::TokenTransfer {
        from: accounts.taker_withdraw_token_account.key,
        to: accounts.initializer_receive_token_account.key,
        authority: accounts.taker.key,
        amount: taker_amount,
        signer_seeds: Vec::new(),
    };
    let (state_lamports, taker_lamports) = move_lamports(
        accounts.exchange_state.lamports,
        accounts.taker.lamports,
        initializer_amount,
    );
    let debit = Action::SetLamports { account: accounts.exchange_state.key, lamports: state_lamports };
    let credit = Action::SetLamports { account: accounts.taker.key, lamports: taker_lamports };
    let actions: Vec<Action> = vec![transfer, debit, credit];
    proof {
        assert(seeds_view(Seq::<Vec<u8>>::empty()) =~= Seq::empty());
        assert(actions_view(actions@) =~= seq![transfer@, debit@, credit@]);
    }
    actions
}

/// Everything that taking a SOL-for-tokens offer does, once its accounts pass
/// their rules: the handler's actions, then closing the state account into
/// the initializer.
pub open spec fn exchange_sol_token_actions(accounts: ExchangeSolToken) -> Seq<ActionView> {
    let state = accounts.exchange_state;
    seq![
        ActionView::TokenTransfer {
            from: accounts.taker_withdraw_token_account.key@,
            to: accounts.initializer_receive_token_account.key@,
            authority: accounts.taker.key@,
            amount: state.data.taker_amount,
            signer_seeds: Seq::empty(),
        },
        ActionView::SetLamports {
            account: state.key@,
            lamports: (state.lamports - state.data.initializer_amount) as u64,
        },
        ActionView::SetLamports {
            account: accounts.taker.key@,
            lamports: (accounts.taker.lamports + state.data.initializer_amount) as u64,
        },
        ActionView::CloseStateAccount { account: state.key@, destination: accounts.initializer@ },
    ]
}

/// Takes a SOL-for-tokens offer: checks the accounts, runs the handler and
/// closes the state account.
pub fn process_exchange_sol_token(program_id: &Pubkey, accounts: &ExchangeSolToken, exchange_idx: u64) -> (result:
    Result<Vec<Action>, InstructionError>)
    ensures
        match first_failure(accounts.checks(program_id@, exchange_idx)) {
            Some(e) => result == Err::<Vec<Action>, InstructionError>(InstructionError::Account(e)),
            None => if can_move(
                accounts.exchange_state.lamports,
                accounts.taker.lamports,
                accounts.exchange_state.data.initializer_amount,
            ) {
                result matches Ok(actions) && actions_view(actions@) == exchange_sol_token_actions(*accounts)
            } else {
                result == Err::<Vec<Action>, InstructionError>(InstructionError::LamportsOutOfRange)
            },
        },
{
    let bumps = match accounts.validate(program_id, exchange_idx) {
        Ok(b) => b,
        Err(e) => return Err(InstructionError::Account(e)),
    };
    proof {
        lemma_all_checks_hold(accounts.checks(program_id@, exchange_idx));
        assert(accounts.checks(program_id@, exchange_idx)[6].0);
    }
    let amount = accounts.exchange_state.data.initializer_amount;
    if amount > accounts.exchange_state.lamports || amount > u64::MAX - accounts.taker.lamports {
        return Err(InstructionError::LamportsOutOfRange);
    }
    let ctx = Context { program_id: *program_id, accounts: *accounts, bumps };
    let handled = exchange_sol_token(&ctx, exchange_idx);
    let close = Action::CloseStateAccount { account: accounts.exchange_state.key, destination: accounts.initializer };
    let actions = chain(Vec::new(), handled, vec![close]);
    proof {
        assert(actions_view(actions@) =~= exchange_sol_token_actions(*accounts));
    }
    Ok(actions)
}

/// Accounts for taking a tokens-for-SOL offer.
#[derive(Clone, Copy, Debug)]
pub struct ExchangeTokenSol {
    pub initializer: Pubkey,
    pub initializer_mint: Pubkey,
    pub taker: AccountRef,
    /// The taker's token account that receives the escrowed tokens.
    pub taker_receive_token_account: TokenAccount,
    pub exchange_state: StateAccount,
    pub escrow_wallet: TokenAccount,
}

impl ExchangeTokenSol {
    /// Seeds of the exchange's state account.
    pub open spec fn state_seeds(&self, exchange_idx: u64) -> Seq<Seq<u8>> {
        exchange_seeds(state_tag(), exchange_idx, token_sol_keys(self.initializer@, self.initializer_mint@, self.taker.key@))
    }

    /// Seeds of the exchange's escrow wallet.
    pub open spec fn wallet_seeds(&self, exchange_idx: u64) -> Seq<Seq<u8>> {
        exchange_seeds(wallet_tag(), exchange_idx, token_sol_keys(self.initializer@, self.initializer_mint@, self.taker.key@))
    }

    /// The rules on the accounts, in the order they are checked.
    pub open spec fn checks(&self, program_id: Seq<u8>, exchange_idx: u64) -> Seq<Check> {
        let receive = self.taker_receive_token_account;
        let state = self.exchange_state;
        seq![
            (self.taker.is_signer, error(ErrorCode::AccountNotSigner, AccountName::Taker)),
            (receive.owner@ == self.taker.key@, error(ErrorCode::ConstraintRaw, AccountName::TakerReceiveTokenAccount)),
            (
                receive.mint@ == self.initializer_mint@,
                error(ErrorCode::ConstraintRaw, AccountName::TakerReceiveTokenAccount),
            ),
            (
                at_derived_address(state.key@, self.state_seeds(exchange_idx), program_id),
                error(ErrorCode::ConstraintSeeds, AccountName::ExchangeState),
            ),
            (state.data.initializer@ == self.initializer@, error(ErrorCode::ConstraintHasOne, AccountName::ExchangeState)),
            (
                state.data.initializer_mint@ == self.initializer_mint@,
                error(ErrorCode::ConstraintHasOne, AccountName::ExchangeState),
            ),
            (state.data.taker@ == self.taker.key@, error(ErrorCode::ConstraintHasOne, AccountName::ExchangeState)),
            (state.key@ != self.initializer@, error(ErrorCode::ConstraintClose, AccountName::ExchangeState)),
            (
                at_derived_address(self.escrow_wallet.key@, self.wallet_seeds(exchange_idx), program_id),
                error(ErrorCode::ConstraintSeeds, AccountName::EscrowWallet),
            ),
            (
                self.escrow_wallet.mint@ == self.initializer_mint@,
                error(ErrorCode::ConstraintRaw, AccountName::EscrowWallet),
            ),
        ]
    }

    /// Checks the accounts; gives the bumps of the two derived addresses.
    pub fn validate(&self, program_id: &Pubkey, exchange_idx: u64) -> (bumps: Result<Bumps, AccountError>)
        ensures
            bumps is Err <==> first_failure(self.checks(program_id@, exchange_idx)) is Some,
            bumps matches Err(e) ==> first_failure(self.checks(program_id@, exchange_idx)) == Some(e),
            bumps matches Ok(b) ==> b == (Bumps {
                exchange_state: derived_bump(self.state_seeds(exchange_idx), program_id@),
                escrow_wallet: Some(derived_bump(self.wallet_seeds(exchange_idx), program_id@)),
            }),
    {
        proof {
            reveal_with_fuel(first_failure, 11);
        }
        if !self.taker.is_signer {
            return Err(AccountError { code: ErrorCode::AccountNotSigner, account: AccountName::Taker });
        }
        let receive = &self.taker_receive_token_account;
        let raw = AccountError { code: ErrorCode::ConstraintRaw, account: AccountName::TakerReceiveTokenAccount };
        if !receive.owner.key_eq(&self.taker.key) {
            return Err(raw);
        }
        if !receive.mint.key_eq(&self.initializer_mint) {
            return Err(raw);
        }
        let state = &self.exchange_state;
        let state_seeds = token_sol_state_seeds(exchange_idx, &self.initializer, &self.initializer_mint, &self.taker.key);
        let state_bump = match check_derived_address(&state.key, &state_seeds, program_id) {
            Some(bump) => bump,
            None => return Err(AccountError { code: ErrorCode::ConstraintSeeds, account: AccountName::ExchangeState }),
        };
        let has_one = AccountError { code: ErrorCode::ConstraintHasOne, account: AccountName::ExchangeState };
        if !state.data.initializer.key_eq(&self.initializer) {
            return Err(has_one);
        }
        if !state.data.initializer_mint.key_eq(&self.initializer_mint) {
            return Err(has_one);
        }
        if !state.data.taker.key_eq(&self.taker.key) {
            return Err(has_one);
        }
        if state.key.key_eq(&self.initializer) {
            return Err(AccountError { code: ErrorCode::ConstraintClose, account: AccountName::ExchangeState });
        }
        let wallet_seeds = token_sol_wallet_seeds(exchange_idx, &self.initializer, &self.initializer_mint, &self.taker.key);
        let wallet_bump = match check_derived_address(&self.escrow_wallet.key, &wallet_seeds, program_id) {
            Some(bump) => bump,
            None => return Err(AccountError { code: ErrorCode::ConstraintSeeds, account: AccountName::EscrowWallet }),
        };
        if !self.escrow_wallet.mint.key_eq(&self.initializer_mint) {
            return Err(AccountError { code: ErrorCode::ConstraintRaw, account: AccountName::EscrowWallet });
        }
        Ok(Bumps { exchange_state: state_bump, escrow_wallet: Some(wallet_bump) })
    }
}

/// Takes a tokens-for-SOL offer: the taker pays the asked lamports to the
/// initializer, then the state account, signing with its seeds, releases the
/// escrowed tokens to the taker and closes the escrow wallet into the initializer.
pub fn exchange_token_sol(ctx: &Context<ExchangeTokenSol>, exchange_idx: u64) -> (actions: Vec<Action>)
    requires
        first_failure(ctx.accounts.checks(ctx.program_id@, exchange_idx)) is None,
        ctx.bumps == (Bumps {
            exchange_state: derived_bump(ctx.accounts.state_seeds(exchange_idx), ctx.program_id@),
            escrow_wallet: Some(derived_bump(ctx.accounts.wallet_seeds(exchange_idx), ctx.program_id@)),
        }),
    ensures
        actions_view(actions@) == seq![
            ActionView::SystemTransfer {
                from: ctx.accounts.taker.key@,
                to: ctx.accounts.initializer@,
                lamports: ctx.accounts.exchange_state.data.taker_amount,
            },
            ActionView::TokenTransfer {
                from: ctx.accounts.escrow_wallet.key@,
                to: ctx.accounts.taker_receive_token_account.key@,
                authority: ctx.accounts.exchange_state.key@,
                amount: ctx.accounts.exchange_state.data.initializer_amount,
                signer_seeds: with_bump(ctx.accounts.state_seeds(exchange_idx), ctx.bumps.exchange_state),
            },
            ActionView::CloseTokenAccount {
                account: ctx.accounts.escrow_wallet.key@,
                destination: ctx.accounts.initializer@,
                authority: ctx.accounts.exchange_state.key@,
                signer_seeds: with_bump(ctx.accounts.state_seeds(exchange_idx), ctx.bumps.exchange_state),
            },
        ],
{
    let accounts = &ctx.accounts;
    let taker_amount = accounts.exchange_state.data.taker_amount;
    let initializer_amount = accounts.exchange_state.data.initializer_amount;
    let bump = ctx.bumps.exchange_state;
    let mut transfer_seeds = token_sol_state_seeds(
        exchange_idx,
        &accounts.initializer,
        &accounts.initializer_mint,
        &accounts.taker.key,
    );
    push_bump(&mut transfer_seeds, bump);
    let mut close_seeds = token_sol_state_seeds(
        exchange_idx,
        &accounts.initializer,
        &accounts.initializer_mint,
        &accounts.taker.key,
    );
    push_bump(&mut close_seeds, bump);
    let payment = Action::SystemTransfer { from: accounts.taker.key, to: accounts.initializer, lamports: taker_amount };
    let release = Action::TokenTransfer {
        from: accounts.escrow_wallet.key,
        to: accounts.taker_receive_token_account.key,
        authority: accounts.exchange_state.key,
        amount: initializer_amount,
        signer_seeds: transfer_seeds,
    };
    let close = Action::CloseTokenAccount {
        account: accounts.escrow_wallet.key,
        destination: accounts.initializer,
        authority: accounts.exchange_state.key,
        signer_seeds: close_seeds,
    };
    let actions: Vec<Action> = vec![payment, release, close];
    proof {
        assert(actions_view(actions@) =~= seq![payment@, release@, close@]);
    }
    actions
}

/// Everything that taking a tokens-for-SOL offer does, once its accounts pass
/// their rules: the handler's actions, then closing the state account into
/// the initializer.
pub open spec fn exchange_token_sol_actions(accounts: ExchangeTokenSol, program_id: Seq<u8>, exchange_idx: u64) -> Seq<
    ActionView,
> {
    let state = accounts.exchange_state;
    let signer_seeds = with_bump(
        accounts.state_seeds(exchange_idx),
        derived_bump(accounts.state_seeds(exchange_idx), program_id),
    );
    seq![
        ActionView::SystemTransfer {
            from: accounts.taker.key@,
            to: accounts.initializer@,
            lamports: state.data.taker_amount,
        },
        ActionView::TokenTransfer {
            from: accounts.escrow_wallet.key@,
            to: accounts.taker_receive_token_account.key@,
            authority: state.key@,
            amount: state.data.initializer_amount,
            signer_seeds,
        },
        ActionView::CloseTokenAccount {
            account: accounts.escrow_wallet.key@,
            destination: accounts.initializer@,
            authority: state.key@,
            signer_seeds,
        },
        ActionView::CloseStateAccount { account: state.key@, destination: accounts.initializer@ },
    ]
}

/// Takes a tokens-for-SOL offer: checks the accounts, runs the handler and
/// closes the state account.
pub fn process_exchange_token_sol(program_id: &Pubkey, accounts: &ExchangeTokenSol, exchange_idx: u64) -> (result:
    Result<Vec<Action>, InstructionError>)
    ensures
        match first_failure(accounts.checks(program_id@, exchange_idx)) {
            Some(e) => result == Err::<Vec<Action>, InstructionError>(InstructionError::Account(e)),
            None => result matches Ok(actions) && actions_view(actions@) == exchange_token_sol_actions(
                *accounts,
                program_id@,
                exchange_idx,
            ),
        },
{
    let bumps = match accounts.validate(program_id, exchange_idx) {
        Ok(b) => b,
        Err(e) => return Err(InstructionError::Account(e)),
    };
    let ctx = Context { program_id: *program_id, accounts: *accounts, bumps };
    let handled = exchange_token_sol(&ctx, exchange_idx);
    let close = Action::CloseStateAccount { account: accounts.exchange_state.key, destination: accounts.initializer };
    let actions = chain(Vec::new(), handled, vec![close]);
    proof {
        assert(actions_view(actions@) =~= exchange_token_sol_actions(*accounts, program_id@, exchange_idx));
    }
    Ok(actions)
}

/// Accounts for taking a tokens-for-tokens offer.
#[derive(Clone, Copy, Debug)]
pub struct ExchangeTokenToken {
    pub initializer: Pubkey,
    pub initializer_mint: Pubkey,
    pub taker: AccountRef,
    pub taker_mint: Pubkey,
    /// The initializer's token account that receives the taker's tokens.
    pub initializer_receive_token_account: TokenAccount,
    /// The taker's token account that pays the initializer.
    pub taker_withdraw_token_account: TokenAccount,
    /// The taker's token account that receives the escrowed tokens.
    pub taker_receive_token_account: TokenAccount,
    pub exchange_state: StateAccount,
    pub escrow_wallet: TokenAccount,
}

impl ExchangeTokenToken {
    /// Seeds of the exchange's state account.
    pub open spec fn state_seeds(&self, exchange_idx: u64) -> Seq<Seq<u8>> {
        exchange_seeds(
            state_tag(),
            exchange_idx,
            token_token_keys(self.initializer@, self.initializer_mint@, self.taker.key@, self.taker_mint@),
        )
    }

    /// Seeds of the exchange's escrow wallet.
    pub open spec fn wallet_seeds(&self, exchange_idx: u64) -> Seq<Seq<u8>> {
        exchange_seeds(
            wallet_tag(),
            exchange_idx,
            token_token_keys(self.initializer@, self.initializer_mint@, self.taker.key@, self.taker_mint@),
        )
    }

    /// The rules on the accounts, in the order they are checked.
    pub open spec fn checks(&self, program_id: Seq<u8>, exchange_idx: u64) -> Seq<Check> {
        let init_receive = self.initializer_receive_token_account;
        let withdraw = self.taker_withdraw_token_account;
        let taker_receive = self.taker_receive_token_account;
        let state = self.exchange_state;
        seq![
            (self.taker.is_signer, error(ErrorCode::AccountNotSigner, AccountName::Taker)),
            (
                init_receive.owner@ == self.initializer@,
                error(ErrorCode::ConstraintRaw, AccountName::InitializerReceiveTokenAccount),
            ),
            (
                init_receive.mint@ == self.taker_mint@,
                error(ErrorCode::ConstraintRaw, AccountName::InitializerReceiveTokenAccount),
            ),
            (
                withdraw.amount >= state.data.taker_amount,
                error(ErrorCode::ConstraintRaw, AccountName::TakerWithdrawTokenAccount),
            ),
            (withdraw.owner@ == self.taker.key@, error(ErrorCode::ConstraintRaw, AccountName::TakerWithdrawTokenAccount)),
            (withdraw.mint@ == self.taker_mint@, error(ErrorCode::ConstraintRaw, AccountName::TakerWithdrawTokenAccount)),
            (
                taker_receive.owner@ == self.taker.key@,
                error(ErrorCode::ConstraintRaw, AccountName::TakerReceiveTokenAccount),
            ),
            (
                taker_receive.mint@ == self.initializer_mint@,
                error(ErrorCode::ConstraintRaw, AccountName::TakerReceiveTokenAccount),
            ),
            (
                at_derived_address(state.key@, self.state_seeds(exchange_idx), program_id),
                error(ErrorCode::ConstraintSeeds, AccountName::ExchangeState),
            ),
            (state.data.initializer@ == self.initializer@, error(ErrorCode::ConstraintHasOne, AccountName::ExchangeState)),
            (
                state.data.initializer_mint@ == self.initializer_mint@,
                error(ErrorCode::ConstraintHasOne, AccountName::ExchangeState),
            ),
            (state.data.taker@ == self.taker.key@, error(ErrorCode::ConstraintHasOne, AccountName::ExchangeState)),
            (state.data.taker_mint@ == self.taker_mint@, error(ErrorCode::ConstraintHasOne, AccountName::ExchangeState)),
            (state.key@ != self.initializer@, error(ErrorCode::ConstraintClose, AccountName::ExchangeState)),
            (
                at_derived_address(self.escrow_wallet.key@, self.wallet_seeds(exchange_idx), program_id),
                error(ErrorCode::ConstraintSeeds, AccountName::EscrowWallet),
            ),
            (
                self.escrow_wallet.mint@ == self.initializer_mint@,
                error(ErrorCode::ConstraintRaw, AccountName::EscrowWallet),
            ),
        ]
    }

    /// Checks the accounts; gives the bumps of the two derived addresses.
    pub fn validate(&self, program_id: &Pubkey, exchange_idx: u64) -> (bumps: Result<Bumps, AccountError>)
        ensures
            bumps is Err <==> first_failure(self.checks(program_id@, exchange_idx)) is Some,
            bumps matches Err(e) ==> first_failure(self.checks(program_id@, exchange_idx)) == Some(e),
            bumps matches Ok(b) ==> b == (Bumps {
                exchange_state: derived_bump(self.state_seeds(exchange_idx), program_id@),
                escrow_wallet: Some(derived_bump(self.wallet_seeds(exchange_idx), program_id@)),
            }),
    {
        proof {
            reveal_with_fuel(first_failure, 17);
        }
        if !self.taker.is_signer {
            return Err(AccountError { code: ErrorCode::AccountNotSigner, account: AccountName::Taker });
        }
        let init_receive = &self.initializer_receive_token_account;
        let raw = AccountError { code: ErrorCode::ConstraintRaw, account: AccountName::InitializerReceiveTokenAccount };
        if !init_receive.owner.key_eq(&self.initializer) {
            return Err(raw);
        }
        if !init_receive.mint.key_eq(&self.taker_mint) {
            return Err(raw);
        }
        let withdraw = &self.taker_withdraw_token_account;
        let state = &self.exchange_state;
        let raw = AccountError { code: ErrorCode::ConstraintRaw, account: AccountName::TakerWithdrawTokenAccount };
        if withdraw.amount < state.data.taker_amount {
            return Err(raw);
        }
        if !withdraw.owner.key_eq(&self.taker.key) {
            return Err(raw);
        }
        if !withdraw.mint.key_eq(&self.taker_mint) {
            return Err(raw);
        }
        let taker_receive = &self.taker_receive_token_account;
        let raw = AccountError { code: ErrorCode::ConstraintRaw, account: AccountName::TakerReceiveTokenAccount };
        if !taker_receive.owner.key_eq(&self.taker.key) {
            return Err(raw);
        }
        if !taker_receive.mint.key_eq(&self.initializer_mint) {
            return Err(raw);
        }
        let state_seeds = token_token_state_seeds(
            exchange_idx,
            &self.initializer,
            &self.initializer_mint,
            &self.taker.key,
            &self.taker_mint,
        );
        let state_bump = match check_derived_address(&state.key, &state_seeds, program_id) {
            Some(bump) => bump,
            None => return Err(AccountError { code: ErrorCode::ConstraintSeeds, account: AccountName::ExchangeState }),
        };
        let has_one = AccountError { code: ErrorCode::ConstraintHasOne, account: AccountName::ExchangeState };
        if !state.data.initializer.key_eq(&self.initializer) {
            return Err(has_one);
        }
        if !state.data.initializer_mint.key_eq(&self.initializer_mint) {
            return Err(has_one);
        }
        if !state.data.taker.key_eq(&self.taker.key) {
            return Err(has_one);
        }
        if !state.data.taker_mint.key_eq(&self.taker_mint) {
            return Err(has_one);
        }
        if state.key.key_eq(&self.initializer) {
            return Err(AccountError { code: ErrorCode::ConstraintClose, account: AccountName::ExchangeState });
        }
        let wallet_seeds = token_token_wallet_seeds(
            exchange_idx,
            &self.initializer,
            &self.initializer_mint,
            &self.taker.key,
            &self.taker_mint,
        );
        let wallet_bump = match check_derived_address(&self.escrow_wallet.key, &wallet_seeds, program_id) {
            Some(bump) => bump,
            None => return Err(AccountError { code: ErrorCode::ConstraintSeeds, account: AccountName::EscrowWallet }),
        };
        if !self.escrow_wallet.mint.key_eq(&self.initializer_mint) {
            return Err(AccountError { code: ErrorCode::ConstraintRaw, account: AccountName::EscrowWallet });
        }
        Ok(Bumps { exchange_state: state_bump, escrow_wallet: Some(wallet_bump) })
    }
}

/// Takes a tokens-for-tokens offer: the taker pays the asked tokens to the
/// initializer, then the state account, signing with its seeds, releases the
/// escrowed tokens to the taker and closes the escrow wallet into the initializer.
pub fn exchange_token_token(ctx: &Context<ExchangeTokenToken>, exchange_idx: u64) -> (actions: Vec<Action>)
    requires
        first_failure(ctx.accounts.checks(ctx.program_id@, exchange_idx)) is None,
        ctx.bumps == (Bumps {
            exchange_state: derived_bump(ctx.accounts.state_seeds(exchange_idx), ctx.program_id@),
            escrow_wallet: Some(derived_bump(ctx.accounts.wallet_seeds(exchange_idx), ctx.program_id@)),
        }),
    ensures
        actions_view(actions@) == seq![
            ActionView::TokenTransfer {
                from: ctx.accounts.taker_withdraw_token_account.key@,
                to: ctx.accounts.initializer_receive_token_account.key@,
                authority: ctx.accounts.taker.key@,
                amount: ctx.accounts.exchange_state.data.taker_amount,
                signer_seeds: Seq::empty(),
            },
            ActionView::TokenTransfer {
                from: ctx.accounts.escrow_wallet.key@,
                to: ctx.accounts.taker_receive_token_account.key@,
                authority: ctx.accounts.exchange_state.key@,
                amount: ctx.accounts.exchange_state.data.initializer_amount,
                signer_seeds: with_bump(ctx.accounts.state_seeds(exchange_idx), ctx.bumps.exchange_state),
            },
            ActionView::CloseTokenAccount {
                account: ctx.accounts.escrow_wallet.key@,
                destination: ctx.accounts.initializer@,
                authority: ctx.accounts.exchange_state.key@,
                signer_seeds: with_bump(ctx.accounts.state_seeds(exchange_idx), ctx.bumps.exchange_state),
            },
        ],
{
    let accounts = &ctx.accounts;
    let taker_amount = accounts.exchange_state.data.taker_amount;
    let initializer_amount = accounts.exchange_state.data.initializer_amount;
    let bump = ctx.bumps.exchange_state;
    let mut transfer_seeds = token_token_state_seeds(
        exchange_idx,
        &accounts.initializer,
        &accounts.initializer_mint,
        &accounts.taker.key,
        &accounts.taker_mint,
    );
    push_bump(&mut transfer_seeds, bump);
    let mut close_seeds = token_token_state_seeds(
        exchange_idx,
        &accounts.initializer,
        &accounts.initializer_mint,
        &accounts.taker.key,
        &accounts.taker_mint,
    );
    push_bump(&mut close_seeds, bump);
    let payment = Action::TokenTransfer {
        from: accounts.taker_withdraw_token_account.key,
        to: accounts.initializer_receive_token_account.key,
        authority: accounts.taker.key,
        amount: taker_amount,
        signer_seeds: Vec::new(),
    };
    let release = Action::TokenTransfer {
        from: accounts.escrow_wallet.key,
        to: accounts.taker_receive_token_account.key,
        authority: accounts.exchange_state.key,
        amount: initializer_amount,
        signer_seeds: transfer_seeds,
    };
    let close = Action::CloseTokenAccount {
        account: accounts.escrow_wallet.key,
        destination: accounts.initializer,
        authority: accounts.exchange_state.key,
        signer_seeds: close_seeds,
    };
    let actions: Vec<Action> = vec![payment, release, close];
    proof {
        assert(seeds_view(Seq::<Vec<u8>>::empty()) =~= Seq::empty());
        assert(actions_view(actions@) =~= seq![payment@, release@, close@]);
    }
    actions
}

/// Everything that taking a tokens-for-tokens offer does, once its accounts
/// pass their rules: the handler's actions, then closing the state account
/// into the initializer.
pub open spec fn exchange_token_token_actions(
    accounts: ExchangeTokenToken,
    program_id: Seq<u8>,
    exchange_idx: u64,
) -> Seq<ActionView> {
    let state = accounts.exchange_state;
    let signer_seeds = with_bump(
        accounts.state_seeds(exchange_idx),
        derived_bump(accounts.state_seeds(exchange_idx), program_id),
    );
    seq![
        ActionView::TokenTransfer {
            from: accounts.taker_withdraw_token_account.key@,
            to: accounts.initializer_receive_token_account.key@,
            authority: accounts.taker.key@,
            amount: state.data.taker_amount,
            signer_seeds: Seq::empty(),
        },
        ActionView::TokenTransfer {
            from: accounts.escrow_wallet.key@,
            to: accounts.taker_receive_token_account.key@,
            authority: state.key@,
            amount: state.data.initializer_amount,
            signer_seeds,
        },
        ActionView::CloseTokenAccount {
            account: accounts.escrow_wallet.key@,
            destination: accounts.initializer@,
            authority: state.key@,
            signer_seeds,
        },
        ActionView::CloseStateAccount { account: state.key@, destination: accounts.initializer@ },
    ]
}

/// Takes a tokens-for-tokens offer: checks the accounts, runs the handler and
/// closes the state account.
pub fn process_exchange_token_token(program_id: &Pubkey, accounts: &ExchangeTokenToken, exchange_idx: u64) -> (result:
    Result<Vec<Action>, InstructionError>)
    ensures
        match first_failure(accounts.checks(program_id@, exchange_idx)) {
            Some(e) => result == Err::<Vec<Action>, InstructionError>(InstructionError::Account(e)),
            None => result matches Ok(actions) && actions_view(actions@) == exchange_token_token_actions(
                *accounts,
                program_id@,
                exchange_idx,
            ),
        },
{
    let bumps = match accounts.validate(program_id, exchange_idx) {
        Ok(b) => b,
        Err(e) => return Err(InstructionError::Account(e)),
    };
    let ctx = Context { program_id: *program_id, accounts: *accounts, bumps };
    let handled = exchange_token_token(&ctx, exchange_idx);
    let close = Action::CloseStateAccount { account: accounts.exchange_state.key, destination: accounts.initializer };
    let actions = chain(Vec::new(), handled, vec![close]);
    proof {
        assert(actions_view(actions@) =~= exchange_token_token_actions(*accounts, program_id@, exchange_idx));
    }
    Ok(actions)
}

} // verus!
