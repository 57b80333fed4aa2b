use vstd::prelude::*;

use crate::accounts::{
    at_derived_address, check_derived_address, derived_bump, error, first_failure, AccountError, AccountName,
    AccountRef, Bumps, Check, Context, ErrorCode, InstructionError, TokenAccount,
};
use crate::actions::{actions_view, chain, Action, ActionView};
use crate::native_mint::{native_mint, spec_native_mint};
use crate::pubkey::Pubkey;
use crate::seeds::{
    exchange_seeds, push_bump, seeds_view, sol_token_keys, sol_token_state_seeds, state_tag, token_sol_keys,
    token_sol_state_seeds, token_sol_wallet_seeds, token_token_keys, token_token_state_seeds, token_token_wallet_seeds,
    wallet_tag, with_bump,
};
use crate::state::{discriminator_len, exchange_state_data_len, ExchangeState, ExchangeStateView};

verus! {

/// Accounts for opening an exchange in which the initializer offers SOL for
/// the taker's tokens.
#[derive(Clone, Copy, Debug)]
pub struct InitializeSolToken {
    pub initializer: AccountRef,
    pub taker: Pubkey,
    pub taker_mint: Pubkey,
    /// The state account to create.
    pub exchange_state: Pubkey,
}

impl InitializeSolToken {
    /// Seeds of the exchange's state account.
    pub open spec fn state_seeds(&self, exchange_idx: u64) -> Seq<Seq<u8>> {
        exchange_seeds(state_tag(), exchange_idx, sol_token_keys(self.initializer.key@, self.taker@, self.taker_mint@))
    }

    /// The rules on the accounts, in the order they are checked.
    pub open spec fn checks(&self, program_id: Seq<u8>, exchange_idx: u64) -> Seq<Check> {
        seq![
            (self.initializer.is_signer, error(ErrorCode::AccountNotSigner, AccountName::Initializer)),
            (
                at_derived_address(self.exchange_state@, self.state_seeds(exchange_idx), program_id),
                error(ErrorCode::ConstraintSeeds, AccountName::ExchangeState),
            ),
        ]
    }

    /// Checks the accounts; gives the bump of the state account's address.
    pub fn validate(&self, program_id: &Pubkey, exchange_idx: u64) -> (bumps: Result<Bumps, AccountError>)
        ensures
            bumps is Err <==> first_failure(self.checks(program_id@, exchange_idx)) is Some,
            bumps matches Err(e) ==> first_failure(self.checks(program_id@, exchange_idx)) == Some(e),
            bumps matches Ok(b) ==> b == (Bumps {
                exchange_state: derived_bump(self.state_seeds(exchange_idx), program_id@),
                escrow_wallet: None,
            }),
    {
        proof {
            reveal_with_fuel(first_failure, 3);
        }
        if !self.initializer.is_signer {
            return Err(AccountError { code: ErrorCode::AccountNotSigner, account: AccountName::Initializer });
        }
        let seeds = sol_token_state_seeds(exchange_idx, &self.initializer.key, &self.taker, &self.taker_mint);
        match check_derived_address(&self.exchange_state, &seeds, program_id) {
            Some(bump) => Ok(Bumps { exchange_state: bump, escrow_wallet: None }),
            None => Err(AccountError { code: ErrorCode::ConstraintSeeds, account: AccountName::ExchangeState }),
        }
    }
}

/// The state of an exchange as it is opened.
pub open spec fn opened_state(
    exchange_idx: u64,
    initializer: Seq<u8>,
    taker: Seq<u8>,
    initializer_mint: Seq<u8>,
    taker_mint: Seq<u8>,
    initializer_amount: u64,
    taker_amount: u64,
) -> ExchangeStateView {
    ExchangeStateView {
        exchange_idx,
        initializer,
        taker,
        initializer_mint,
        taker_mint,
        initializer_amount,
        taker_amount,
    }
}

/// The space allocated for a state account, in bytes: its discriminator and
/// its stored fields.
pub open spec fn state_space() -> usize {
    (discriminator_len() + exchange_state_data_len()) as usize
}

/// Records the offer of `initializer_amount` lamports for `taker_amount`
/// tokens of the taker's mint, and moves the lamports from the initializer
/// into the state account.
pub fn initialize_sol_token(
    ctx: &Context<InitializeSolToken>,
    exchange_idx: u64,
    initializer_amount: u64,
    taker_amount: u64,
) -> (out: (ExchangeState, Vec<Action>))
    requires
        first_failure(ctx.accounts.checks(ctx.program_id@, exchange_idx)) is None,
        ctx.bumps == (Bumps {
            exchange_state: derived_bump(ctx.accounts.state_seeds(exchange_idx), ctx.program_id@),
            escrow_wallet: None,
        }),
        spec_native_mint() is Some,
    ensures
        out.0@ == opened_state(
            exchange_idx,
            ctx.accounts.initializer.key@,
            ctx.accounts.taker@,
            spec_native_mint().unwrap(),
            ctx.accounts.taker_mint@,
            initializer_amount,
            taker_amount,
        ),
        actions_view(out.1@) == seq![
            ActionView::SystemTransfer {
                from: ctx.accounts.initializer.key@,
                to: ctx.accounts.exchange_state@,
                lamports: initializer_amount,
            },
        ],
{
    let initializer_mint = native_mint().unwrap();
    let state = ExchangeState {
        exchange_idx,
        initializer: ctx.accounts.initializer.key,
        initializer_mint,
        initializer_amount,
        taker: ctx.accounts.taker,
        taker_mint: ctx.accounts.taker_mint,
        taker_amount,
    };
    let transfer = Action::SystemTransfer {
        from: ctx.accounts.initializer.key,
        to: ctx.accounts.exchange_state,
        lamports: initializer_amount,
    };
    let actions: Vec<Action> = vec![transfer];
    proof {
        assert(actions_view(actions@) =~= seq![transfer@]);
    }
    (state, actions)
}

/// Everything that opening a SOL-for-tokens exchange does, once its accounts
/// pass their rules: create the state account, move the lamports, store the state.
pub open spec fn initialize_sol_token_actions(
    accounts: InitializeSolToken,
    program_id: Seq<u8>,
    exchange_idx: u64,
    initializer_amount: u64,
    taker_amount: u64,
    native_mint: Seq<u8>,
) -> Seq<ActionView> {
    seq![
        ActionView::CreateStateAccount {
            payer: accounts.initializer.key@,
            account: accounts.exchange_state@,
            space: state_space(),
            signer_seeds: with_bump(
                accounts.state_seeds(exchange_idx),
                derived_bump(accounts.state_seeds(exchange_idx), program_id),
            ),
        },
        ActionView::SystemTransfer {
            from: accounts.initializer.key@,
            to: accounts.exchange_state@,
            lamports: initializer_amount,
        },
        ActionView::WriteState {
            account: accounts.exchange_state@,
            state: opened_state(
                exchange_idx,
                accounts.initializer.key@,
                accounts.taker@,
                native_mint,
                accounts.taker_mint@,
                initializer_amount,
                taker_amount,
            ),
        },
    ]
}

/// Opens an exchange of SOL for tokens: checks the accounts, creates the
/// state account, runs the handler and stores the state.
pub fn process_initialize_sol_token(
    program_id: &Pubkey,
    accounts: &InitializeSolToken,
    exchange_idx: u64,
    initializer_amount: u64,
    taker_amount: u64,
) -> (result: Result<Vec<Action>, InstructionError>)
    ensures
        match first_failure(accounts.checks(program_id@, exchange_idx)) {
            Some(e) => result == Err::<Vec<Action>, InstructionError>(InstructionError::Account(e)),
            None => match spec_native_mint() {
                None => result == Err::<Vec<Action>, InstructionError>(InstructionError::NativeMintUnavailable),
                Some(mint) => result matches Ok(actions) && actions_view(actions@) == initialize_sol_token_actions(
                    *accounts,
                    program_id@,
                    exchange_idx,
                    initializer_amount,
                    taker_amount,
                    mint,
                ),
            },
        },
{
    let bumps = match accounts.validate(program_id, exchange_idx) {
        Ok(b) => b,
        Err(e) => return Err(InstructionError::Account(e)),
    };
    if native_mint().is_none() {
        return Err(InstructionError::NativeMintUnavailable);
    }
    let ctx = Context { program_id: *program_id, accounts: *accounts, bumps };
    let mut signer_seeds = sol_token_state_seeds(
        exchange_idx,
        &accounts.initializer.key,
        &accounts.taker,
        &accounts.taker_mint,
    );
    push_bump(&mut signer_seeds, bumps.exchange_state);
    let create = Action::CreateStateAccount {
        payer: accounts.initializer.key,
        account: accounts.exchange_state,
        space: ExchangeState::space(),
        signer_seeds,
    };
    let (state, handled) = initialize_sol_token(&ctx, exchange_idx, initializer_amount, taker_amount);
    let write = Action::WriteState { account: accounts.exchange_state, state };
    let actions = chain(vec![create], handled, vec![write]);
    proof {
        assert(actions_view(actions@) =~= initialize_sol_token_actions(
            *accounts,
            program_id@,
            exchange_idx,
            initializer_amount,
            taker_amount,
            spec_native_mint().unwrap(),
        ));
    }
    Ok(actions)
}

/// Accounts for opening an exchange in which the initializer offers tokens
/// for the taker's SOL.
#[derive(Clone, Copy, Debug)]
pub struct InitializeTokenSol {
    pub initializer: AccountRef,
    pub initializer_mint: Pubkey,
    pub taker: Pubkey,
    /// The initializer's token account that funds the escrow.
    pub initializer_withdraw_token_account: TokenAccount,
    /// The state account to create.
    pub exchange_state: Pubkey,
    /// The escrow token account to create.
    pub escrow_wallet: Pubkey,
}

impl InitializeTokenSol {
    /// Seeds of the exchange's state account.
    pub open spec fn state_seeds(&self, exchange_idx: u64) -> Seq<Seq<u8>> {
        exchange_seeds(
            state_tag(),
            exchange_idx,
            token_sol_keys(self.initializer.key@, self.initializer_mint@, self.taker@),
        )
    }

    /// Seeds of the exchange's escrow wallet.
    pub open spec fn wallet_seeds(&self, exchange_idx: u64) -> Seq<Seq<u8>> {
        exchange_seeds(
            wallet_tag(),
            exchange_idx,
            token_sol_keys(self.initializer.key@, self.initializer_mint@, self.taker@),
        )
    }

    /// The rules on the accounts, in the order they are checked.
    pub open spec fn checks(&self, program_id: Seq<u8>, exchange_idx: u64, initializer_amount: u64) -> Seq<Check> {
        let withdraw = self.initializer_withdraw_token_account;
        seq![
            (self.initializer.is_signer, error(ErrorCode::AccountNotSigner, AccountName::Initializer)),
            (
                at_derived_address(self.exchange_state@, self.state_seeds(exchange_idx), program_id),
                error(ErrorCode::ConstraintSeeds, AccountName::ExchangeState),
            ),
            (
                at_derived_address(self.escrow_wallet@, self.wallet_seeds(exchange_idx), program_id),
                error(ErrorCode::ConstraintSeeds, AccountName::EscrowWallet),
            ),
            (
                withdraw.amount >= initializer_amount,
                error(ErrorCode::ConstraintRaw, AccountName::InitializerWithdrawTokenAccount),
            ),
            (
                withdraw.mint@ == self.initializer_mint@,
                error(ErrorCode::ConstraintRaw, AccountName::InitializerWithdrawTokenAccount),
            ),
            (
                withdraw.owner@ == self.initializer.key@,
                error(ErrorCode::ConstraintRaw, AccountName::InitializerWithdrawTokenAccount),
            ),
        ]
    }

    /// Checks the accounts; gives the bumps of the two derived addresses.
    pub fn validate(&self, program_id: &Pubkey, exchange_idx: u64, initializer_amount: u64) -> (bumps: Result<
        Bumps,
        AccountError,
    >)
        ensures
            bumps is Err <==> first_failure(self.checks(program_id@, exchange_idx, initializer_amount)) is Some,
            bumps matches Err(e) ==> first_failure(self.checks(program_id@, exchange_idx, initializer_amount))
                == Some(e),
            bumps matches Ok(b) ==> b == (Bumps {
                exchange_state: derived_bump(self.state_seeds(exchange_idx), program_id@),
                escrow_wallet: Some(derived_bump(self.wallet_seeds(exchange_idx), program_id@)),
            }),
    {
        proof {
            reveal_with_fuel(first_failure, 7);
        }
        if !self.initializer.is_signer {
            return Err(AccountError { code: ErrorCode::AccountNotSigner, account: AccountName::Initializer });
        }
        let state_seeds = token_sol_state_seeds(exchange_idx, &self.initializer.key, &self.initializer_mint, &self.taker);
        let state_bump = match check_derived_address(&self.exchange_state, &state_seeds, program_id) {
            Some(bump) => bump,
            None => return Err(AccountError { code: ErrorCode::ConstraintSeeds, account: AccountName::ExchangeState }),
        };
        let wallet_seeds = token_sol_wallet_seeds(exchange_idx, &self.initializer.key, &self.initializer_mint, &self.taker);
        let wallet_bump = match check_derived_address(&self.escrow_wallet, &wallet_seeds, program_id) {
            Some(bump) => bump,
            None => return Err(AccountError { code: ErrorCode::ConstraintSeeds, account: AccountName::EscrowWallet }),
        };
        let withdraw = &self.initializer_withdraw_token_account;
        let raw = AccountError { code: ErrorCode::ConstraintRaw, account: AccountName::InitializerWithdrawTokenAccount };
        if withdraw.amount < initializer_amount {
            return Err(raw);
        }
        if !withdraw.mint.key_eq(&self.initializer_mint) {
            return Err(raw);
        }
        if !withdraw.owner.key_eq(&self.initializer.key) {
            return Err(raw);
        }
        Ok(Bumps { exchange_state: state_bump, escrow_wallet: Some(wallet_bump) })
    }
}

/// Records the offer of `initializer_amount` tokens of the initializer's mint
/// for `taker_amount` lamports, and moves the tokens from the initializer's
/// account into the escrow wallet.
pub fn initialize_token_sol(
    ctx: &Context<InitializeTokenSol>,
    exchange_idx: u64,
    initializer_amount: u64,
    taker_amount: u64,
) -> (out: (ExchangeState, Vec<Action>))
    requires
        first_failure(ctx.accounts.checks(ctx.program_id@, exchange_idx, initializer_amount)) is None,
        ctx.bumps == (Bumps {
            exchange_state: derived_bump(ctx.accounts.state_seeds(exchange_idx), ctx.program_id@),
            escrow_wallet: Some(derived_bump(ctx.accounts.wallet_seeds(exchange_idx), ctx.program_id@)),
        }),
        spec_native_mint() is Some,
    ensures
        out.0@ == opened_state(
            exchange_idx,
            ctx.accounts.initializer.key@,
            ctx.accounts.taker@,
            ctx.accounts.initializer_mint@,
            spec_native_mint().unwrap(),
            initializer_amount,
            taker_amount,
        ),
        actions_view(out.1@) == seq![
            ActionView::TokenTransfer {
                from: ctx.accounts.initializer_withdraw_token_account.key@,
                to: ctx.accounts.escrow_wallet@,
                authority: ctx.accounts.initializer.key@,
                amount: initializer_amount,
                signer_seeds: Seq::empty(),
            },
        ],
{
    let taker_mint = native_mint().unwrap();
    let state = ExchangeState {
        exchange_idx,
        initializer: ctx.accounts.initializer.key,
        initializer_mint: ctx.accounts.initializer_mint,
        initializer_amount,
        taker: ctx.accounts.taker,
        taker_mint,
        taker_amount,
    };
    let transfer = Action::TokenTransfer {
        from: ctx.accounts.initializer_withdraw_token_account.key,
        to: ctx.accounts.escrow_wallet,
        authority: ctx.accounts.initializer.key,
        amount: initializer_amount,
        signer_seeds: Vec::new(),
    };
    let actions: Vec<Action> = vec![transfer];
    proof {
        assert(seeds_view(Seq::<Vec<u8>>::empty()) =~= Seq::empty());
        assert(actions_view(actions@) =~= seq![transfer@]);
    }
    (state, actions)
}

/// The accounts that opening an exchange creates before its handler runs:
/// the state account, then the escrow wallet owned by the state account.
pub open spec fn created_accounts(
    payer: Seq<u8>,
    exchange_state: Seq<u8>,
    state_seeds: Seq<Seq<u8>>,
    escrow_wallet: Seq<u8>,
    wallet_seeds: Seq<Seq<u8>>,
    mint: Seq<u8>,
    program_id: Seq<u8>,
) -> Seq<ActionView> {
    seq![
        ActionView::CreateStateAccount {
            payer,
            account: exchange_state,
            space: state_space(),
            signer_seeds: with_bump(state_seeds, derived_bump(state_seeds, program_id)),
        },
        ActionView::CreateTokenAccount {
            payer,
            account: escrow_wallet,
            mint,
            authority: exchange_state,
            signer_seeds: with_bump(wallet_seeds, derived_bump(wallet_seeds, program_id)),
        },
    ]
}

/// Everything that opening a tokens-for-SOL exchange does, once its accounts
/// pass their rules: create the two accounts, escrow the tokens, store the state.
pub open spec fn initialize_token_sol_actions(
    accounts: InitializeTokenSol,
    program_id: Seq<u8>,
    exchange_idx: u64,
    initializer_amount: u64,
    taker_amount: u64,
    native_mint: Seq<u8>,
) -> Seq<ActionView> {
    created_accounts(
        accounts.initializer.key@,
        accounts.exchange_state@,
        accounts.state_seeds(exchange_idx),
        accounts.escrow_wallet@,
        accounts.wallet_seeds(exchange_idx),
        accounts.initializer_mint@,
        program_id,
    ) + seq![
        ActionView::TokenTransfer {
            from: accounts.initializer_withdraw_token_account.key@,
            to: accounts.escrow_wallet@,
            authority: accounts.initializer.key@,
            amount: initializer_amount,
            signer_seeds: Seq::empty(),
        },
        ActionView::WriteState {
            account: accounts.exchange_state@,
            state: opened_state(
                exchange_idx,
                accounts.initializer.key@,
                accounts.taker@,
                accounts.initializer_mint@,
                native_mint,
                initializer_amount,
                taker_amount,
            ),
        },
    ]
}

/// Opens an exchange of tokens for SOL: checks the accounts, creates the state
/// account and escrow wallet, runs the handler and stores the state.
pub fn process_initialize_token_sol(
    program_id: &Pubkey,
    accounts: &InitializeTokenSol,
    exchange_idx: u64,
    initializer_amount: u64,
    taker_amount: u64,
) -> (result: Result<Vec<Action>, InstructionError>)
    ensures
        match first_failure(accounts.checks(program_id@, exchange_idx, initializer_amount)) {
            Some(e) => result == Err::<Vec<Action>, InstructionError>(InstructionError::Account(e)),
            None => match spec_native_mint() {
                None => result == Err::<Vec<Action>, InstructionError>(InstructionError::NativeMintUnavailable),
                Some(mint) => result matches Ok(actions) && actions_view(actions@) == initialize_token_sol_actions(
                    *accounts,
                    program_id@,
                    exchange_idx,
                    initializer_amount,
                    taker_amount,
                    mint,
                ),
            },
        },
{
    let bumps = match accounts.validate(program_id, exchange_idx, initializer_amount) {
        Ok(b) => b,
        Err(e) => return Err(InstructionError::Account(e)),
    };
    if native_mint().is_none() {
        return Err(InstructionError::NativeMintUnavailable);
    }
    let ctx = Context { program_id: *program_id, accounts: *accounts, bumps };
    let mut state_seeds = token_sol_state_seeds(
        exchange_idx,
        &accounts.initializer.key,
        &accounts.initializer_mint,
        &accounts.taker,
    );
    push_bump(&mut state_seeds, bumps.exchange_state);
    let mut wallet_seeds = token_sol_wallet_seeds(
        exchange_idx,
        &accounts.initializer.key,
        &accounts.initializer_mint,
        &accounts.taker,
    );
    push_bump(&mut wallet_seeds, bumps.escrow_wallet.unwrap());
    let create_state = Action::CreateStateAccount {
        payer: accounts.initializer.key,
        account: accounts.exchange_state,
        space: ExchangeState::space(),
        signer_seeds: state_seeds,
    };
    let create_wallet = Action::CreateTokenAccount {
        payer: accounts.initializer.key,
        account: accounts.escrow_wallet,
        mint: accounts.initializer_mint,
        authority: accounts.exchange_state,
        signer_seeds: wallet_seeds,
    };
    let (state, handled) = initialize_token_sol(&ctx, exchange_idx, initializer_amount, taker_amount);
    let write = Action::WriteState { account: accounts.exchange_state, state };
    let actions = chain(vec![create_state, create_wallet], handled, vec![write]);
    proof {
        assert(actions_view(actions@) =~= initialize_token_sol_actions(
            *accounts,
            program_id@,
            exchange_idx,
            initializer_amount,
            taker_amount,
            spec_native_mint().unwrap(),
        ));
    }
    Ok(actions)
}

/// Accounts for opening an exchange of the initializer's tokens for the
/// taker's tokens.
#[derive(Clone, Copy, Debug)]
pub struct InitializeTokenToken {
    pub initializer: AccountRef,
    pub initializer_mint: Pubkey,
    pub taker: Pubkey,
    pub taker_mint: Pubkey,
    /// The initializer's token account that funds the escrow.
    pub initializer_withdraw_token_account: TokenAccount,
    /// The state account to create.
    pub exchange_state: Pubkey,
    /// The escrow token account to create.
    pub escrow_wallet: Pubkey,
}

impl InitializeTokenToken {
    /// Seeds of the exchange's state account.
    pub open spec fn state_seeds(&self, exchange_idx: u64) -> Seq<Seq<u8>> {
        exchange_seeds(
            state_tag(),
            exchange_idx,
            token_token_keys(self.initializer.key@, self.initializer_mint@, self.taker@, self.taker_mint@),
        )
    }

    /// Seeds of the exchange's escrow wallet.
    pub open spec fn wallet_seeds(&self, exchange_idx: u64) -> Seq<Seq<u8>> {
        exchange_seeds(
            wallet_tag(),
            exchange_idx,
            token_token_keys(self.initializer.key@, self.initializer_mint@, self.taker@, self.taker_mint@),
        )
    }

    /// The rules on the accounts, in the order they are checked.
    pub open spec fn checks(&self, program_id: Seq<u8>, exchange_idx: u64, initializer_amount: u64) -> Seq<Check> {
        let withdraw = self.initializer_withdraw_token_account;
        seq![
            (self.initializer.is_signer, error(ErrorCode::AccountNotSigner, AccountName::Initializer)),
            (
                at_derived_address(self.exchange_state@, self.state_seeds(exchange_idx), program_id),
                error(ErrorCode::ConstraintSeeds, AccountName::ExchangeState),
            ),
            (
                at_derived_address(self.escrow_wallet@, self.wallet_seeds(exchange_idx), program_id),
                error(ErrorCode::ConstraintSeeds, AccountName::EscrowWallet),
            ),
            (
                withdraw.amount >= initializer_amount,
                error(ErrorCode::ConstraintRaw, AccountName::InitializerWithdrawTokenAccount),
            ),
            (
                withdraw.mint@ == self.initializer_mint@,
                error(ErrorCode::ConstraintRaw, AccountName::InitializerWithdrawTokenAccount),
            ),
            (
                withdraw.owner@ == self.initializer.key@,
                error(ErrorCode::ConstraintRaw, AccountName::InitializerWithdrawTokenAccount),
            ),
        ]
    }

    /// Checks the accounts; gives the bumps of the two derived addresses.
    pub fn validate(&self, program_id: &Pubkey, exchange_idx: u64, initializer_amount: u64) -> (bumps: Result<
        Bumps,
        AccountError,
    >)
        ensures
            bumps is Err <==> first_failure(self.checks(program_id@, exchange_idx, initializer_amount)) is Some,
            bumps matches Err(e) ==> first_failure(self.checks(program_id@, exchange_idx, initializer_amount))
                == Some(e),
            bumps matches Ok(b) ==> b == (Bumps {
                exchange_state: derived_bump(self.state_seeds(exchange_idx), program_id@),
                escrow_wallet: Some(derived_bump(self.wallet_seeds(exchange_idx), program_id@)),
            }),
    {
        proof {
            reveal_with_fuel(first_failure, 7);
        }
        if !self.initializer.is_signer {
            return Err(AccountError { code: ErrorCode::AccountNotSigner, account: AccountName::Initializer });
        }
        let state_seeds = token_token_state_seeds(
            exchange_idx,
            &self.initializer.key,
            &self.initializer_mint,
            &self.taker,
            &self.taker_mint,
        );
        let state_bump = match check_derived_address(&self.exchange_state, &state_seeds, program_id) {
            Some(bump) => bump,
            None => return Err(AccountError { code: ErrorCode::ConstraintSeeds, account: AccountName::ExchangeState }),
        };
        let wallet_seeds = token_token_wallet_seeds(
            exchange_idx,
            &self.initializer.key,
            &self.initializer_mint,
            &self.taker,
            &self.taker_mint,
        );
        let wallet_bump = match check_derived_address(&self.escrow_wallet, &wallet_seeds, program_id) {
            Some(bump) => bump,
            None => return Err(AccountError { code: ErrorCode::ConstraintSeeds, account: AccountName::EscrowWallet }),
        };
        let withdraw = &self.initializer_withdraw_token_account;
        let raw = AccountError { code: ErrorCode::ConstraintRaw, account: AccountName::InitializerWithdrawTokenAccount };
        if withdraw.amount < initializer_amount {
            return Err(raw);
        }
        if !withdraw.mint.key_eq(&self.initializer_mint) {
            return Err(raw);
        }
        if !withdraw.owner.key_eq(&self.initializer.key) {
            return Err(raw);
        }
        Ok(Bumps { exchange_state: state_bump, escrow_wallet: Some(wallet_bump) })
    }
}

/// Records the offer of `initializer_amount` tokens of the initializer's mint
/// for `taker_amount` tokens of the taker's mint, and moves the offered tokens
/// from the initializer's account into the escrow wallet.
pub fn initialize_token_token(
    ctx: &Context<InitializeTokenToken>,
    exchange_idx: u64,
    initializer_amount: u64,
    taker_amount: u64,
) -> (out: (ExchangeState, Vec<Action>))
    requires
        first_failure(ctx.accounts.checks(ctx.program_id@, exchange_idx, initializer_amount)) is None,
        ctx.bumps == (Bumps {
            exchange_state: derived_bump(ctx.accounts.state_seeds(exchange_idx), ctx.program_id@),
            escrow_wallet: Some(derived_bump(ctx.accounts.wallet_seeds(exchange_idx), ctx.program_id@)),
        }),
    ensures
        out.0@ == opened_state(
            exchange_idx,
            ctx.accounts.initializer.key@,
            ctx.accounts.taker@,
            ctx.accounts.initializer_mint@,
            ctx.accounts.taker_mint@,
            initializer_amount,
            taker_amount,
        ),
        actions_view(out.1@) == seq![
            ActionView::TokenTransfer {
                from: ctx.accounts.initializer_withdraw_token_account.key@,
                to: ctx.accounts.escrow_wallet@,
                authority: ctx.accounts.initializer.key@,
                amount: initializer_amount,
                signer_seeds: Seq::empty(),
            },
        ],
{
    let state = ExchangeState {
        exchange_idx,
        initializer: ctx.accounts.initializer.key,
        initializer_mint: ctx.accounts.initializer_mint,
        initializer_amount,
        taker: ctx.accounts.taker,
        taker_mint: ctx.accounts.taker_mint,
        taker_amount,
    };
    let transfer = Action::TokenTransfer {
        from: ctx.accounts.initializer_withdraw_token_account.key,
        to: ctx.accounts.escrow_wallet,
        authority: ctx.accounts.initializer.key,
        amount: initializer_amount,
        signer_seeds: Vec::new(),
    };
    let actions: Vec<Action> = vec![transfer];
    proof {
        assert(seeds_view(Seq::<Vec<u8>>::empty()) =~= Seq::empty());
        assert(actions_view(actions@) =~= seq![transfer@]);
    }
    (state, actions)
}

/// Everything that opening a tokens-for-tokens exchange does, once its
/// accounts pass their rules: create the two accounts, escrow the tokens,
/// store the state.
pub open spec fn initialize_token_token_actions(
    accounts: InitializeTokenToken,
    program_id: Seq<u8>,
    exchange_idx: u64,
    initializer_amount: u64,
    taker_amount: u64,
) -> Seq<ActionView> {
    created_accounts(
        accounts.initializer.key@,
        accounts.exchange_state@,
        accounts.state_seeds(exchange_idx),
        accounts.escrow_wallet@,
        accounts.wallet_seeds(exchange_idx),
        accounts.initializer_mint@,
        program_id,
    ) + seq![
        ActionView::TokenTransfer {
            from: accounts.initializer_withdraw_token_account.key@,
            to: accounts.escrow_wallet@,
            authority: accounts.initializer.key@,
            amount: initializer_amount,
            signer_seeds: Seq::empty(),
        },
        ActionView::WriteState {
            account: accounts.exchange_state@,
            state: opened_state(
                exchange_idx,
                accounts.initializer.key@,
                accounts.taker@,
                accounts.initializer_mint@,
                accounts.taker_mint@,
                initializer_amount,
                taker_amount,
            ),
        },
    ]
}

/// Opens an exchange of tokens for tokens: checks the accounts, creates the
/// state account and escrow wallet, runs the handler and stores the state.
pub fn process_initialize_token_token(
    program_id: &Pubkey,
    accounts: &InitializeTokenToken,
    exchange_idx: u64,
    initializer_amount: u64,
    taker_amount: u64,
) -> (result: Result<Vec<Action>, InstructionError>)
    ensures
        match first_failure(accounts.checks(program_id@, exchange_idx, initializer_amount)) {
            Some(e) => result == Err::<Vec<Action>, InstructionError>(InstructionError::Account(e)),
            None => result matches Ok(actions) && actions_view(actions@) == initialize_token_token_actions(
                *accounts,
                program_id@,
                exchange_idx,
                initializer_amount,
                taker_amount,
            ),
        },
{
    let bumps = match accounts.validate(program_id, exchange_idx, initializer_amount) {
        Ok(b) => b,
        Err(e) => return Err(InstructionError::Account(e)),
    };
    let ctx = Context { program_id: *program_id, accounts: *accounts, bumps };
    let mut state_seeds = token_token_state_seeds(
        exchange_idx,
        &accounts.initializer.key,
        &accounts.initializer_mint,
        &accounts.taker,
        &accounts.taker_mint,
    );
    push_bump(&mut state_seeds, bumps.exchange_state);
    let mut wallet_seeds = token_token_wallet_seeds(
        exchange_idx,
        &accounts.initializer.key,
        &accounts.initializer_mint,
        &accounts.taker,
        &accounts.taker_mint,
    );
    push_bump(&mut wallet_seeds, bumps.escrow_wallet.unwrap());
    let create_state = Action::CreateStateAccount {
        payer: accounts.initializer.key,
        account: accounts.exchange_state,
        space: ExchangeState::space(),
        signer_seeds: state_seeds,
    };
    let create_wallet = Action::CreateTokenAccount {
        payer: accounts.initializer.key,
        account: accounts.escrow_wallet,
        mint: accounts.initializer_mint,
        authority: accounts.exchange_state,
        signer_seeds: wallet_seeds,
    };
    let (state, handled) = initialize_token_token(&ctx, exchange_idx, initializer_amount, taker_amount);
    let write = Action::WriteState { account: accounts.exchange_state, state };
    let actions = chain(vec![create_state, create_wallet], handled, vec![write]);
    proof {
        assert(actions_view(actions@) =~= initialize_token_token_actions(
            *accounts,
            program_id@,
            exchange_idx,
            initializer_amount,
            taker_amount,
        ));
    }
    Ok(actions)
}

} // verus!
