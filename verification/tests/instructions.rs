use anchor_lang::prelude::Pubkey as SolanaPubkey;
use safe_exchange::accounts::{
    AccountError, AccountName, AccountRef, Bumps, Context, ErrorCode, InstructionError, StateAccount, TokenAccount,
};
use safe_exchange::actions::Action;
use safe_exchange::cancel::{
    cancel_sol_token, cancel_token_sol, process_cancel_sol_token, process_cancel_token_sol,
    process_cancel_token_token, CancelSolToken, CancelTokenSol, CancelTokenToken,
};
use safe_exchange::exchange::{
    exchange_sol_token, exchange_token_sol, exchange_token_token, process_exchange_sol_token,
    process_exchange_token_sol, process_exchange_token_token, ExchangeSolToken, ExchangeTokenSol, ExchangeTokenToken,
};
use safe_exchange::initialize::{
    initialize_sol_token, initialize_token_sol, initialize_token_token, process_initialize_sol_token,
    process_initialize_token_sol, process_initialize_token_token, InitializeSolToken, InitializeTokenSol,
    InitializeTokenToken,
};
use safe_exchange::pubkey::Pubkey;
use safe_exchange::state::ExchangeState;

const IDX: u64 = 42;

fn key(n: u8) -> Pubkey {
    Pubkey::new_from_array([n; 32])
}

fn program() -> Pubkey {
    key(200)
}

fn initializer() -> Pubkey {
    key(1)
}

fn taker() -> Pubkey {
    key(2)
}

fn initializer_mint() -> Pubkey {
    key(3)
}

fn taker_mint() -> Pubkey {
    key(4)
}

fn native() -> Pubkey {
    Pubkey::new_from_array(anchor_spl::token::spl_token::native_mint::ID.to_bytes())
}

fn seeds(tag: &[u8], keys: &[Pubkey]) -> Vec<Vec<u8>> {
    let mut s = vec![tag.to_vec(), IDX.to_le_bytes().to_vec()];
    for k in keys {
        s.push(k.bytes.to_vec());
    }
    s
}

fn derive(seeds: &[Vec<u8>]) -> (Pubkey, u8) {
    let refs: Vec<&[u8]> = seeds.iter().map(|s| s.as_slice()).collect();
    let (address, bump) = SolanaPubkey::find_program_address(&refs, &SolanaPubkey::new_from_array(program().bytes));
    (Pubkey::new_from_array(address.to_bytes()), bump)
}

fn with_bump(mut seeds: Vec<Vec<u8>>, bump: u8) -> Vec<Vec<u8>> {
    seeds.push(vec![bump]);
    seeds
}

fn signer(k: Pubkey, lamports: u64) -> AccountRef {
    AccountRef { key: k, is_signer: true, lamports }
}

fn token_account(n: u8, mint: Pubkey, owner: Pubkey, amount: u64) -> TokenAccount {
    TokenAccount { key: key(n), mint, owner, amount }
}

fn err(code: ErrorCode, account: AccountName) -> InstructionError {
    InstructionError::Account(AccountError { code, account })
}

fn state(initializer_mint: Pubkey, taker_mint: Pubkey) -> ExchangeState {
    ExchangeState {
        exchange_idx: IDX,
        initializer: initializer(),
        taker: taker(),
        initializer_mint,
        taker_mint,
        initializer_amount: 500,
        taker_amount: 70,
    }
}

// ---------- opening ----------

fn init_sol_token_accounts() -> InitializeSolToken {
    let (state_key, _) = derive(&seeds(b"state", &[initializer(), taker(), taker_mint()]));
    InitializeSolToken {
        initializer: signer(initializer(), 10_000),
        taker: taker(),
        taker_mint: taker_mint(),
        exchange_state: state_key,
    }
}

#[test]
fn initialize_sol_token_creates_funds_and_records() {
    let accounts = init_sol_token_accounts();
    let state_seeds = seeds(b"state", &[initializer(), taker(), taker_mint()]);
    let (state_key, bump) = derive(&state_seeds);
    let actions = process_initialize_sol_token(&program(), &accounts, IDX, 500, 70).unwrap();
    assert_eq!(
        actions,
        vec![
            Action::CreateStateAccount {
                payer: initializer(),
                account: state_key,
                space: 160,
                signer_seeds: with_bump(state_seeds, bump),
            },
            Action::SystemTransfer { from: initializer(), to: state_key, lamports: 500 },
            Action::WriteState { account: state_key, state: state(native(), taker_mint()) },
        ]
    );
}

#[test]
fn initialize_sol_token_handler_records_native_mint() {
    let accounts = init_sol_token_accounts();
    let (_, bump) = derive(&seeds(b"state", &[initializer(), taker(), taker_mint()]));
    let ctx = Context { program_id: program(), accounts, bumps: Bumps { exchange_state: bump, escrow_wallet: None } };
    let (recorded, actions) = initialize_sol_token(&ctx, IDX, 500, 70);
    assert_eq!(recorded, state(native(), taker_mint()));
    assert_eq!(actions, vec![Action::SystemTransfer { from: initializer(), to: accounts.exchange_state, lamports: 500 }]);
}

#[test]
fn initialize_sol_token_needs_signature() {
    let mut accounts = init_sol_token_accounts();
    accounts.initializer.is_signer = false;
    assert_eq!(
        process_initialize_sol_token(&program(), &accounts, IDX, 500, 70),
        Err(err(ErrorCode::AccountNotSigner, AccountName::Initializer))
    );
}

#[test]
fn initialize_sol_token_needs_derived_state_address() {
    let mut accounts = init_sol_token_accounts();
    accounts.exchange_state = key(99);
    assert_eq!(
        process_initialize_sol_token(&program(), &accounts, IDX, 500, 70),
        Err(err(ErrorCode::ConstraintSeeds, AccountName::ExchangeState))
    );
    let accounts = init_sol_token_accounts();
    assert_eq!(
        process_initialize_sol_token(&program(), &accounts, IDX + 1, 500, 70),
        Err(err(ErrorCode::ConstraintSeeds, AccountName::ExchangeState))
    );
    assert_eq!(
        process_initialize_sol_token(&key(201), &accounts, IDX, 500, 70),
        Err(err(ErrorCode::ConstraintSeeds, AccountName::ExchangeState))
    );
}

fn init_token_sol_accounts() -> InitializeTokenSol {
    let keys = [initializer(), initializer_mint(), taker()];
    InitializeTokenSol {
        initializer: signer(initializer(), 10_000),
        initializer_mint: initializer_mint(),
        taker: taker(),
        initializer_withdraw_token_account: token_account(10, initializer_mint(), initializer(), 800),
        exchange_state: derive(&seeds(b"state", &keys)).0,
        escrow_wallet: derive(&seeds(b"wallet", &keys)).0,
    }
}

#[test]
fn initialize_token_sol_creates_escrows_and_records() {
    let accounts = init_token_sol_accounts();
    let keys = [initializer(), initializer_mint(), taker()];
    let (state_key, state_bump) = derive(&seeds(b"state", &keys));
    let (wallet_key, wallet_bump) = derive(&seeds(b"wallet", &keys));
    let actions = process_initialize_token_sol(&program(), &accounts, IDX, 500, 70).unwrap();
    assert_eq!(
        actions,
        vec![
            Action::CreateStateAccount {
                payer: initializer(),
                account: state_key,
                space: 160,
                signer_seeds: with_bump(seeds(b"state", &keys), state_bump),
            },
            Action::CreateTokenAccount {
                payer: initializer(),
                account: wallet_key,
                mint: initializer_mint(),
                authority: state_key,
                signer_seeds: with_bump(seeds(b"wallet", &keys), wallet_bump),
            },
            Action::TokenTransfer {
                from: key(10),
                to: wallet_key,
                authority: initializer(),
                amount: 500,
                signer_seeds: vec![],
            },
            Action::WriteState { account: state_key, state: state(initializer_mint(), native()) },
        ]
    );
}

#[test]
fn initialize_token_sol_handler_escrows_tokens() {
    let accounts = init_token_sol_accounts();
    let keys = [initializer(), initializer_mint(), taker()];
    let (_, state_bump) = derive(&seeds(b"state", &keys));
    let (_, wallet_bump) = derive(&seeds(b"wallet", &keys));
    let bumps = Bumps { exchange_state: state_bump, escrow_wallet: Some(wallet_bump) };
    let ctx = Context { program_id: program(), accounts, bumps };
    let (recorded, actions) = initialize_token_sol(&ctx, IDX, 500, 70);
    assert_eq!(recorded, state(initializer_mint(), native()));
    assert_eq!(
        actions,
        vec![Action::TokenTransfer {
            from: key(10),
            to: accounts.escrow_wallet,
            authority: initializer(),
            amount: 500,
            signer_seeds: vec![],
        }]
    );
}

#[test]
fn initialize_token_sol_rules() {
    let raw = err(ErrorCode::ConstraintRaw, AccountName::InitializerWithdrawTokenAccount);
    let mut a = init_token_sol_accounts();
    a.initializer_withdraw_token_account.amount = 499;
    assert_eq!(process_initialize_token_sol(&program(), &a, IDX, 500, 70), Err(raw));
    a.initializer_withdraw_token_account.amount = 500;
    assert!(process_initialize_token_sol(&program(), &a, IDX, 500, 70).is_ok());
    let mut a = init_token_sol_accounts();
    a.initializer_withdraw_token_account.mint = taker_mint();
    assert_eq!(process_initialize_token_sol(&program(), &a, IDX, 500, 70), Err(raw));
    let mut a = init_token_sol_accounts();
    a.initializer_withdraw_token_account.owner = taker();
    assert_eq!(process_initialize_token_sol(&program(), &a, IDX, 500, 70), Err(raw));
    let mut a = init_token_sol_accounts();
    a.escrow_wallet = key(98);
    assert_eq!(
        process_initialize_token_sol(&program(), &a, IDX, 500, 70),
        Err(err(ErrorCode::ConstraintSeeds, AccountName::EscrowWallet))
    );
    let mut a = init_token_sol_accounts();
    a.exchange_state = a.escrow_wallet;
    assert_eq!(
        process_initialize_token_sol(&program(), &a, IDX, 500, 70),
        Err(err(ErrorCode::ConstraintSeeds, AccountName::ExchangeState))
    );
    // The signature is checked before anything else.
    let mut a = init_token_sol_accounts();
    a.initializer.is_signer = false;
    a.exchange_state = key(97);
    a.initializer_withdraw_token_account.amount = 0;
    assert_eq!(
        process_initialize_token_sol(&program(), &a, IDX, 500, 70),
        Err(err(ErrorCode::AccountNotSigner, AccountName::Initializer))
    );
    // Seeds come before the funding account's rules.
    let mut a = init_token_sol_accounts();
    a.escrow_wallet = key(96);
    a.initializer_withdraw_token_account.amount = 0;
    assert_eq!(
        process_initialize_token_sol(&program(), &a, IDX, 500, 70),
        Err(err(ErrorCode::ConstraintSeeds, AccountName::EscrowWallet))
    );
}

fn init_token_token_accounts() -> InitializeTokenToken {
    let keys = [initializer(), initializer_mint(), taker(), taker_mint()];
    InitializeTokenToken {
        initializer: signer(initializer(), 10_000),
        initializer_mint: initializer_mint(),
        taker: taker(),
        taker_mint: taker_mint(),
        initializer_withdraw_token_account: token_account(10, initializer_mint(), initializer(), 800),
        exchange_state: derive(&seeds(b"state", &keys)).0,
        escrow_wallet: derive(&seeds(b"wallet", &keys)).0,
    }
}

#[test]
fn initialize_token_token_creates_escrows_and_records() {
    let accounts = init_token_token_accounts();
    let keys = [initializer(), initializer_mint(), taker(), taker_mint()];
    let (state_key, state_bump) = derive(&seeds(b"state", &keys));
    let (wallet_key, wallet_bump) = derive(&seeds(b"wallet", &keys));
    let actions = process_initialize_token_token(&program(), &accounts, IDX, 500, 70).unwrap();
    assert_eq!(
        actions,
        vec![
            Action::CreateStateAccount {
                payer: initializer(),
                account: state_key,
                space: 160,
                signer_seeds: with_bump(seeds(b"state", &keys), state_bump),
            },
            Action::CreateTokenAccount {
                payer: initializer(),
                account: wallet_key,
                mint: initializer_mint(),
                authority: state_key,
                signer_seeds: with_bump(seeds(b"wallet", &keys), wallet_bump),
            },
            Action::TokenTransfer {
                from: key(10),
                to: wallet_key,
                authority: initializer(),
                amount: 500,
                signer_seeds: vec![],
            },
            Action::WriteState { account: state_key, state: state(initializer_mint(), taker_mint()) },
        ]
    );
    let bumps = Bumps { exchange_state: state_bump, escrow_wallet: Some(wallet_bump) };
    let ctx = Context { program_id: program(), accounts, bumps };
    let (recorded, handled) = initialize_token_token(&ctx, IDX, 500, 70);
    assert_eq!(recorded, state(initializer_mint(), taker_mint()));
    assert_eq!(handled.len(), 1);
}

#[test]
fn initialize_token_token_rules() {
    let mut a = init_token_token_accounts();
    a.initializer.is_signer = false;
    assert_eq!(
        process_initialize_token_token(&program(), &a, IDX, 500, 70),
        Err(err(ErrorCode::AccountNotSigner, AccountName::Initializer))
    );
    let a = init_token_token_accounts();
    assert_eq!(
        process_initialize_token_token(&program(), &a, IDX, 801, 70),
        Err(err(ErrorCode::ConstraintRaw, AccountName::InitializerWithdrawTokenAccount))
    );
    let mut a = init_token_token_accounts();
    a.taker_mint = initializer_mint();
    assert_eq!(
        process_initialize_token_token(&program(), &a, IDX, 500, 70),
        Err(err(ErrorCode::ConstraintSeeds, AccountName::ExchangeState))
    );
}

// ---------- withdrawing ----------

fn cancel_sol_token_accounts() -> CancelSolToken {
    let (state_key, _) = derive(&seeds(b"state", &[initializer(), taker(), taker_mint()]));
    CancelSolToken {
        initializer: signer(initializer(), 1_000),
        taker: taker(),
        taker_mint: taker_mint(),
        exchange_state: StateAccount { key: state_key, lamports: 2_500, data: state(native(), taker_mint()) },
    }
}

#[test]
fn cancel_sol_token_refunds_and_closes() {
    let accounts = cancel_sol_token_accounts();
    let state_key = accounts.exchange_state.key;
    let actions = process_cancel_sol_token(&program(), &accounts, IDX).unwrap();
    assert_eq!(
        actions,
        vec![
            Action::SetLamports { account: state_key, lamports: 2_000 },
            Action::SetLamports { account: initializer(), lamports: 1_500 },
            Action::CloseStateAccount { account: state_key, destination: initializer() },
        ]
    );
    let (_, bump) = derive(&seeds(b"state", &[initializer(), taker(), taker_mint()]));
    let ctx = Context { program_id: program(), accounts, bumps: Bumps { exchange_state: bump, escrow_wallet: None } };
    assert_eq!(cancel_sol_token(&ctx, IDX), actions[..2].to_vec());
}

#[test]
fn cancel_sol_token_rules() {
    let mut a = cancel_sol_token_accounts();
    a.initializer.is_signer = false;
    assert_eq!(
        process_cancel_sol_token(&program(), &a, IDX),
        Err(err(ErrorCode::AccountNotSigner, AccountName::Initializer))
    );
    let has_one = err(ErrorCode::ConstraintHasOne, AccountName::ExchangeState);
    let mut a = cancel_sol_token_accounts();
    a.exchange_state.data.initializer = key(50);
    assert_eq!(process_cancel_sol_token(&program(), &a, IDX), Err(has_one));
    let mut a = cancel_sol_token_accounts();
    a.exchange_state.data.taker = key(50);
    assert_eq!(process_cancel_sol_token(&program(), &a, IDX), Err(has_one));
    let mut a = cancel_sol_token_accounts();
    a.exchange_state.data.taker_mint = key(50);
    assert_eq!(process_cancel_sol_token(&program(), &a, IDX), Err(has_one));
    // Another party's accounts do not lead to this exchange's state account.
    let mut a = cancel_sol_token_accounts();
    a.initializer.key = key(51);
    a.exchange_state.data.initializer = key(51);
    assert_eq!(
        process_cancel_sol_token(&program(), &a, IDX),
        Err(err(ErrorCode::ConstraintSeeds, AccountName::ExchangeState))
    );
}

#[test]
fn cancel_sol_token_out_of_range_lamports() {
    let mut a = cancel_sol_token_accounts();
    a.exchange_state.lamports = 499;
    assert_eq!(process_cancel_sol_token(&program(), &a, IDX), Err(InstructionError::LamportsOutOfRange));
    let mut a = cancel_sol_token_accounts();
    a.initializer.lamports = u64::MAX - 499;
    assert_eq!(process_cancel_sol_token(&program(), &a, IDX), Err(InstructionError::LamportsOutOfRange));
    let mut a = cancel_sol_token_accounts();
    a.exchange_state.lamports = 500;
    a.initializer.lamports = u64::MAX - 500;
    assert!(process_cancel_sol_token(&program(), &a, IDX).is_ok());
}

fn cancel_token_sol_accounts() -> CancelTokenSol {
    let keys = [initializer(), initializer_mint(), taker()];
    CancelTokenSol {
        initializer: signer(initializer(), 1_000),
        initializer_mint: initializer_mint(),
        taker: taker(),
        initializer_withdraw_token_account: token_account(10, initializer_mint(), initializer(), 0),
        exchange_state: StateAccount {
            key: derive(&seeds(b"state", &keys)).0,
            lamports: 2_000,
            data: state(initializer_mint(), native()),
        },
        escrow_wallet: TokenAccount {
            key: derive(&seeds(b"wallet", &keys)).0,
            mint: initializer_mint(),
            owner: derive(&seeds(b"state", &keys)).0,
            amount: 500,
        },
    }
}

#[test]
fn cancel_token_sol_returns_tokens_and_closes() {
    let accounts = cancel_token_sol_accounts();
    let keys = [initializer(), initializer_mint(), taker()];
    let (state_key, bump) = derive(&seeds(b"state", &keys));
    let signer_seeds = with_bump(seeds(b"state", &keys), bump);
    let actions = process_cancel_token_sol(&program(), &accounts, IDX).unwrap();
    assert_eq!(
        actions,
        vec![
            Action::TokenTransfer {
                from: accounts.escrow_wallet.key,
                to: key(10),
                authority: state_key,
                amount: 500,
                signer_seeds: signer_seeds.clone(),
            },
            Action::CloseTokenAccount {
                account: accounts.escrow_wallet.key,
                destination: initializer(),
                authority: state_key,
                signer_seeds,
            },
            Action::CloseStateAccount { account: state_key, destination: initializer() },
        ]
    );
    let (_, wallet_bump) = derive(&seeds(b"wallet", &keys));
    let bumps = Bumps { exchange_state: bump, escrow_wallet: Some(wallet_bump) };
    let ctx = Context { program_id: program(), accounts, bumps };
    assert_eq!(cancel_token_sol(&ctx, IDX), actions[..2].to_vec());
}

#[test]
fn cancel_token_sol_rules() {
    let raw = err(ErrorCode::ConstraintRaw, AccountName::InitializerWithdrawTokenAccount);
    let mut a = cancel_token_sol_accounts();
    a.initializer_withdraw_token_account.owner = taker();
    assert_eq!(process_cancel_token_sol(&program(), &a, IDX), Err(raw));
    let mut a = cancel_token_sol_accounts();
    a.initializer_withdraw_token_account.mint = taker_mint();
    assert_eq!(process_cancel_token_sol(&program(), &a, IDX), Err(raw));
    let mut a = cancel_token_sol_accounts();
    a.exchange_state.data.initializer_mint = key(60);
    assert_eq!(
        process_cancel_token_sol(&program(), &a, IDX),
        Err(err(ErrorCode::ConstraintHasOne, AccountName::ExchangeState))
    );
    let mut a = cancel_token_sol_accounts();
    a.escrow_wallet.key = key(61);
    assert_eq!(
        process_cancel_token_sol(&program(), &a, IDX),
        Err(err(ErrorCode::ConstraintSeeds, AccountName::EscrowWallet))
    );
    let mut a = cancel_token_sol_accounts();
    a.escrow_wallet.mint = taker_mint();
    assert_eq!(
        process_cancel_token_sol(&program(), &a, IDX),
        Err(err(ErrorCode::ConstraintRaw, AccountName::EscrowWallet))
    );
}

fn cancel_token_token_accounts() -> CancelTokenToken {
    let keys = [initializer(), initializer_mint(), taker(), taker_mint()];
    CancelTokenToken {
        initializer: signer(initializer(), 1_000),
        initializer_mint: initializer_mint(),
        taker: taker(),
        taker_mint: taker_mint(),
        initializer_withdraw_token_account: token_account(10, initializer_mint(), initializer(), 0),
        exchange_state: StateAccount {
            key: derive(&seeds(b"state", &keys)).0,
            lamports: 2_000,
            data: state(initializer_mint(), taker_mint()),
        },
        escrow_wallet: TokenAccount {
            key: derive(&seeds(b"wallet", &keys)).0,
            mint: initializer_mint(),
            owner: derive(&seeds(b"state", &keys)).0,
            amount: 500,
        },
    }
}

#[test]
fn cancel_token_token_returns_tokens_and_closes() {
    let accounts = cancel_token_token_accounts();
    let keys = [initializer(), initializer_mint(), taker(), taker_mint()];
    let (state_key, bump) = derive(&seeds(b"state", &keys));
    let signer_seeds = with_bump(seeds(b"state", &keys), bump);
    let actions = process_cancel_token_token(&program(), &accounts, IDX).unwrap();
    assert_eq!(
        actions,
        vec![
            Action::TokenTransfer {
                from: accounts.escrow_wallet.key,
                to: key(10),
                authority: state_key,
                amount: 500,
                signer_seeds: signer_seeds.clone(),
            },
            Action::CloseTokenAccount {
                account: accounts.escrow_wallet.key,
                destination: initializer(),
                authority: state_key,
                signer_seeds,
            },
            Action::CloseStateAccount { account: state_key, destination: initializer() },
        ]
    );
}

#[test]
fn cancel_token_token_rules() {
    let mut a = cancel_token_token_accounts();
    a.exchange_state.data.taker_mint = key(70);
    assert_eq!(
        process_cancel_token_token(&program(), &a, IDX),
        Err(err(ErrorCode::ConstraintHasOne, AccountName::ExchangeState))
    );
    let mut a = cancel_token_token_accounts();
    a.initializer.is_signer = false;
    a.escrow_wallet.key = key(71);
    assert_eq!(
        process_cancel_token_token(&program(), &a, IDX),
        Err(err(ErrorCode::AccountNotSigner, AccountName::Initializer))
    );
}

// ---------- taking ----------

fn exchange_sol_token_accounts() -> ExchangeSolToken {
    let (state_key, _) = derive(&seeds(b"state", &[initializer(), taker(), taker_mint()]));
    ExchangeSolToken {
        initializer: initializer(),
        taker: signer(taker(), 3_000),
        taker_mint: taker_mint(),
        initializer_receive_token_account: token_account(11, taker_mint(), initializer(), 5),
        taker_withdraw_token_account: token_account(12, taker_mint(), taker(), 70),
        exchange_state: StateAccount { key: state_key, lamports: 2_500, data: state(native(), taker_mint()) },
    }
}

#[test]
fn exchange_sol_token_swaps_and_closes() {
    let accounts = exchange_sol_token_accounts();
    let state_key = accounts.exchange_state.key;
    let actions = process_exchange_sol_token(&program(), &accounts, IDX).unwrap();
    assert_eq!(
        actions,
        vec![
            Action::TokenTransfer { from: key(12), to: key(11), authority: taker(), amount: 70, signer_seeds: vec![] },
            Action::SetLamports { account: state_key, lamports: 2_000 },
            Action::SetLamports { account: taker(), lamports: 3_500 },
            Action::CloseStateAccount { account: state_key, destination: initializer() },
        ]
    );
    let (_, bump) = derive(&seeds(b"state", &[initializer(), taker(), taker_mint()]));
    let ctx = Context { program_id: program(), accounts, bumps: Bumps { exchange_state: bump, escrow_wallet: None } };
    assert_eq!(exchange_sol_token(&ctx, IDX), actions[..3].to_vec());
}

#[test]
fn exchange_sol_token_rules() {
    let mut a = exchange_sol_token_accounts();
    a.taker.is_signer = false;
    assert_eq!(process_exchange_sol_token(&program(), &a, IDX), Err(err(ErrorCode::AccountNotSigner, AccountName::Taker)));
    let mut a = exchange_sol_token_accounts();
    a.taker_withdraw_token_account.amount = 69;
    assert_eq!(
        process_exchange_sol_token(&program(), &a, IDX),
        Err(err(ErrorCode::ConstraintRaw, AccountName::TakerWithdrawTokenAccount))
    );
    let mut a = exchange_sol_token_accounts();
    a.initializer_receive_token_account.owner = taker();
    assert_eq!(
        process_exchange_sol_token(&program(), &a, IDX),
        Err(err(ErrorCode::ConstraintRaw, AccountName::InitializerReceiveTokenAccount))
    );
    let mut a = exchange_sol_token_accounts();
    a.exchange_state.data.taker = key(80);
    assert_eq!(
        process_exchange_sol_token(&program(), &a, IDX),
        Err(err(ErrorCode::ConstraintHasOne, AccountName::ExchangeState))
    );
    let mut a = exchange_sol_token_accounts();
    a.taker.lamports = u64::MAX;
    assert_eq!(process_exchange_sol_token(&program(), &a, IDX), Err(InstructionError::LamportsOutOfRange));
}

fn exchange_token_sol_accounts() -> ExchangeTokenSol {
    let keys = [initializer(), initializer_mint(), taker()];
    let state_key = derive(&seeds(b"state", &keys)).0;
    ExchangeTokenSol {
        initializer: initializer(),
        initializer_mint: initializer_mint(),
        taker: signer(taker(), 3_000),
        taker_receive_token_account: token_account(13, initializer_mint(), taker(), 0),
        exchange_state: StateAccount { key: state_key, lamports: 2_000, data: state(initializer_mint(), native()) },
        escrow_wallet: TokenAccount {
            key: derive(&seeds(b"wallet", &keys)).0,
            mint: initializer_mint(),
            owner: state_key,
            amount: 500,
        },
    }
}

#[test]
fn exchange_token_sol_swaps_and_closes() {
    let accounts = exchange_token_sol_accounts();
    let keys = [initializer(), initializer_mint(), taker()];
    let (state_key, bump) = derive(&seeds(b"state", &keys));
    let signer_seeds = with_bump(seeds(b"state", &keys), bump);
    let actions = process_exchange_token_sol(&program(), &accounts, IDX).unwrap();
    assert_eq!(
        actions,
        vec![
            Action::SystemTransfer { from: taker(), to: initializer(), lamports: 70 },
            Action::TokenTransfer {
                from: accounts.escrow_wallet.key,
                to: key(13),
                authority: state_key,
                amount: 500,
                signer_seeds: signer_seeds.clone(),
            },
            Action::CloseTokenAccount {
                account: accounts.escrow_wallet.key,
                destination: initializer(),
                authority: state_key,
                signer_seeds,
            },
            Action::CloseStateAccount { account: state_key, destination: initializer() },
        ]
    );
    let (_, wallet_bump) = derive(&seeds(b"wallet", &keys));
    let bumps = Bumps { exchange_state: bump, escrow_wallet: Some(wallet_bump) };
    let ctx = Context { program_id: program(), accounts, bumps };
    assert_eq!(exchange_token_sol(&ctx, IDX), actions[..3].to_vec());
}

#[test]
fn exchange_token_sol_rules() {
    let mut a = exchange_token_sol_accounts();
    a.taker_receive_token_account.mint = taker_mint();
    assert_eq!(
        process_exchange_token_sol(&program(), &a, IDX),
        Err(err(ErrorCode::ConstraintRaw, AccountName::TakerReceiveTokenAccount))
    );
    let mut a = exchange_token_sol_accounts();
    a.exchange_state.data.initializer = key(81);
    assert_eq!(
        process_exchange_token_sol(&program(), &a, IDX),
        Err(err(ErrorCode::ConstraintHasOne, AccountName::ExchangeState))
    );
    let mut a = exchange_token_sol_accounts();
    a.escrow_wallet.mint = key(82);
    assert_eq!(
        process_exchange_token_sol(&program(), &a, IDX),
        Err(err(ErrorCode::ConstraintRaw, AccountName::EscrowWallet))
    );
}

fn exchange_token_token_accounts() -> ExchangeTokenToken {
    let keys = [initializer(), initializer_mint(), taker(), taker_mint()];
    let state_key = derive(&seeds(b"state", &keys)).0;
    ExchangeTokenToken {
        initializer: initializer(),
        initializer_mint: initializer_mint(),
        taker: signer(taker(), 3_000),
        taker_mint: taker_mint(),
        initializer_receive_token_account: token_account(11, taker_mint(), initializer(), 0),
        taker_withdraw_token_account: token_account(12, taker_mint(), taker(), 100),
        taker_receive_token_account: token_account(13, initializer_mint(), taker(), 0),
        exchange_state: StateAccount {
            key: state_key,
            lamports: 2_000,
            data: state(initializer_mint(), taker_mint()),
        },
        escrow_wallet: TokenAccount {
            key: derive(&seeds(b"wallet", &keys)).0,
            mint: initializer_mint(),
            owner: state_key,
            amount: 500,
        },
    }
}

#[test]
fn exchange_token_token_swaps_and_closes() {
    let accounts = exchange_token_token_accounts();
    let keys = [initializer(), initializer_mint(), taker(), taker_mint()];
    let (state_key, bump) = derive(&seeds(b"state", &keys));
    let signer_seeds = with_bump(seeds(b"state", &keys), bump);
    let actions = process_exchange_token_token(&program(), &accounts, IDX).unwrap();
    assert_eq!(
        actions,
        vec![
            Action::TokenTransfer { from: key(12), to: key(11), authority: taker(), amount: 70, signer_seeds: vec![] },
            Action::TokenTransfer {
                from: accounts.escrow_wallet.key,
                to: key(13),
                authority: state_key,
                amount: 500,
                signer_seeds: signer_seeds.clone(),
            },
            Action::CloseTokenAccount {
                account: accounts.escrow_wallet.key,
                destination: initializer(),
                authority: state_key,
                signer_seeds,
            },
            Action::CloseStateAccount { account: state_key, destination: initializer() },
        ]
    );
    let (_, wallet_bump) = derive(&seeds(b"wallet", &keys));
    let bumps = Bumps { exchange_state: bump, escrow_wallet: Some(wallet_bump) };
    let ctx = Context { program_id: program(), accounts, bumps };
    assert_eq!(exchange_token_token(&ctx, IDX), actions[..3].to_vec());
}

#[test]
fn exchange_token_token_rules() {
    let mut a = exchange_token_token_accounts();
    a.taker_withdraw_token_account.mint = initializer_mint();
    assert_eq!(
        process_exchange_token_token(&program(), &a, IDX),
        Err(err(ErrorCode::ConstraintRaw, AccountName::TakerWithdrawTokenAccount))
    );
    let mut a = exchange_token_token_accounts();
    a.taker_receive_token_account.owner = initializer();
    assert_eq!(
        process_exchange_token_token(&program(), &a, IDX),
        Err(err(ErrorCode::ConstraintRaw, AccountName::TakerReceiveTokenAccount))
    );
    let mut a = exchange_token_token_accounts();
    a.exchange_state.data.taker_amount = 101;
    assert_eq!(
        process_exchange_token_token(&program(), &a, IDX),
        Err(err(ErrorCode::ConstraintRaw, AccountName::TakerWithdrawTokenAccount))
    );
    let mut a = exchange_token_token_accounts();
    a.taker.is_signer = false;
    assert_eq!(
        process_exchange_token_token(&program(), &a, IDX),
        Err(err(ErrorCode::AccountNotSigner, AccountName::Taker))
    );
}
