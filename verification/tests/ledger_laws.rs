use std::collections::{HashMap, HashSet};

use anchor_lang::prelude::Pubkey as SolanaPubkey;
use safe_exchange::accounts::{AccountRef, StateAccount, TokenAccount};
use safe_exchange::actions::Action;
use safe_exchange::cancel::{process_cancel_sol_token, process_cancel_token_token, CancelSolToken, CancelTokenToken};
use safe_exchange::exchange::{
    process_exchange_sol_token, process_exchange_token_sol, process_exchange_token_token, ExchangeSolToken,
    ExchangeTokenSol, ExchangeTokenToken,
};
use safe_exchange::initialize::{
    process_initialize_sol_token, process_initialize_token_sol, process_initialize_token_token, InitializeSolToken,
    InitializeTokenSol, InitializeTokenToken,
};
use safe_exchange::pubkey::Pubkey;
use safe_exchange::state::ExchangeState;

const IDX: u64 = 9;
const STATE_RENT: i128 = 2_000;
const TOKEN_RENT: i128 = 1_500;

fn key(n: u8) -> Pubkey {
    Pubkey::new_from_array([n; 32])
}

fn program() -> Pubkey {
    key(200)
}

fn derive(tag: &[u8], keys: &[Pubkey]) -> Pubkey {
    let mut seeds = vec![tag.to_vec(), IDX.to_le_bytes().to_vec()];
    for k in keys {
        seeds.push(k.bytes.to_vec());
    }
    let refs: Vec<&[u8]> = seeds.iter().map(|s| s.as_slice()).collect();
    let (address, _) = SolanaPubkey::find_program_address(&refs, &SolanaPubkey::new_from_array(program().bytes));
    Pubkey::new_from_array(address.to_bytes())
}

/// A token account's mint, owner and whether it is frozen.
#[derive(Clone, Copy)]
struct TokenMeta {
    mint: Pubkey,
    owner: Pubkey,
    frozen: bool,
}

/// Balances and open accounts, changed by actions as the system and token
/// programs change them.
#[derive(Default, Clone)]
struct Ledger {
    lamports: HashMap<[u8; 32], i128>,
    open: HashSet<[u8; 32]>,
    tokens: HashMap<[u8; 32], i128>,
    meta: HashMap<[u8; 32], TokenMeta>,
    states: HashMap<[u8; 32], ExchangeState>,
}

impl Ledger {
    fn lamports(&self, k: Pubkey) -> i128 {
        *self.lamports.get(&k.bytes).unwrap_or(&0)
    }

    fn tokens(&self, k: Pubkey) -> i128 {
        *self.tokens.get(&k.bytes).unwrap_or(&0)
    }

    fn is_open(&self, k: Pubkey) -> bool {
        self.open.contains(&k.bytes)
    }

    fn add_lamports(&mut self, k: Pubkey, d: i128) {
        *self.lamports.entry(k.bytes).or_insert(0) += d;
    }

    fn add_tokens(&mut self, k: Pubkey, d: i128) {
        *self.tokens.entry(k.bytes).or_insert(0) += d;
    }

    /// Opens the token account `account` as an instruction reads it.
    fn hold(&mut self, account: &TokenAccount) {
        self.open.insert(account.key.bytes);
        self.tokens.insert(account.key.bytes, account.amount as i128);
        self.meta.insert(account.key.bytes, TokenMeta { mint: account.mint, owner: account.owner, frozen: false });
    }

    fn usable(&self, k: Pubkey) -> Option<TokenMeta> {
        match self.meta.get(&k.bytes) {
            Some(meta) if self.is_open(k) && !meta.frozen => Some(*meta),
            _ => None,
        }
    }

    fn create(&mut self, payer: Pubkey, account: Pubkey, rent: i128) -> bool {
        let missing = (rent - self.lamports(account)).max(0);
        if self.is_open(account) || self.lamports(payer) < missing {
            return false;
        }
        self.add_lamports(payer, -missing);
        self.add_lamports(account, missing);
        self.open.insert(account.bytes);
        true
    }

    fn close(&mut self, account: Pubkey, destination: Pubkey) {
        let all = self.lamports(account);
        self.lamports.insert(account.bytes, 0);
        self.add_lamports(destination, all);
        self.open.remove(&account.bytes);
    }

    /// Applies one action; false where the action fails.
    fn step(&mut self, action: &Action) -> bool {
        match action {
            Action::CreateStateAccount { payer, account, .. } => self.create(*payer, *account, STATE_RENT),
            Action::CreateTokenAccount { payer, account, mint, authority, .. } => {
                if !self.create(*payer, *account, TOKEN_RENT) {
                    return false;
                }
                self.tokens.insert(account.bytes, 0);
                self.meta.insert(account.bytes, TokenMeta { mint: *mint, owner: *authority, frozen: false });
                true
            }
            Action::SystemTransfer { from, to, lamports } => {
                if self.is_open(*from) || self.lamports(*from) < *lamports as i128 {
                    return false;
                }
                self.add_lamports(*from, -(*lamports as i128));
                self.add_lamports(*to, *lamports as i128);
                true
            }
            Action::TokenTransfer { from, to, authority, amount, .. } => {
                let (source, target) = match (self.usable(*from), self.usable(*to)) {
                    (Some(source), Some(target)) => (source, target),
                    _ => return false,
                };
                if source.mint != target.mint || source.owner != *authority || self.tokens(*from) < *amount as i128 {
                    return false;
                }
                self.add_tokens(*from, -(*amount as i128));
                self.add_tokens(*to, *amount as i128);
                true
            }
            Action::CloseTokenAccount { account, destination, authority, .. } => {
                match self.usable(*account) {
                    Some(meta) if meta.owner == *authority && self.tokens(*account) == 0 => {
                        self.close(*account, *destination);
                        true
                    }
                    _ => false,
                }
            }
            Action::CloseStateAccount { account, destination } => {
                if !self.is_open(*account) {
                    return false;
                }
                self.close(*account, *destination);
                true
            }
            Action::SetLamports { account, lamports } => {
                if (*lamports as i128) < self.lamports(*account) && !self.is_open(*account) {
                    return false;
                }
                self.lamports.insert(account.bytes, *lamports as i128);
                true
            }
            Action::WriteState { account, state } => {
                if !self.is_open(*account) {
                    return false;
                }
                self.states.insert(account.bytes, *state);
                true
            }
        }
    }

    /// Applies the actions of one instruction; false, with nothing changed,
    /// where one of them fails.
    fn try_apply(&mut self, actions: &[Action]) -> bool {
        let saved = self.clone();
        for action in actions {
            if !self.step(action) {
                *self = saved;
                return false;
            }
        }
        true
    }

    fn apply(&mut self, actions: &[Action]) {
        assert!(self.try_apply(actions), "the instruction completes");
    }
}

#[test]
fn withdrawing_a_token_offer_restores_the_funding_account() {
    let (initializer, initializer_mint, taker, taker_mint) = (key(1), key(3), key(2), key(4));
    let keys = [initializer, initializer_mint, taker, taker_mint];
    let state_key = derive(b"state", &keys);
    let wallet_key = derive(b"wallet", &keys);
    let funding = TokenAccount { key: key(10), mint: initializer_mint, owner: initializer, amount: 800 };
    let mut ledger = Ledger::default();
    ledger.add_lamports(initializer, 10_000);
    ledger.hold(&funding);

    let open = InitializeTokenToken {
        initializer: AccountRef { key: initializer, is_signer: true, lamports: 10_000 },
        initializer_mint,
        taker,
        taker_mint,
        initializer_withdraw_token_account: funding,
        exchange_state: state_key,
        escrow_wallet: wallet_key,
    };
    ledger.apply(&process_initialize_token_token(&program(), &open, IDX, 300, 40).unwrap());
    assert_eq!(ledger.tokens(wallet_key), 300);
    assert_eq!(ledger.tokens(funding.key), 500);

    let cancel = CancelTokenToken {
        initializer: AccountRef { key: initializer, is_signer: true, lamports: ledger.lamports(initializer) as u64 },
        initializer_mint,
        taker,
        taker_mint,
        initializer_withdraw_token_account: TokenAccount { amount: 500, ..funding },
        exchange_state: StateAccount {
            key: state_key,
            lamports: ledger.lamports(state_key) as u64,
            data: ledger.states[&state_key.bytes],
        },
        escrow_wallet: TokenAccount { key: wallet_key, mint: initializer_mint, owner: state_key, amount: 300 },
    };
    ledger.apply(&process_cancel_token_token(&program(), &cancel, IDX).unwrap());
    assert_eq!(ledger.tokens(funding.key), 800);
    assert_eq!(ledger.tokens(wallet_key), 0);
    assert_eq!(ledger.lamports(initializer), 10_000);
    assert_eq!(ledger.lamports(state_key), 0);
    assert_eq!(ledger.lamports(wallet_key), 0);
}

#[test]
fn withdrawing_a_sol_offer_refunds_the_initializer() {
    let (initializer, taker, taker_mint) = (key(1), key(2), key(4));
    let state_key = derive(b"state", &[initializer, taker, taker_mint]);
    let mut ledger = Ledger::default();
    ledger.add_lamports(initializer, 10_000);

    let open = InitializeSolToken {
        initializer: AccountRef { key: initializer, is_signer: true, lamports: 10_000 },
        taker,
        taker_mint,
        exchange_state: state_key,
    };
    ledger.apply(&process_initialize_sol_token(&program(), &open, IDX, 3_000, 40).unwrap());
    assert_eq!(ledger.lamports(state_key), STATE_RENT + 3_000);
    assert_eq!(ledger.lamports(initializer), 10_000 - STATE_RENT - 3_000);

    let cancel = CancelSolToken {
        initializer: AccountRef { key: initializer, is_signer: true, lamports: ledger.lamports(initializer) as u64 },
        taker,
        taker_mint,
        exchange_state: StateAccount {
            key: state_key,
            lamports: ledger.lamports(state_key) as u64,
            data: ledger.states[&state_key.bytes],
        },
    };
    ledger.apply(&process_cancel_sol_token(&program(), &cancel, IDX).unwrap());
    assert_eq!(ledger.lamports(initializer), 10_000);
    assert_eq!(ledger.lamports(state_key), 0);
}

#[test]
fn taking_a_sol_offer_swaps_lamports_for_tokens() {
    let (initializer, taker, taker_mint) = (key(1), key(2), key(4));
    let state_key = derive(b"state", &[initializer, taker, taker_mint]);
    let mut ledger = Ledger::default();
    ledger.add_lamports(initializer, 10_000);
    ledger.add_lamports(taker, 700);
    let open = InitializeSolToken {
        initializer: AccountRef { key: initializer, is_signer: true, lamports: 10_000 },
        taker,
        taker_mint,
        exchange_state: state_key,
    };
    ledger.apply(&process_initialize_sol_token(&program(), &open, IDX, 3_000, 40).unwrap());
    let take = ExchangeSolToken {
        initializer,
        taker: AccountRef { key: taker, is_signer: true, lamports: 700 },
        taker_mint,
        initializer_receive_token_account: TokenAccount { key: key(11), mint: taker_mint, owner: initializer, amount: 0 },
        taker_withdraw_token_account: TokenAccount { key: key(12), mint: taker_mint, owner: taker, amount: 90 },
        exchange_state: StateAccount {
            key: state_key,
            lamports: ledger.lamports(state_key) as u64,
            data: ledger.states[&state_key.bytes],
        },
    };
    ledger.hold(&take.initializer_receive_token_account);
    ledger.hold(&take.taker_withdraw_token_account);
    ledger.apply(&process_exchange_sol_token(&program(), &take, IDX).unwrap());
    assert_eq!(ledger.tokens(key(11)), 40);
    assert_eq!(ledger.tokens(key(12)), 50);
    assert_eq!(ledger.lamports(taker), 700 + 3_000);
    assert_eq!(ledger.lamports(initializer), 10_000 - 3_000);
    assert_eq!(ledger.lamports(state_key), 0);
}

#[test]
fn taking_a_token_offer_for_sol_swaps_tokens_for_lamports() {
    let (initializer, initializer_mint, taker) = (key(1), key(3), key(2));
    let keys = [initializer, initializer_mint, taker];
    let state_key = derive(b"state", &keys);
    let wallet_key = derive(b"wallet", &keys);
    let funding = TokenAccount { key: key(10), mint: initializer_mint, owner: initializer, amount: 800 };
    let mut ledger = Ledger::default();
    ledger.add_lamports(initializer, 10_000);
    ledger.add_lamports(taker, 700);
    ledger.hold(&funding);
    let open = InitializeTokenSol {
        initializer: AccountRef { key: initializer, is_signer: true, lamports: 10_000 },
        initializer_mint,
        taker,
        initializer_withdraw_token_account: funding,
        exchange_state: state_key,
        escrow_wallet: wallet_key,
    };
    ledger.apply(&process_initialize_token_sol(&program(), &open, IDX, 300, 600).unwrap());
    let take = ExchangeTokenSol {
        initializer,
        initializer_mint,
        taker: AccountRef { key: taker, is_signer: true, lamports: 700 },
        taker_receive_token_account: TokenAccount { key: key(13), mint: initializer_mint, owner: taker, amount: 0 },
        exchange_state: StateAccount {
            key: state_key,
            lamports: ledger.lamports(state_key) as u64,
            data: ledger.states[&state_key.bytes],
        },
        escrow_wallet: TokenAccount { key: wallet_key, mint: initializer_mint, owner: state_key, amount: 300 },
    };
    ledger.hold(&take.taker_receive_token_account);
    ledger.apply(&process_exchange_token_sol(&program(), &take, IDX).unwrap());
    assert_eq!(ledger.tokens(key(13)), 300);
    assert_eq!(ledger.tokens(wallet_key), 0);
    assert_eq!(ledger.lamports(taker), 100);
    assert_eq!(ledger.lamports(initializer), 10_000 + 600);
    assert_eq!(ledger.lamports(state_key), 0);
    assert_eq!(ledger.lamports(wallet_key), 0);
}

#[test]
fn taking_a_token_offer_for_tokens_swaps_both_amounts() {
    let (initializer, initializer_mint, taker, taker_mint) = (key(1), key(3), key(2), key(4));
    let keys = [initializer, initializer_mint, taker, taker_mint];
    let state_key = derive(b"state", &keys);
    let wallet_key = derive(b"wallet", &keys);
    let funding = TokenAccount { key: key(10), mint: initializer_mint, owner: initializer, amount: 800 };
    let mut ledger = Ledger::default();
    ledger.add_lamports(initializer, 10_000);
    ledger.hold(&funding);
    let open = InitializeTokenToken {
        initializer: AccountRef { key: initializer, is_signer: true, lamports: 10_000 },
        initializer_mint,
        taker,
        taker_mint,
        initializer_withdraw_token_account: funding,
        exchange_state: state_key,
        escrow_wallet: wallet_key,
    };
    ledger.apply(&process_initialize_token_token(&program(), &open, IDX, 300, 40).unwrap());
    let take = ExchangeTokenToken {
        initializer,
        initializer_mint,
        taker: AccountRef { key: taker, is_signer: true, lamports: 700 },
        taker_mint,
        initializer_receive_token_account: TokenAccount { key: key(11), mint: taker_mint, owner: initializer, amount: 0 },
        taker_withdraw_token_account: TokenAccount { key: key(12), mint: taker_mint, owner: taker, amount: 45 },
        taker_receive_token_account: TokenAccount { key: key(13), mint: initializer_mint, owner: taker, amount: 0 },
        exchange_state: StateAccount {
            key: state_key,
            lamports: ledger.lamports(state_key) as u64,
            data: ledger.states[&state_key.bytes],
        },
        escrow_wallet: TokenAccount { key: wallet_key, mint: initializer_mint, owner: state_key, amount: 300 },
    };
    ledger.hold(&take.initializer_receive_token_account);
    ledger.hold(&take.taker_withdraw_token_account);
    ledger.hold(&take.taker_receive_token_account);
    ledger.apply(&process_exchange_token_token(&program(), &take, IDX).unwrap());
    assert_eq!(ledger.tokens(key(11)), 40);
    assert_eq!(ledger.tokens(key(12)), 5);
    assert_eq!(ledger.tokens(key(13)), 300);
    assert_eq!(ledger.tokens(wallet_key), 0);
    assert_eq!(ledger.tokens(funding.key), 500);
    assert_eq!(ledger.lamports(initializer), 10_000);
    assert_eq!(ledger.lamports(state_key), 0);
}

#[test]
fn withdrawing_fails_while_the_escrow_holds_extra_tokens() {
    let (initializer, initializer_mint, taker, taker_mint) = (key(1), key(3), key(2), key(4));
    let keys = [initializer, initializer_mint, taker, taker_mint];
    let state_key = derive(b"state", &keys);
    let wallet_key = derive(b"wallet", &keys);
    let funding = TokenAccount { key: key(10), mint: initializer_mint, owner: initializer, amount: 800 };
    let mut ledger = Ledger::default();
    ledger.add_lamports(initializer, 10_000);
    ledger.hold(&funding);
    let open = InitializeTokenToken {
        initializer: AccountRef { key: initializer, is_signer: true, lamports: 10_000 },
        initializer_mint,
        taker,
        taker_mint,
        initializer_withdraw_token_account: funding,
        exchange_state: state_key,
        escrow_wallet: wallet_key,
    };
    ledger.apply(&process_initialize_token_token(&program(), &open, IDX, 300, 40).unwrap());
    // Someone sends more tokens to the escrow wallet.
    ledger.add_tokens(wallet_key, 5);
    let cancel = CancelTokenToken {
        initializer: AccountRef { key: initializer, is_signer: true, lamports: ledger.lamports(initializer) as u64 },
        initializer_mint,
        taker,
        taker_mint,
        initializer_withdraw_token_account: TokenAccount { amount: 500, ..funding },
        exchange_state: StateAccount {
            key: state_key,
            lamports: ledger.lamports(state_key) as u64,
            data: ledger.states[&state_key.bytes],
        },
        escrow_wallet: TokenAccount { key: wallet_key, mint: initializer_mint, owner: state_key, amount: 305 },
    };
    let actions = process_cancel_token_token(&program(), &cancel, IDX).unwrap();
    assert!(!ledger.try_apply(&actions));
    assert_eq!(ledger.tokens(wallet_key), 305);
    assert_eq!(ledger.tokens(funding.key), 500);
}

#[test]
fn opening_fails_when_the_initializer_cannot_pay() {
    let (initializer, taker, taker_mint) = (key(1), key(2), key(4));
    let state_key = derive(b"state", &[initializer, taker, taker_mint]);
    let mut ledger = Ledger::default();
    ledger.add_lamports(initializer, STATE_RENT + 100);
    let open = InitializeSolToken {
        initializer: AccountRef { key: initializer, is_signer: true, lamports: (STATE_RENT + 100) as u64 },
        taker,
        taker_mint,
        exchange_state: state_key,
    };
    let actions = process_initialize_sol_token(&program(), &open, IDX, 101, 40).unwrap();
    assert!(!ledger.try_apply(&actions));
    assert_eq!(ledger.lamports(initializer), STATE_RENT + 100);
    assert_eq!(ledger.lamports(state_key), 0);
}

#[test]
fn a_prefunded_state_address_is_topped_up_and_refunded() {
    let (initializer, taker, taker_mint) = (key(1), key(2), key(4));
    let state_key = derive(b"state", &[initializer, taker, taker_mint]);
    let mut ledger = Ledger::default();
    ledger.add_lamports(initializer, 10_000);
    ledger.add_lamports(state_key, 700);
    let open = InitializeSolToken {
        initializer: AccountRef { key: initializer, is_signer: true, lamports: 10_000 },
        taker,
        taker_mint,
        exchange_state: state_key,
    };
    ledger.apply(&process_initialize_sol_token(&program(), &open, IDX, 3_000, 40).unwrap());
    assert_eq!(ledger.lamports(state_key), STATE_RENT + 3_000);
    assert_eq!(ledger.lamports(initializer), 10_000 - (STATE_RENT - 700) - 3_000);
    let cancel = CancelSolToken {
        initializer: AccountRef { key: initializer, is_signer: true, lamports: ledger.lamports(initializer) as u64 },
        taker,
        taker_mint,
        exchange_state: StateAccount {
            key: state_key,
            lamports: ledger.lamports(state_key) as u64,
            data: ledger.states[&state_key.bytes],
        },
    };
    ledger.apply(&process_cancel_sol_token(&program(), &cancel, IDX).unwrap());
    assert_eq!(ledger.lamports(initializer), 10_000 + 700);
    assert_eq!(ledger.lamports(state_key), 0);
}

fn open_token_offer(ledger: &mut Ledger, funding: TokenAccount) -> InitializeTokenToken {
    let (initializer, initializer_mint, taker, taker_mint) = (key(1), key(3), key(2), key(4));
    let keys = [initializer, initializer_mint, taker, taker_mint];
    let open = InitializeTokenToken {
        initializer: AccountRef { key: initializer, is_signer: true, lamports: ledger.lamports(initializer) as u64 },
        initializer_mint,
        taker,
        taker_mint,
        initializer_withdraw_token_account: funding,
        exchange_state: derive(b"state", &keys),
        escrow_wallet: derive(b"wallet", &keys),
    };
    ledger.apply(&process_initialize_token_token(&program(), &open, IDX, 300, 40).unwrap());
    open
}

fn withdraw_token_offer(ledger: &Ledger, open: &InitializeTokenToken, state: ExchangeState) -> CancelTokenToken {
    let funding = open.initializer_withdraw_token_account;
    CancelTokenToken {
        initializer: AccountRef { lamports: ledger.lamports(open.initializer.key) as u64, ..open.initializer },
        initializer_mint: open.initializer_mint,
        taker: open.taker,
        taker_mint: open.taker_mint,
        initializer_withdraw_token_account: TokenAccount { amount: ledger.tokens(funding.key) as u64, ..funding },
        exchange_state: StateAccount {
            key: open.exchange_state,
            lamports: ledger.lamports(open.exchange_state) as u64,
            data: state,
        },
        escrow_wallet: TokenAccount {
            key: open.escrow_wallet,
            mint: open.initializer_mint,
            owner: open.exchange_state,
            amount: 300,
        },
    }
}

#[test]
fn opening_over_an_open_exchange_fails_and_keeps_the_escrow() {
    let funding = TokenAccount { key: key(10), mint: key(3), owner: key(1), amount: 800 };
    let mut ledger = Ledger::default();
    ledger.add_lamports(key(1), 10_000);
    ledger.hold(&funding);
    let open = open_token_offer(&mut ledger, funding);
    let terms = ledger.states[&open.exchange_state.bytes];
    let before = (ledger.lamports(key(1)), ledger.tokens(funding.key), ledger.tokens(open.escrow_wallet));
    assert_eq!(before.2, 300);

    let again = InitializeTokenToken {
        initializer: AccountRef { lamports: before.0 as u64, ..open.initializer },
        initializer_withdraw_token_account: TokenAccount { amount: 500, ..funding },
        ..open
    };
    let actions = process_initialize_token_token(&program(), &again, IDX, 100, 1).unwrap();
    assert!(!ledger.try_apply(&actions));
    assert_eq!((ledger.lamports(key(1)), ledger.tokens(funding.key), ledger.tokens(open.escrow_wallet)), before);
    assert_eq!(ledger.states[&open.exchange_state.bytes], terms);
}

#[test]
fn opening_a_sol_offer_over_an_open_one_fails_and_keeps_the_deposit() {
    let (initializer, taker, taker_mint) = (key(1), key(2), key(4));
    let state_key = derive(b"state", &[initializer, taker, taker_mint]);
    let mut ledger = Ledger::default();
    ledger.add_lamports(initializer, 10_000);
    let open = InitializeSolToken {
        initializer: AccountRef { key: initializer, is_signer: true, lamports: 10_000 },
        taker,
        taker_mint,
        exchange_state: state_key,
    };
    ledger.apply(&process_initialize_sol_token(&program(), &open, IDX, 3_000, 40).unwrap());
    let terms = ledger.states[&state_key.bytes];
    let again = InitializeSolToken {
        initializer: AccountRef { lamports: ledger.lamports(initializer) as u64, ..open.initializer },
        ..open
    };
    let actions = process_initialize_sol_token(&program(), &again, IDX, 10, 1).unwrap();
    assert!(!ledger.try_apply(&actions));
    assert_eq!(ledger.lamports(state_key), STATE_RENT + 3_000);
    assert_eq!(ledger.lamports(initializer), 10_000 - STATE_RENT - 3_000);
    assert_eq!(ledger.states[&state_key.bytes], terms);
}

#[test]
fn a_withdrawn_offer_cannot_be_withdrawn_again() {
    let (initializer, taker, taker_mint) = (key(1), key(2), key(4));
    let state_key = derive(b"state", &[initializer, taker, taker_mint]);
    let mut ledger = Ledger::default();
    ledger.add_lamports(initializer, 10_000);
    let open = InitializeSolToken {
        initializer: AccountRef { key: initializer, is_signer: true, lamports: 10_000 },
        taker,
        taker_mint,
        exchange_state: state_key,
    };
    ledger.apply(&process_initialize_sol_token(&program(), &open, IDX, 3_000, 40).unwrap());
    let cancel = CancelSolToken {
        initializer: AccountRef { key: initializer, is_signer: true, lamports: ledger.lamports(initializer) as u64 },
        taker,
        taker_mint,
        exchange_state: StateAccount {
            key: state_key,
            lamports: ledger.lamports(state_key) as u64,
            data: ledger.states[&state_key.bytes],
        },
    };
    let actions = process_cancel_sol_token(&program(), &cancel, IDX).unwrap();
    ledger.apply(&actions);
    assert!(!ledger.is_open(state_key));
    assert!(!ledger.try_apply(&actions));
    assert_eq!(ledger.lamports(initializer), 10_000);
    assert_eq!(ledger.lamports(state_key), 0);

    // Opening another exchange in between does not reopen this one.
    let other_state = derive(b"state", &[initializer, taker, key(5)]);
    let other = InitializeSolToken { taker_mint: key(5), exchange_state: other_state, ..open };
    ledger.apply(&process_initialize_sol_token(&program(), &other, IDX, 1_000, 40).unwrap());
    assert!(ledger.is_open(other_state));
    let paid = ledger.lamports(initializer);
    assert!(!ledger.try_apply(&actions));
    assert_eq!(ledger.lamports(initializer), paid);
    assert_eq!(ledger.lamports(state_key), 0);
}

#[test]
fn a_withdrawn_token_offer_cannot_be_taken() {
    let funding = TokenAccount { key: key(10), mint: key(3), owner: key(1), amount: 800 };
    let mut ledger = Ledger::default();
    ledger.add_lamports(key(1), 10_000);
    ledger.hold(&funding);
    let open = open_token_offer(&mut ledger, funding);
    let terms = ledger.states[&open.exchange_state.bytes];
    let withdraw = withdraw_token_offer(&ledger, &open, terms);
    ledger.apply(&process_cancel_token_token(&program(), &withdraw, IDX).unwrap());
    assert!(!ledger.is_open(open.exchange_state));
    assert!(!ledger.is_open(open.escrow_wallet));

    let taker_pays = TokenAccount { key: key(12), mint: key(4), owner: key(2), amount: 45 };
    let take = ExchangeTokenToken {
        initializer: key(1),
        initializer_mint: key(3),
        taker: AccountRef { key: key(2), is_signer: true, lamports: 700 },
        taker_mint: key(4),
        initializer_receive_token_account: TokenAccount { key: key(11), mint: key(4), owner: key(1), amount: 0 },
        taker_withdraw_token_account: taker_pays,
        taker_receive_token_account: TokenAccount { key: key(13), mint: key(3), owner: key(2), amount: 0 },
        exchange_state: StateAccount { key: open.exchange_state, lamports: 2_000, data: terms },
        escrow_wallet: TokenAccount { key: open.escrow_wallet, mint: key(3), owner: open.exchange_state, amount: 300 },
    };
    ledger.hold(&take.initializer_receive_token_account);
    ledger.hold(&taker_pays);
    ledger.hold(&take.taker_receive_token_account);
    let actions = process_exchange_token_token(&program(), &take, IDX).unwrap();
    assert!(!ledger.try_apply(&actions));
    assert_eq!(ledger.tokens(key(12)), 45);
    assert_eq!(ledger.tokens(key(11)), 0);
    assert_eq!(ledger.tokens(key(13)), 0);
    assert_eq!(ledger.tokens(funding.key), 800);
}
