use vstd::prelude::*;

use crate::actions::ActionView;

verus! {

/// What the system and token programs know of every address: its lamports;
/// whether it holds an open account (a state account or a token account);
/// and, for a token account, its balance, mint, owner and whether it is frozen.
pub struct Ledger {
    pub lamports: spec_fn(Seq<u8>) -> int,
    pub open: spec_fn(Seq<u8>) -> bool,
    pub tokens: spec_fn(Seq<u8>) -> int,
    pub mint: spec_fn(Seq<u8>) -> Seq<u8>,
    pub owner: spec_fn(Seq<u8>) -> Seq<u8>,
    pub frozen: spec_fn(Seq<u8>) -> bool,
}

impl Ledger {
    /// The lamports held at `key`.
    pub open spec fn lamports_of(&self, key: Seq<u8>) -> int {
        (self.lamports)(key)
    }

    /// Whether an account is open at `key`.
    pub open spec fn is_open(&self, key: Seq<u8>) -> bool {
        (self.open)(key)
    }

    /// The tokens held by the token account at `key`.
    pub open spec fn tokens_of(&self, key: Seq<u8>) -> int {
        (self.tokens)(key)
    }

    /// The mint of the token account at `key`.
    pub open spec fn mint_of(&self, key: Seq<u8>) -> Seq<u8> {
        (self.mint)(key)
    }

    /// The owner of the token account at `key`.
    pub open spec fn owner_of(&self, key: Seq<u8>) -> Seq<u8> {
        (self.owner)(key)
    }

    /// Whether the token account at `key` is frozen.
    pub open spec fn is_frozen(&self, key: Seq<u8>) -> bool {
        (self.frozen)(key)
    }

    /// Whether the token account at `key` is open, not frozen, and holds the
    /// mint, owner and balance that an instruction reads of it.
    pub open spec fn holds(&self, key: Seq<u8>, mint: Seq<u8>, owner: Seq<u8>, amount: int) -> bool {
        &&& self.is_open(key)
        &&& !self.is_frozen(key)
        &&& self.mint_of(key) == mint
        &&& self.owner_of(key) == owner
        &&& self.tokens_of(key) == amount
    }
}

/// `flags` with the flag at `key` replaced by `value`.
pub open spec fn mark(flags: spec_fn(Seq<u8>) -> bool, key: Seq<u8>, value: bool) -> spec_fn(Seq<u8>) -> bool {
    |k: Seq<u8>| if k == key { value } else { flags(k) }
}

/// `keys` with the address at `key` replaced by `value`.
pub open spec fn assign(keys: spec_fn(Seq<u8>) -> Seq<u8>, key: Seq<u8>, value: Seq<u8>) -> spec_fn(Seq<u8>) -> Seq<u8> {
    |k: Seq<u8>| if k == key { value } else { keys(k) }
}

/// Lamports that the creation of a state account and of a token account
/// must leave in the new account to make it rent-exempt.
pub struct Rent {
    pub state_account: int,
    pub token_account: int,
}

/// `balances` with `delta` added at `key`.
pub open spec fn credit(balances: spec_fn(Seq<u8>) -> int, key: Seq<u8>, delta: int) -> spec_fn(Seq<u8>) -> int {
    |k: Seq<u8>| if k == key { balances(k) + delta } else { balances(k) }
}

/// `balances` with `amount` moved from `from` to `to`.
pub open spec fn shift(balances: spec_fn(Seq<u8>) -> int, from: Seq<u8>, to: Seq<u8>, amount: int) -> spec_fn(
    Seq<u8>,
) -> int {
    credit(credit(balances, from, -amount), to, amount)
}

/// `balances` with the value at `key` replaced by `value`.
pub open spec fn set(balances: spec_fn(Seq<u8>) -> int, key: Seq<u8>, value: int) -> spec_fn(Seq<u8>) -> int {
    |k: Seq<u8>| if k == key { value } else { balances(k) }
}

/// `balances` with everything at `from` moved to `to`.
pub open spec fn sweep(balances: spec_fn(Seq<u8>) -> int, from: Seq<u8>, to: Seq<u8>) -> spec_fn(Seq<u8>) -> int {
    credit(set(balances, from, 0), to, balances(from))
}

/// What the payer must add for an account holding `held` lamports to hold
/// at least `needed`.
pub open spec fn shortfall(held: int, needed: int) -> int {
    if held < needed {
        needed - held
    } else {
        0
    }
}

/// The ledger after one action, or `None` where the system or token program
/// refuses it:
/// - creating an account where one is open, or with a payer short of the
///   lamports the new account lacks for rent (creation tops the account up);
/// - a system transfer from an open account, or from one short of lamports;
/// - a token transfer between accounts that are not open, are frozen, hold
///   different mints, where the authority does not own the source, or where
///   the source is short of tokens;
/// - closing a token account that is not open, is frozen, is not owned by the
///   authority, or still holds tokens;
/// - lowering the lamports of an account that is not open (only the program's
///   own accounts can be debited), storing into or closing a state account
///   that is not open.
/// Signatures are not modelled: the account rules require the signing
/// parties, and the program signs for its own accounts with their seeds.
pub open spec fn step(ledger: Ledger, rent: Rent, action: ActionView) -> Option<Ledger> {
    match action {
        ActionView::CreateStateAccount { payer, account, .. } => {
            let topup = shortfall(ledger.lamports_of(account), rent.state_account);
            if !ledger.is_open(account) && ledger.lamports_of(payer) >= topup {
                Some(
                    Ledger {
                        lamports: shift(ledger.lamports, payer, account, topup),
                        open: mark(ledger.open, account, true),
                        ..ledger
                    },
                )
            } else {
                None
            }
        },
        ActionView::CreateTokenAccount { payer, account, mint, authority, .. } => {
            let topup = shortfall(ledger.lamports_of(account), rent.token_account);
            if !ledger.is_open(account) && ledger.lamports_of(payer) >= topup {
                Some(
                    Ledger {
                        lamports: shift(ledger.lamports, payer, account, topup),
                        open: mark(ledger.open, account, true),
                        tokens: set(ledger.tokens, account, 0),
                        mint: assign(ledger.mint, account, mint),
                        owner: assign(ledger.owner, account, authority),
                        frozen: mark(ledger.frozen, account, false),
                    },
                )
            } else {
                None
            }
        },
        ActionView::SystemTransfer { from, to, lamports } => if !ledger.is_open(from) && ledger.lamports_of(from)
            >= lamports {
            Some(Ledger { lamports: shift(ledger.lamports, from, to, lamports as int), ..ledger })
        } else {
            None
        },
        ActionView::TokenTransfer { from, to, authority, amount, .. } => if ledger.is_open(from) && ledger.is_open(
            to,
        ) && !ledger.is_frozen(from) && !ledger.is_frozen(to) && ledger.mint_of(from) == ledger.mint_of(to)
            && ledger.owner_of(from) == authority && ledger.tokens_of(from) >= amount {
            Some(Ledger { tokens: shift(ledger.tokens, from, to, amount as int), ..ledger })
        } else {
            None
        },
        ActionView::CloseTokenAccount { account, destination, authority, .. } => if ledger.is_open(account)
            && !ledger.is_frozen(account) && ledger.owner_of(account) == authority && ledger.tokens_of(account) == 0 {
            Some(
                Ledger {
                    lamports: sweep(ledger.lamports, account, destination),
                    open: mark(ledger.open, account, false),
                    ..ledger
                },
            )
        } else {
            None
        },
        ActionView::SetLamports { account, lamports } => if lamports >= ledger.lamports_of(account)
            || ledger.is_open(account) {
            Some(Ledger { lamports: set(ledger.lamports, account, lamports as int), ..ledger })
        } else {
            None
        },
        ActionView::WriteState { account, .. } => if ledger.is_open(account) {
            Some(ledger)
        } else {
            None
        },
        ActionView::CloseStateAccount { account, destination } => if ledger.is_open(account) {
            Some(
                Ledger {
                    lamports: sweep(ledger.lamports, account, destination),
                    open: mark(ledger.open, account, false),
                    ..ledger
                },
            )
        } else {
            None
        },
    }
}

/// The ledger after the actions, in order, or `None` where one of them fails
/// (the whole instruction then fails and changes nothing).
pub open spec fn run(ledger: Ledger, rent: Rent, actions: Seq<ActionView>) -> Option<Ledger>
    decreases actions.len(),
{
    if actions.len() == 0 {
        Some(ledger)
    } else {
        match step(ledger, rent, actions[0]) {
            Some(next) => run(next, rent, actions.drop_first()),
            None => None,
        }
    }
}

} // verus!
