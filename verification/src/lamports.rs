use vstd::prelude::*;

verus! {

/// Whether `amount` lamports can be moved directly from a balance of `from`
/// to a balance of `to` without leaving the range of a balance.
pub open spec fn can_move(from: u64, to: u64, amount: u64) -> bool {
    amount <= from && to + amount <= u64::MAX
}

/// Moves `amount` lamports directly from one balance to another; gives the
/// two new balances.
pub fn move_lamports(from: u64, to: u64, amount: u64) -> (balances: (u64, u64))
    requires
        can_move(from, to, amount),
    ensures
        balances.0 == from - amount,
        balances.1 == to + amount,
        balances.0 + balances.1 == from + to,
{
    (from - amount, to + amount)
}

} // verus!
