use vstd::prelude::*;

use crate::pubkey::Pubkey;

verus! {

/// The data of an exchange's state account: who offers what to whom.
#[derive(Clone, Copy, Debug, PartialEq, Eq)]
pub struct ExchangeState {
    pub exchange_idx: u64,
    pub initializer: Pubkey,
    pub taker: Pubkey,
    pub initializer_mint: Pubkey,
    pub taker_mint: Pubkey,
    pub initializer_amount: u64,
    pub taker_amount: u64,
}

/// The exchange state with its addresses taken as byte sequences.
#[verifier::ext_equal]
pub struct ExchangeStateView {
    pub exchange_idx: u64,
    pub initializer: Seq<u8>,
    pub taker: Seq<u8>,
    pub initializer_mint: Seq<u8>,
    pub taker_mint: Seq<u8>,
    pub initializer_amount: u64,
    pub taker_amount: u64,
}

impl View for ExchangeState {
    type V = ExchangeStateView;

    open spec fn view(&self) -> ExchangeStateView {
        ExchangeStateView {
            exchange_idx: self.exchange_idx,
            initializer: self.initializer@,
            taker: self.taker@,
            initializer_mint: self.initializer_mint@,
            taker_mint: self.taker_mint@,
            initializer_amount: self.initializer_amount,
            taker_amount: self.taker_amount,
        }
    }
}

/// Length of the discriminator that prefixes the data of every program account.
pub open spec fn discriminator_len() -> nat {
    8
}

/// Length of the stored fields of an exchange state: one index and two amounts
/// of 8 bytes each, and four addresses of 32 bytes each.
pub open spec fn exchange_state_data_len() -> nat {
    3 * 8 + 4 * 32
}

impl ExchangeState {
    /// The number of bytes allocated for an exchange state account.
    pub fn space() -> (space: usize)
        ensures
            space == discriminator_len() + exchange_state_data_len(),
    {
        8 + 4 * 32 + 3 * 8
    }
}

} // verus!
