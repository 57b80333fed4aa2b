//! An escrow program for swapping SOL and SPL tokens between two parties,
//! written as a verified library: the account rules, the seeds of the
//! program-derived accounts and the transfers each instruction performs.
pub mod pubkey;
pub mod pda;
pub mod native_mint;
pub mod seeds;
pub mod state;
pub mod actions;
pub mod accounts;
pub mod initialize;
pub mod lamports;
pub mod cancel;
pub mod exchange;
pub mod ledger;
pub mod laws;
pub mod balance_laws;
pub mod signing;
pub mod rule_laws;
