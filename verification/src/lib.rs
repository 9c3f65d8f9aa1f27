//! A bookkeeping ledger for token airdrops.
//!
//! The ledger records, per recipient, the cumulative amount of every tracked
//! token that has been airdropped to it, and keeps a summary of each airdrop
//! run. Accounts live at program-derived addresses; a single authority may
//! change them.

pub mod pubkey;
pub mod pda;
pub mod error;
pub mod store;
pub mod ledger;
pub mod instructions;
pub mod xenblocks_airdrop_tracker;
pub mod xnm_airdrop_tracker;
pub mod xenblocks_laws;
pub mod xnm_laws;
