//! Verified core of a sharded token-emission ledger: record layouts, address
//! derivation and account checks, the epoch emission state machine, staking
//! and pool balances, and the commission relay.
//!
//! Every transition checks all of its record slots before it writes any of
//! them, and leaves them untouched when it fails. Calls into other programs
//! are returned as `Invocation`s for the host to make in the same atomic unit.

pub mod error;
pub mod emission;
pub mod pda;
pub mod seeds;
pub mod loaders;
pub mod codec;
pub mod state;
pub mod relay;
pub mod accounting;
pub mod instruction;
pub mod processor;
