//! A token faucet program: its instruction format, its stored state and the
//! rules by which it initializes, pays out and is refilled, over a plain model
//! of the accounts that the runtime hands to it.
pub mod account;
pub mod encoding;
pub mod error;
pub mod instructions;
pub mod processor;
pub mod pubkey;
pub mod rent;
pub mod state;
pub mod system;

pub use processor::Processor;
