//! Peer-to-peer escrow swap. A funder locks a base amount in an escrow
//! account whose address is derived from the funder and the order; the
//! recipient that the order names unlocks it by paying the quote amount
//! inside the order's time window, or the funder takes it back. Either leg
//! is the ledger's native asset or a token.
//!
//! The three instructions are defined on a [`ledger::Ledger`], this
//! library's picture of the accounts that an instruction is handed:
//!
//! - [`processor`]: what each instruction does, step by step, and what
//!   holds afterwards;
//! - [`plan`]: the same steps as a list, for a ledger that carries them out
//!   by its own means;
//! - [`supply`]: no instruction makes or loses any asset;
//! - [`instruction`]: the instructions as messages with their accounts, and
//!   the entry point that reads them;
//! - [`client`]: what a client works out before it sends an instruction or
//!   asks for the history of orders;
//! - [`state`], [`utils`], [`token`], [`clock`], [`wire`], [`pubkey`],
//!   [`error`], [`context`]: the order record, escrow derivation and the
//!   moves of the native asset, the token sub-system, the time window, the
//!   byte formats, addresses, errors, and what an instruction is handed.

pub mod client;
pub mod clock;
pub mod context;
pub mod error;
pub mod instruction;
pub mod ledger;
pub mod plan;
pub mod processor;
pub mod pubkey;
pub mod state;
pub mod supply;
pub mod token;
pub mod utils;
pub mod wire;

pub use context::{CancelOrder, Context, CreateOrder, ExecuteOrder};
