//! Account backup, record discovery and transfer assembly for an Aleo account.
//!
//! The crate holds the decisions: how a private key is blinded and encrypted for
//! backup, which block windows a record scan visits and when it stops, which
//! records count as owned and unspent, and which inputs a transfer hands to the
//! execution engine. Values of the network (keys, addresses, records,
//! ciphertexts) cross the crate's boundary in their canonical string encodings;
//! field elements cross it as little-endian bytes.
use vstd::prelude::*;

pub mod account;
pub mod agent;
pub mod backup;
pub mod builder;
pub mod chain;
pub mod field;
pub mod program;
pub mod program_scan;
pub mod record;
pub mod scan;
pub mod sweep;
pub mod transfer;
pub mod unspent;

verus! {

/// Number of microcredits in one credit.
pub const MICROCREDITS: u64 = 1_000_000;

/// Endpoint that an agent talks to unless told otherwise.
pub const DEFAULT_BASE_URL: &'static str = "https://api.explorer.aleo.org/v1";

/// Network that an agent talks to unless told otherwise.
pub const DEFAULT_TESTNET: &'static str = "testnet3";

/// Name of the main network.
pub const MAINNET: &'static str = "mainnet";

} // verus!
