//! A single-owner ledger of signed records.
//!
//! A [`Chain`] owns one Dilithium2 keypair and a store of [`Transaction`]
//! records. Each record carries a detached signature over its payload, a link
//! to the record that was latest when it was created, and an attestation
//! token from a simulated device.
//!
//! Every function here is verified against its contract. The few calls into
//! other crates (signing, identifiers, the clock) stand behind small trusted
//! functions whose doc comments say what is taken on trust.

use vstd::prelude::*;

pub mod ambient;
pub mod attestation;
pub mod chain;
pub mod command;
pub mod error;
pub mod laws;
pub mod signature;
pub mod store;
pub mod text;
pub mod types;

pub use chain::Chain;
pub use command::{parse_command, Command};
pub use error::{ErrorKind, LedgerError};
pub use store::TransactionStore;
pub use types::{HardwareAttestation, Timestamp, Transaction};

verus! {

/// The version of this library.
pub const VERSION: &'static str = "0.1.0";

} // verus!
