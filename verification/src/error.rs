//! The ledger's failures.

use vstd::prelude::*;
use vstd::string::*;

verus! {

/// The three families a failure can belong to.
#[derive(Clone, Copy, Debug, PartialEq, Eq, Structural)]
pub enum ErrorKind {
    /// A record was refused as such.
    Transaction,
    /// Signing or verifying could not run.
    Crypto,
    /// An attestation token was refused.
    Hardware,
}

/// A failure of a ledger operation, with a message for the operator.
#[derive(Clone, Debug)]
pub enum LedgerError {
    /// A record was refused as such. Nothing in the ledger raises it yet.
    TransactionError(String),
    /// Signing or verifying could not run: key material is missing, or a
    /// key or a signature has a length that the scheme does not take.
    CryptoError(String),
    /// An attestation token was refused.
    HardwareError(String),
}

impl LedgerError {
    /// The family of this failure.
    pub open spec fn kind(self) -> ErrorKind {
        match self {
            LedgerError::TransactionError(_) => ErrorKind::Transaction,
            LedgerError::CryptoError(_) => ErrorKind::Crypto,
            LedgerError::HardwareError(_) => ErrorKind::Hardware,
        }
    }

    /// The message that the failure carries.
    pub open spec fn message(self) -> Seq<char> {
        match self {
            LedgerError::TransactionError(m) => m@,
            LedgerError::CryptoError(m) => m@,
            LedgerError::HardwareError(m) => m@,
        }
    }

    /// What an operator reads: the family's label, then the message.
    pub open spec fn description(self) -> Seq<char> {
        kind_label(self.kind()) + self.message()
    }

    /// The family of this failure.
    pub fn error_kind(&self) -> (k: ErrorKind)
        ensures
            k == self.kind(),
    {
        match self {
            LedgerError::TransactionError(_) => ErrorKind::Transaction,
            LedgerError::CryptoError(_) => ErrorKind::Crypto,
            LedgerError::HardwareError(_) => ErrorKind::Hardware,
        }
    }

    /// The text shown to an operator.
    pub fn describe(&self) -> (text: String)
        ensures
            text@ == self.description(),
    {
        match self {
            LedgerError::TransactionError(m) => {
                String::from_str("Transaction error: ").concat(m.as_str())
            },
            LedgerError::CryptoError(m) => String::from_str("Crypto error: ").concat(m.as_str()),
            LedgerError::HardwareError(m) => {
                String::from_str("Hardware error: ").concat(m.as_str())
            },
        }
    }
}

/// The label that starts the description of a failure of family `kind`.
pub open spec fn kind_label(kind: ErrorKind) -> Seq<char> {
    match kind {
        ErrorKind::Transaction => "Transaction error: "@,
        ErrorKind::Crypto => "Crypto error: "@,
        ErrorKind::Hardware => "Hardware error: "@,
    }
}

} // verus!
