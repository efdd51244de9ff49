//! The values a ledger stores, and their mathematical views.

use vstd::prelude::*;

verus! {

/// An instant in UTC: whole seconds since 1970-01-01 00:00:00, and the
/// nanoseconds past that second. Instants are ordered by the seconds, then by
/// the nanoseconds.
#[derive(Clone, Copy, Debug, PartialEq, Eq, PartialOrd, Ord, Hash, Structural)]
pub struct Timestamp {
    /// Seconds since the epoch; negative before it.
    pub secs: i64,
    /// Nanoseconds past the second.
    pub nanos: u32,
}

impl Timestamp {
    /// `self` is `other` or later.
    pub open spec fn at_or_after(self, other: Timestamp) -> bool {
        self.secs > other.secs || (self.secs == other.secs && self.nanos >= other.nanos)
    }

    /// `self` is strictly before `other`.
    pub open spec fn before(self, other: Timestamp) -> bool {
        !self.at_or_after(other)
    }

    /// The instant `nanos` nanoseconds past second `secs`.
    pub fn new(secs: i64, nanos: u32) -> (t: Timestamp)
        ensures
            t.secs == secs,
            t.nanos == nanos,
    {
        Timestamp { secs, nanos }
    }

    /// Whether `self` is `other` or later.
    pub fn is_at_or_after(&self, other: &Timestamp) -> (r: bool)
        ensures
            r == self.at_or_after(*other),
    {
        self.secs > other.secs || (self.secs == other.secs && self.nanos >= other.nanos)
    }
}

/// An attestation token: who issued it, when, and the issuer's evidence.
#[derive(Clone, Debug, PartialEq, Eq)]
pub struct HardwareAttestation {
    /// When the token was issued.
    pub timestamp: Timestamp,
    /// The issuing device.
    pub device_id: String,
    /// The device's evidence, opaque to the ledger.
    pub attestation_data: Vec<u8>,
}

/// What an attestation token holds.
pub struct AttestationView {
    pub timestamp: Timestamp,
    pub device_id: Seq<char>,
    pub attestation_data: Seq<u8>,
}

impl View for HardwareAttestation {
    type V = AttestationView;

    open spec fn view(&self) -> AttestationView {
        AttestationView {
            timestamp: self.timestamp,
            device_id: self.device_id@,
            attestation_data: self.attestation_data@,
        }
    }
}

/// One signed record of the ledger.
#[derive(Clone, Debug, PartialEq, Eq)]
pub struct Transaction {
    /// The record's identifier: the 128 bits of a UUID.
    pub id: u128,
    /// When the record was created.
    pub timestamp: Timestamp,
    /// The payload, as the caller gave it.
    pub data: Vec<u8>,
    /// The detached signature over `data`.
    pub signature: Vec<u8>,
    /// The record that was latest when this one was created, if there was one.
    /// The signature does not cover this link.
    pub previous_transaction: Option<u128>,
    /// The token issued for the creation of this record.
    pub hardware_attestation: Option<HardwareAttestation>,
}

/// What a record holds.
pub struct TransactionView {
    pub id: u128,
    pub timestamp: Timestamp,
    pub data: Seq<u8>,
    pub signature: Seq<u8>,
    pub previous_transaction: Option<u128>,
    pub hardware_attestation: Option<AttestationView>,
}

impl View for Transaction {
    type V = TransactionView;

    open spec fn view(&self) -> TransactionView {
        TransactionView {
            id: self.id,
            timestamp: self.timestamp,
            data: self.data@,
            signature: self.signature@,
            previous_transaction: self.previous_transaction,
            hardware_attestation: match self.hardware_attestation {
                Some(a) => Some(a@),
                None => None,
            },
        }
    }
}

} // verus!
