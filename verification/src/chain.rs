//! The chain: one keypair, and the records signed with it.

use crate::ambient::{current_time, fresh_id, is_random_uuid};
use crate::attestation::{
    check_attestation, issue_attestation, issuing_device, placeholder_evidence,
    recognized_device,
};
use crate::error::{ErrorKind, LedgerError};
use crate::signature::{
    dilithium2_accepts, dilithium2_signature, generate_keypair, matching_keys, readable, sign,
    verify, SIGNATURE_BYTES,
};
use crate::store::{consistent, is_latest, lists_all, lists_since, views_of, Records, TransactionStore};
use crate::types::{HardwareAttestation, Timestamp, Transaction, TransactionView};
use vstd::prelude::*;
use vstd::string::*;

verus! {

/// The keypair of a chain, as bytes.
#[derive(Clone, Debug)]
struct QuantumKeys {
    public_key: Vec<u8>,
    secret_key: Vec<u8>,
}

/// What a keypair holds.
pub struct KeysView {
    pub public_key: Seq<u8>,
    pub secret_key: Seq<u8>,
}

/// What a chain holds.
pub struct ChainView {
    pub id: u128,
    pub name: Seq<char>,
    pub created_at: Timestamp,
    pub transactions: Records,
    pub keys: Option<KeysView>,
}

/// What a call of `verify_transaction` comes to, with the family of the
/// failure in place of the failure.
pub open spec fn outcome(r: Result<bool, LedgerError>) -> Result<bool, ErrorKind> {
    match r {
        Ok(genuine) => Ok(genuine),
        Err(e) => Err(e.kind()),
    }
}

/// `record` is what a chain with the records `before` and the secret key
/// `secret_key` creates for the payload `data` under the identifier `id`.
/// The two instants in it are those of the clock and are not determined.
pub open spec fn created_from(
    record: TransactionView,
    before: Records,
    secret_key: Seq<u8>,
    data: Seq<u8>,
    id: u128,
) -> bool {
    &&& record.id == id
    &&& record.data == data
    &&& record.signature == dilithium2_signature(data, secret_key)
    &&& record.signature.len() == SIGNATURE_BYTES
    &&& is_latest(before, record.previous_transaction)
    &&& record.hardware_attestation matches Some(token)
    &&& token.device_id == issuing_device()
    &&& token.attestation_data == placeholder_evidence()
}

/// What checking a record with attestation `attestation` comes to, once the
/// scheme has said whether it accepts the signature.
pub open spec fn concluded(
    accepted: bool,
    attestation: Option<crate::types::AttestationView>,
) -> Result<bool, ErrorKind> {
    if !accepted {
        Ok(false)
    } else {
        match attestation {
            Some(token) if !recognized_device(token.device_id) => Err(ErrorKind::Hardware),
            _ => Ok(true),
        }
    }
}

impl ChainView {
    /// The records are consistent, and a keypair, where there is one, is a
    /// matching pair.
    pub open spec fn wf(self) -> bool {
        &&& consistent(self.transactions)
        &&& self.keys matches Some(keys) ==> matching_keys(keys.public_key, keys.secret_key)
    }

    /// The record filed under `id`, if there is one.
    pub open spec fn lookup(self, id: u128) -> Option<TransactionView> {
        if self.transactions.contains_key(id) {
            Some(self.transactions[id])
        } else {
            None
        }
    }

    /// `after` is this chain with one more record, filed under `id` and
    /// created for the payload `data`. A record that was filed under `id`
    /// before is replaced.
    pub open spec fn extended_by(self, data: Seq<u8>, after: ChainView, id: u128) -> bool {
        &&& self.keys matches Some(keys)
        &&& after.id == self.id
        &&& after.name == self.name
        &&& after.created_at == self.created_at
        &&& after.keys == self.keys
        &&& is_random_uuid(id)
        &&& after.transactions.contains_key(id)
        &&& after.transactions == self.transactions.insert(id, after.transactions[id])
        &&& created_from(after.transactions[id], self.transactions, keys.secret_key, data, id)
    }

    /// What verifying `record` on this chain comes to: a failure of the
    /// crypto family where there is no keypair or the scheme cannot read the
    /// signature; `Ok(false)` where the scheme does not accept the signature;
    /// else what the attestation allows.
    pub open spec fn verification(self, record: TransactionView) -> Result<bool, ErrorKind> {
        match self.keys {
            None => Err(ErrorKind::Crypto),
            Some(keys) => if !readable(keys.public_key, record.signature) {
                Err(ErrorKind::Crypto)
            } else {
                concluded(
                    dilithium2_accepts(record.signature, record.data, keys.public_key),
                    record.hardware_attestation,
                )
            },
        }
    }
}

/// Decides what a verification comes to, from the scheme's answer `accepted`
/// on the signature and the record's attestation.
///
/// A signature that was not accepted gives `Ok(false)`, whatever the
/// attestation. An accepted one gives `Ok(true)` where the record has no
/// token or the token's device is recognized, and a `HardwareError`
/// otherwise.
pub fn conclude_verification(accepted: bool, attestation: &Option<HardwareAttestation>) -> (r:
    Result<bool, LedgerError>)
    ensures
        outcome(r) == concluded(
            accepted,
            match *attestation {
                Some(token) => Some(token@),
                None => None,
            },
        ),
        r matches Err(e) ==> e.message() == "Invalid hardware attestation"@,
{
    if !accepted {
        return Ok(false);
    }
    match attestation {
        Some(token) => match check_attestation(token) {
            Ok(()) => Ok(true),
            Err(e) => Err(e),
        },
        None => Ok(true),
    }
}

/// A single-owner ledger: the keypair that signs its records, and the
/// records.
#[derive(Clone, Debug)]
pub struct Chain {
    /// The chain's identifier: the 128 bits of a UUID.
    pub id: u128,
    /// A label for people.
    pub name: String,
    /// When the chain was created.
    pub created_at: Timestamp,
    transactions: TransactionStore,
    quantum_keypair: Option<QuantumKeys>,
}

impl View for Chain {
    type V = ChainView;

    closed spec fn view(&self) -> ChainView {
        ChainView {
            id: self.id,
            name: self.name@,
            created_at: self.created_at,
            transactions: self.transactions@,
            keys: match self.quantum_keypair {
                Some(keys) => Some(
                    KeysView { public_key: keys.public_key@, secret_key: keys.secret_key@ },
                ),
                None => None,
            },
        }
    }
}

impl Chain {
    /// The chain's invariant: see [`ChainView::wf`].
    pub open spec fn wf(&self) -> bool {
        self@.wf()
    }

    /// A chain named `name`, with a keypair of its own and no records.
    pub fn new(name: String) -> (chain: Chain)
        ensures
            chain.wf(),
            chain@.name == name@,
            chain@.transactions == Records::empty(),
            chain@.keys is Some,
            is_random_uuid(chain@.id),
    {
        let (public_key, secret_key) = generate_keypair();
        Chain {
            id: fresh_id(),
            name,
            created_at: current_time(),
            transactions: TransactionStore::new(),
            quantum_keypair: Some(QuantumKeys { public_key, secret_key }),
        }
    }

    /// The chain's identifier.
    pub fn id(&self) -> (id: u128)
        ensures
            id == self@.id,
    {
        self.id
    }

    /// The chain's label.
    pub fn name(&self) -> (name: &String)
        ensures
            name@ == self@.name,
    {
        &self.name
    }

    /// When the chain was created.
    pub fn created_at(&self) -> (at: Timestamp)
        ensures
            at == self@.created_at,
    {
        self.created_at
    }

    /// Whether the chain holds a keypair.
    pub fn has_keypair(&self) -> (present: bool)
        ensures
            present == self@.keys is Some,
    {
        self.quantum_keypair.is_some()
    }

    /// Signs `data`, files the signed record under a fresh identifier and
    /// returns the identifier.
    ///
    /// The record links to a record that none was later than when it was
    /// created, and carries a token of the simulated device. The exclusive
    /// borrow makes the search for that record and the filing one step: no
    /// other addition can come between them. The call fails,
    /// with a `CryptoError` and without a change to the chain, exactly when
    /// the chain has no keypair.
    pub fn add_transaction(&mut self, data: Vec<u8>) -> (r: Result<u128, LedgerError>)
        requires
            old(self).wf(),
        ensures
            final(self).wf(),
            r is Ok <==> old(self)@.keys is Some,
            match r {
                Ok(id) => old(self)@.extended_by(data@, final(self)@, id),
                Err(e) => {
                    &&& final(self)@ == old(self)@
                    &&& e.kind() == ErrorKind::Crypto
                    &&& e.message() == "No quantum keys available"@
                },
            },
    {
        let created = match &self.quantum_keypair {
            None => {
                return Err(
                    LedgerError::CryptoError(String::from_str("No quantum keys available")),
                );
            },
            Some(keys) => self.create_transaction(data, keys),
        };
        match created {
            Ok(transaction) => {
                let id = transaction.id;
                self.transactions.insert(transaction);
                Ok(id)
            },
            Err(e) => Err(e),
        }
    }

    /// Signs `data` with `keys` and assembles the record, without filing it.
    fn create_transaction(&self, data: Vec<u8>, keys: &QuantumKeys) -> (r: Result<
        Transaction,
        LedgerError,
    >)
        requires
            self.wf(),
            self.quantum_keypair == Some(*keys),
        ensures
            r matches Ok(record) && is_random_uuid(record.id) && created_from(
                record@,
                self@.transactions,
                keys.secret_key@,
                data@,
                record.id,
            ),
    {
        let signature = match sign(keys.secret_key.as_slice(), data.as_slice()) {
            Ok(signature) => signature,
            Err(e) => {
                return Err(e);
            },
        };
        let previous_transaction = self.transactions.latest_id();
        let hardware_attestation = match issue_attestation(current_time()) {
            Ok(token) => token,
            Err(e) => {
                return Err(e);
            },
        };
        Ok(
            Transaction {
                id: fresh_id(),
                timestamp: current_time(),
                data,
                signature,
                previous_transaction,
                hardware_attestation: Some(hardware_attestation),
            },
        )
    }

    /// Checks the signature of `transaction` under the chain's public key,
    /// and then its attestation.
    ///
    /// A signature that the scheme does not accept is no failure: the result
    /// is `Ok(false)`. The call fails with a `CryptoError` where the chain has
    /// no keypair or the signature is longer than a signature can be, and
    /// with a `HardwareError` where the signature is accepted and the token
    /// names a device that is not recognized.
    pub fn verify_transaction(&self, transaction: &Transaction) -> (r: Result<bool, LedgerError>)
        ensures
            outcome(r) == self@.verification(transaction@),
            r matches Err(e) ==> {
                &&& self@.keys is None ==> e.message() == "No quantum keys available"@
                &&& e.kind() == ErrorKind::Hardware ==> e.message()
                    == "Invalid hardware attestation"@
            },
    {
        let keys = match &self.quantum_keypair {
            None => {
                return Err(
                    LedgerError::CryptoError(String::from_str("No quantum keys available")),
                );
            },
            Some(keys) => keys,
        };
        let accepted = match verify(
            keys.public_key.as_slice(),
            transaction.data.as_slice(),
            transaction.signature.as_slice(),
        ) {
            Ok(accepted) => accepted,
            Err(e) => {
                return Err(e);
            },
        };
        conclude_verification(accepted, &transaction.hardware_attestation)
    }

    /// The record filed under `id`, if there is one. Nothing changes.
    pub fn get_transaction(&self, id: &u128) -> (found: Option<&Transaction>)
        ensures
            match found {
                Some(record) => self@.lookup(*id) == Some(record@),
                None => self@.lookup(*id) is None,
            },
    {
        self.transactions.get(id)
    }

    /// Every record of the chain, in no particular order.
    pub fn get_all_transactions(&self) -> (listing: Vec<&Transaction>)
        requires
            self.wf(),
        ensures
            lists_all(self@.transactions, views_of(listing@)),
    {
        self.transactions.all()
    }

    /// The records created at `since` or later, in no particular order.
    pub fn get_transactions_since(&self, since: Timestamp) -> (listing: Vec<&Transaction>)
        requires
            self.wf(),
        ensures
            lists_since(self@.transactions, since, views_of(listing@)),
    {
        self.transactions.since(since)
    }
}

} // verus!
