use chrono::Utc;
use tenzro_ledger::chain::conclude_verification;
use tenzro_ledger::{Chain, ErrorKind, HardwareAttestation, LedgerError, Timestamp, Transaction};

fn instant(at: chrono::DateTime<Utc>) -> Timestamp {
    Timestamp::new(at.timestamp(), at.timestamp_subsec_nanos())
}

const UUID_MARKS: u128 = 0x0000_0000_0000_f000_c000_0000_0000_0000;
const RANDOM_UUID: u128 = 0x0000_0000_0000_4000_8000_0000_0000_0000;

#[test]
fn test_chain_creation() {
    let chain = Chain::new("Test Chain".to_string());
    assert_eq!(chain.name, "Test Chain");
    assert!(chain.has_keypair());
}

#[test]
fn test_transaction_operations() -> Result<(), LedgerError> {
    let mut chain = Chain::new("Test Chain".to_string());

    let tx_id = chain.add_transaction(b"test data".to_vec())?;

    let tx = chain.get_transaction(&tx_id).unwrap();
    assert_eq!(tx.data, b"test data".to_vec());

    assert!(chain.verify_transaction(tx)?);

    Ok(())
}

#[test]
fn test_transaction_sequence() -> Result<(), LedgerError> {
    let mut chain = Chain::new("Test Chain".to_string());

    let tx1_id = chain.add_transaction(b"first".to_vec())?;
    let tx2_id = chain.add_transaction(b"second".to_vec())?;

    let tx2 = chain.get_transaction(&tx2_id).unwrap();
    assert_eq!(tx2.previous_transaction, Some(tx1_id));

    Ok(())
}

#[test]
fn test_transaction_retrieval() -> Result<(), LedgerError> {
    let mut chain = Chain::new("Test Chain".to_string());

    let now = instant(Utc::now());
    let tx1_id = chain.add_transaction(b"old".to_vec())?;
    let tx2_id = chain.add_transaction(b"new".to_vec())?;

    let all_txs = chain.get_all_transactions();
    assert_eq!(all_txs.len(), 2);

    let recent_txs = chain.get_transactions_since(now);
    assert_eq!(recent_txs.len(), 2);

    let tx1 = chain.get_transaction(&tx1_id).unwrap();
    assert_eq!(tx1.data, b"old".to_vec());

    let tx2 = chain.get_transaction(&tx2_id).unwrap();
    assert_eq!(tx2.data, b"new".to_vec());

    Ok(())
}

#[test]
fn test_hardware_attestation() -> Result<(), LedgerError> {
    let mut chain = Chain::new("Test Chain".to_string());

    let tx_id = chain.add_transaction(b"test data".to_vec())?;
    let tx = chain.get_transaction(&tx_id).unwrap();

    assert!(tx.hardware_attestation.is_some());

    if let Some(attestation) = &tx.hardware_attestation {
        assert!(attestation.device_id.starts_with("SIMULATED-TPM-"));
        assert!(!attestation.attestation_data.is_empty());
    }

    Ok(())
}

#[test]
fn new_chain_is_empty_and_named() {
    let before = instant(Utc::now());
    let chain = Chain::new(String::new());
    let after = instant(Utc::now());
    assert_eq!(chain.name, "");
    assert!(chain.get_all_transactions().is_empty());
    assert_eq!(chain.id & UUID_MARKS, RANDOM_UUID);
    assert_eq!(uuid::Uuid::from_u128(chain.id).get_version_num(), 4);
    assert!(before <= chain.created_at && chain.created_at <= after);
}

#[test]
fn getters_show_the_fields() {
    let chain = Chain::new("shown".to_string());
    assert_eq!(chain.id(), chain.id);
    assert_eq!(chain.name(), &chain.name);
    assert_eq!(chain.name(), "shown");
    assert_eq!(chain.created_at(), chain.created_at);
    assert_eq!(tenzro_ledger::VERSION, "0.1.0");
}

#[test]
fn two_chains_differ_in_identifier_and_keys() -> Result<(), LedgerError> {
    let mut one = Chain::new("one".to_string());
    let other = Chain::new("other".to_string());
    assert_ne!(one.id, other.id);
    let id = one.add_transaction(b"payload".to_vec())?;
    let record = one.get_transaction(&id).unwrap();
    assert!(one.verify_transaction(record)?);
    assert!(!other.verify_transaction(record)?);
    Ok(())
}

#[test]
fn added_record_is_found_with_its_payload() -> Result<(), LedgerError> {
    let mut chain = Chain::new("ledger".to_string());
    for payload in [vec![], vec![0u8], vec![255u8; 4096], b"Hello, quantum world!".to_vec()] {
        let id = chain.add_transaction(payload.clone())?;
        let record = chain.get_transaction(&id).unwrap();
        assert_eq!(record.id, id);
        assert_eq!(record.data, payload);
        assert_eq!(id & UUID_MARKS, RANDOM_UUID);
    }
    Ok(())
}

#[test]
fn added_record_carries_a_full_signature_and_the_clock() -> Result<(), LedgerError> {
    let mut chain = Chain::new("ledger".to_string());
    let before = instant(Utc::now());
    let id = chain.add_transaction(b"timed".to_vec())?;
    let after = instant(Utc::now());
    let record = chain.get_transaction(&id).unwrap();
    assert_eq!(record.signature.len(), 2420);
    assert!(before <= record.timestamp && record.timestamp <= after);
    let token = record.hardware_attestation.as_ref().unwrap();
    assert!(before <= token.timestamp && token.timestamp <= record.timestamp);
    assert_eq!(token.device_id, "SIMULATED-TPM-01");
    assert_eq!(token.attestation_data, vec![0, 1, 2, 3]);
    Ok(())
}

#[test]
fn first_record_has_no_predecessor() -> Result<(), LedgerError> {
    let mut chain = Chain::new("ledger".to_string());
    let id = chain.add_transaction(b"first".to_vec())?;
    assert_eq!(chain.get_transaction(&id).unwrap().previous_transaction, None);
    Ok(())
}

#[test]
fn every_added_record_verifies_later_too() -> Result<(), LedgerError> {
    let mut chain = Chain::new("ledger".to_string());
    let mut ids = Vec::new();
    for n in 0u8..5 {
        ids.push(chain.add_transaction(vec![n; 3])?);
    }
    for id in &ids {
        let record = chain.get_transaction(id).unwrap();
        assert_eq!(chain.verify_transaction(record).unwrap(), true);
    }
    Ok(())
}

#[test]
fn flipped_payload_byte_does_not_verify() -> Result<(), LedgerError> {
    let mut chain = Chain::new("ledger".to_string());
    let id = chain.add_transaction(b"test data".to_vec())?;
    let record = chain.get_transaction(&id).unwrap();
    for position in 0..record.data.len() {
        let mut tampered = record.clone();
        tampered.data[position] ^= 0x01;
        assert_eq!(chain.verify_transaction(&tampered).unwrap(), false);
    }
    let mut longer = record.clone();
    longer.data.push(0);
    assert_eq!(chain.verify_transaction(&longer).unwrap(), false);
    Ok(())
}

#[test]
fn flipped_signature_byte_does_not_verify() -> Result<(), LedgerError> {
    let mut chain = Chain::new("ledger".to_string());
    let id = chain.add_transaction(b"test data".to_vec())?;
    let mut tampered = chain.get_transaction(&id).unwrap().clone();
    tampered.signature[100] ^= 0x80;
    assert_eq!(chain.verify_transaction(&tampered).unwrap(), false);
    Ok(())
}

#[test]
fn short_signature_is_a_mismatch_and_long_one_a_crypto_error() -> Result<(), LedgerError> {
    let mut chain = Chain::new("ledger".to_string());
    let id = chain.add_transaction(b"test data".to_vec())?;
    let record = chain.get_transaction(&id).unwrap();

    let mut short = record.clone();
    short.signature.pop();
    assert_eq!(chain.verify_transaction(&short).unwrap(), false);

    let mut empty = record.clone();
    empty.signature.clear();
    assert_eq!(chain.verify_transaction(&empty).unwrap(), false);

    let mut long = record.clone();
    long.signature.push(0);
    let failure = chain.verify_transaction(&long).unwrap_err();
    assert_eq!(failure.error_kind(), ErrorKind::Crypto);
    assert!(matches!(failure, LedgerError::CryptoError(_)));
    assert_eq!(
        failure.describe(),
        "Crypto error: error: DetachedSignature expected 2420 bytes, got 2421"
    );
    Ok(())
}

#[test]
fn unrecognized_device_is_a_hardware_error() -> Result<(), LedgerError> {
    let mut chain = Chain::new("ledger".to_string());
    let id = chain.add_transaction(b"test data".to_vec())?;
    let record = chain.get_transaction(&id).unwrap();
    assert_eq!(chain.verify_transaction(record).unwrap(), true);

    let mut tampered = record.clone();
    tampered.hardware_attestation.as_mut().unwrap().device_id = "REAL-TPM-01".to_string();
    let failure = chain.verify_transaction(&tampered).unwrap_err();
    assert_eq!(failure.error_kind(), ErrorKind::Hardware);
    assert!(matches!(&failure, LedgerError::HardwareError(m) if m == "Invalid hardware attestation"));
    assert_eq!(failure.describe(), "Hardware error: Invalid hardware attestation");

    // The signature itself is still the right one: without the token the
    // tampered record verifies.
    tampered.hardware_attestation = None;
    assert_eq!(chain.verify_transaction(&tampered).unwrap(), true);
    Ok(())
}

#[test]
fn bad_signature_wins_over_bad_device() -> Result<(), LedgerError> {
    let mut chain = Chain::new("ledger".to_string());
    let id = chain.add_transaction(b"test data".to_vec())?;
    let mut tampered = chain.get_transaction(&id).unwrap().clone();
    tampered.hardware_attestation.as_mut().unwrap().device_id = "unknown".to_string();
    tampered.data[0] ^= 0xff;
    assert_eq!(chain.verify_transaction(&tampered).unwrap(), false);
    Ok(())
}

#[test]
fn other_simulated_devices_are_accepted() -> Result<(), LedgerError> {
    let mut chain = Chain::new("ledger".to_string());
    let id = chain.add_transaction(b"test data".to_vec())?;
    let mut renamed = chain.get_transaction(&id).unwrap().clone();
    renamed.hardware_attestation.as_mut().unwrap().device_id = "SIMULATED-TPM-".to_string();
    assert_eq!(chain.verify_transaction(&renamed).unwrap(), true);
    renamed.hardware_attestation.as_mut().unwrap().device_id = "SIMULATED-TPM-99x".to_string();
    assert_eq!(chain.verify_transaction(&renamed).unwrap(), true);
    Ok(())
}

#[test]
fn link_is_not_covered_by_the_signature() -> Result<(), LedgerError> {
    let mut chain = Chain::new("ledger".to_string());
    let id = chain.add_transaction(b"test data".to_vec())?;
    let mut relinked = chain.get_transaction(&id).unwrap().clone();
    relinked.previous_transaction = Some(42);
    relinked.id = 7;
    assert_eq!(chain.verify_transaction(&relinked).unwrap(), true);
    Ok(())
}

#[test]
fn n_additions_give_n_records_with_unique_identifiers() -> Result<(), LedgerError> {
    let mut chain = Chain::new("ledger".to_string());
    let mut ids = Vec::new();
    for n in 0u8..17 {
        ids.push(chain.add_transaction(vec![n])?);
        let listing = chain.get_all_transactions();
        assert_eq!(listing.len(), ids.len());
    }
    let listing = chain.get_all_transactions();
    let mut listed: Vec<u128> = listing.iter().map(|record| record.id).collect();
    listed.sort();
    listed.dedup();
    assert_eq!(listed.len(), 17);
    ids.sort();
    assert_eq!(listed, ids);
    Ok(())
}

#[test]
fn records_since_is_the_subset_at_or_after_the_cutoff() -> Result<(), LedgerError> {
    let mut chain = Chain::new("ledger".to_string());
    let mut ids = Vec::new();
    for n in 0u8..6 {
        ids.push(chain.add_transaction(vec![n])?);
    }
    let third = chain.get_transaction(&ids[2]).unwrap().timestamp;
    let selected = chain.get_transactions_since(third);
    let mut expected: Vec<u128> = chain
        .get_all_transactions()
        .iter()
        .filter(|record| record.timestamp >= third)
        .map(|record| record.id)
        .collect();
    let mut got: Vec<u128> = selected.iter().map(|record| record.id).collect();
    expected.sort();
    got.sort();
    assert_eq!(got, expected);
    assert!(got.contains(&ids[2]));
    assert!(selected.iter().all(|record| record.timestamp >= third));

    let everything = chain.get_transactions_since(Timestamp::new(0, 0));
    assert_eq!(everything.len(), 6);
    Ok(())
}

#[test]
fn cutoff_after_every_record_selects_nothing() -> Result<(), LedgerError> {
    let mut chain = Chain::new("ledger".to_string());
    chain.add_transaction(b"a".to_vec())?;
    chain.add_transaction(b"b".to_vec())?;
    let later = instant(Utc::now() + chrono::Duration::seconds(3600));
    assert!(chain.get_transactions_since(later).is_empty());
    assert!(chain.get_transactions_since(Timestamp::new(i64::MAX, u32::MAX)).is_empty());
    Ok(())
}

#[test]
fn lookups_are_repeatable_and_change_nothing() -> Result<(), LedgerError> {
    let mut chain = Chain::new("ledger".to_string());
    let id = chain.add_transaction(b"same".to_vec())?;
    let first: Transaction = chain.get_transaction(&id).unwrap().clone();
    let second: Transaction = chain.get_transaction(&id).unwrap().clone();
    let third: Transaction = chain.get_transaction(&id).unwrap().clone();
    assert_eq!(first, second);
    assert_eq!(second, third);
    assert_eq!(chain.get_all_transactions().len(), 1);
    Ok(())
}

#[test]
fn unknown_identifier_is_not_found() -> Result<(), LedgerError> {
    let mut chain = Chain::new("ledger".to_string());
    assert!(chain.get_transaction(&0).is_none());
    let id = chain.add_transaction(b"x".to_vec())?;
    assert!(chain.get_transaction(&(id ^ 1)).is_none());
    assert!(chain.get_transaction(&id).is_some());
    Ok(())
}

#[test]
fn link_follows_the_latest_timestamp() -> Result<(), LedgerError> {
    let mut chain = Chain::new("ledger".to_string());
    let mut previous: Option<u128> = None;
    for n in 0u8..8 {
        let id = chain.add_transaction(vec![n])?;
        let record = chain.get_transaction(&id).unwrap();
        match (previous, record.previous_transaction) {
            (None, link) => assert_eq!(link, None),
            (Some(_), None) => panic!("a later record must link to an earlier one"),
            (Some(_), Some(link)) => {
                let linked = chain.get_transaction(&link).unwrap();
                let latest_before = chain
                    .get_all_transactions()
                    .iter()
                    .filter(|other| other.id != id)
                    .map(|other| other.timestamp)
                    .max()
                    .unwrap();
                assert_eq!(linked.timestamp, latest_before);
            }
        }
        previous = Some(id);
    }
    Ok(())
}

#[test]
fn conclusion_of_a_verification() {
    let good = HardwareAttestation {
        timestamp: Timestamp::new(1, 2),
        device_id: "SIMULATED-TPM-07".to_string(),
        attestation_data: vec![9],
    };
    let bad = HardwareAttestation { device_id: "simulated-tpm-07".to_string(), ..good.clone() };

    assert_eq!(conclude_verification(false, &None).unwrap(), false);
    assert_eq!(conclude_verification(false, &Some(good.clone())).unwrap(), false);
    assert_eq!(conclude_verification(false, &Some(bad.clone())).unwrap(), false);
    assert_eq!(conclude_verification(true, &None).unwrap(), true);
    assert_eq!(conclude_verification(true, &Some(good)).unwrap(), true);
    let failure = conclude_verification(true, &Some(bad)).unwrap_err();
    assert_eq!(failure.describe(), "Hardware error: Invalid hardware attestation");
}

#[test]
fn a_clone_of_a_chain_keeps_records_and_keys() -> Result<(), LedgerError> {
    let mut chain = Chain::new("ledger".to_string());
    let id = chain.add_transaction(b"kept".to_vec())?;
    let copy = chain.clone();
    let record = copy.get_transaction(&id).unwrap();
    assert_eq!(record.data, b"kept".to_vec());
    assert_eq!(copy.verify_transaction(record).unwrap(), true);
    assert_eq!(copy.id, chain.id);
    assert_eq!(copy.created_at, chain.created_at);
    Ok(())
}
