use tenzro_ledger::attestation::{check_attestation, issue_attestation};
use tenzro_ledger::text::{chars_of, starts_with};
use tenzro_ledger::{ErrorKind, HardwareAttestation, LedgerError, Timestamp};

fn token(device_id: &str) -> HardwareAttestation {
    HardwareAttestation {
        timestamp: Timestamp::new(0, 0),
        device_id: device_id.to_string(),
        attestation_data: Vec::new(),
    }
}

#[test]
fn issued_token_is_that_of_the_simulated_device() {
    let at = Timestamp::new(1_700_000_000, 123_456_789);
    let issued = issue_attestation(at).unwrap();
    assert_eq!(
        issued,
        HardwareAttestation {
            timestamp: at,
            device_id: "SIMULATED-TPM-01".to_string(),
            attestation_data: vec![0, 1, 2, 3],
        }
    );
}

#[test]
fn issued_token_passes_the_check() {
    let issued = issue_attestation(Timestamp::new(-5, 0)).unwrap();
    assert!(check_attestation(&issued).is_ok());
}

#[test]
fn check_goes_by_the_device_prefix() {
    for accepted in ["SIMULATED-TPM-", "SIMULATED-TPM-01", "SIMULATED-TPM-é", "SIMULATED-TPM--"] {
        assert!(check_attestation(&token(accepted)).is_ok(), "{accepted}");
    }
    for refused in [
        "",
        "SIMULATED-TPM",
        "SIMULATED-TP-01",
        "simulated-tpm-01",
        " SIMULATED-TPM-01",
        "TPM-01",
        "SIMULATED_TPM-01",
        "ŚIMULATED-TPM-01",
    ] {
        let failure = check_attestation(&token(refused)).unwrap_err();
        assert_eq!(failure.error_kind(), ErrorKind::Hardware, "{refused}");
        assert!(
            matches!(&failure, LedgerError::HardwareError(m) if m == "Invalid hardware attestation")
        );
        assert_eq!(accepted_by_std(refused), false);
    }
}

fn accepted_by_std(device_id: &str) -> bool {
    device_id.starts_with("SIMULATED-TPM-")
}

#[test]
fn check_ignores_time_and_evidence() {
    let mut any = token("SIMULATED-TPM-42");
    any.timestamp = Timestamp::new(i64::MAX, u32::MAX);
    any.attestation_data = vec![7; 100];
    assert!(check_attestation(&any).is_ok());
}

#[test]
fn starts_with_agrees_with_std() {
    let texts = ["", "a", "ab", "abc", "b", "héllo", "hé", "h", "日本語", "日本"];
    for text in texts {
        for prefix in texts {
            assert_eq!(starts_with(text, prefix), text.starts_with(prefix), "{text:?} {prefix:?}");
        }
    }
    assert!(starts_with("abc", ""));
    assert!(starts_with("abc", "abc"));
    assert!(!starts_with("abc", "abcd"));
    assert!(!starts_with("abc", "bc"));
}

#[test]
fn chars_of_gives_the_characters_in_order() {
    assert_eq!(chars_of(""), Vec::<char>::new());
    assert_eq!(chars_of("a-b"), vec!['a', '-', 'b']);
    assert_eq!(chars_of("hé日"), vec!['h', 'é', '日']);
}
