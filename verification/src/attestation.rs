//! Attestation tokens of a simulated device.
//!
//! The device here stands in for secure hardware: it issues the same evidence
//! every time, and a token is accepted by the name of its device alone. No
//! security rests on either.

use crate::error::{ErrorKind, LedgerError};
use crate::text::{has_prefix, starts_with};
use crate::types::{AttestationView, HardwareAttestation, Timestamp};
use vstd::prelude::*;
use vstd::string::*;

verus! {

/// How the name of every simulated device begins.
pub open spec fn device_prefix() -> Seq<char> {
    "SIMULATED-TPM-"@
}

/// The name of the device that issues tokens here.
pub open spec fn issuing_device() -> Seq<char> {
    "SIMULATED-TPM-01"@
}

/// The evidence that the simulated device hands out.
pub open spec fn placeholder_evidence() -> Seq<u8> {
    seq![0u8, 1u8, 2u8, 3u8]
}

/// `device_id` names a simulated device.
pub open spec fn recognized_device(device_id: Seq<char>) -> bool {
    has_prefix(device_id, device_prefix())
}

/// The token that the simulated device issues at `issued_at`.
pub open spec fn issued_token(issued_at: Timestamp) -> AttestationView {
    AttestationView {
        timestamp: issued_at,
        device_id: issuing_device(),
        attestation_data: placeholder_evidence(),
    }
}

/// The issuing device is one of the recognized ones.
pub proof fn lemma_issuing_device_is_recognized()
    ensures
        recognized_device(issuing_device()),
{
    reveal_strlit("SIMULATED-TPM-");
    reveal_strlit("SIMULATED-TPM-01");
    assert(issuing_device().subrange(0, 14) =~= device_prefix());
}

/// Issues a token for an event at `issued_at`. The simulated device never
/// refuses.
pub fn issue_attestation(issued_at: Timestamp) -> (r: Result<HardwareAttestation, LedgerError>)
    ensures
        r matches Ok(token) && token@ == issued_token(issued_at),
{
    let mut evidence: Vec<u8> = Vec::new();
    evidence.push(0);
    evidence.push(1);
    evidence.push(2);
    evidence.push(3);
    assert(evidence@ =~= placeholder_evidence());
    Ok(
        HardwareAttestation {
            timestamp: issued_at,
            device_id: String::from_str("SIMULATED-TPM-01"),
            attestation_data: evidence,
        },
    )
}

/// Accepts `token` exactly when its device is a recognized one; refuses it
/// with a `HardwareError` otherwise.
pub fn check_attestation(token: &HardwareAttestation) -> (r: Result<(), LedgerError>)
    ensures
        r is Ok <==> recognized_device(token@.device_id),
        r matches Err(e) ==> e.kind() == ErrorKind::Hardware && e.message()
            == "Invalid hardware attestation"@,
{
    if starts_with(token.device_id.as_str(), "SIMULATED-TPM-") {
        Ok(())
    } else {
        Err(LedgerError::HardwareError(String::from_str("Invalid hardware attestation")))
    }
}

} // verus!
