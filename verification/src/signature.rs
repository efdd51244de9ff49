//! Detached Dilithium2 signatures over byte strings.
//!
//! Keys and signatures are plain byte strings here. The scheme itself is the
//! work of the `pqcrypto-dilithium` crate; what this module takes on trust
//! about it is said above each of the three functions that call it.

use crate::error::{ErrorKind, LedgerError};
use pqcrypto_dilithium::dilithium2;
use pqcrypto_traits::sign::{DetachedSignature, PublicKey, SecretKey};
use vstd::prelude::*;

verus! {

/// The length of a public key, in bytes.
pub const PUBLIC_KEY_BYTES: usize = 1312;

/// The length of a secret key, in bytes.
pub const SECRET_KEY_BYTES: usize = 2560;

/// The length of a signature, in bytes.
pub const SIGNATURE_BYTES: usize = 2420;

/// The signature that `dilithium2::detached_sign` computes over `message`
/// with the secret key `secret_key`. Signing draws no randomness, so the
/// signature is a function of the two byte strings.
pub uninterp spec fn dilithium2_signature(message: Seq<u8>, secret_key: Seq<u8>) -> Seq<u8>;

/// Whether `dilithium2::verify_detached_signature` accepts `signature` for
/// `message` under the public key `public_key`.
pub uninterp spec fn dilithium2_accepts(
    signature: Seq<u8>,
    message: Seq<u8>,
    public_key: Seq<u8>,
) -> bool;

/// `public_key` and `secret_key` have the lengths of the scheme, and whatever
/// is signed with `secret_key` is accepted under `public_key`.
pub open spec fn matching_keys(public_key: Seq<u8>, secret_key: Seq<u8>) -> bool {
    &&& public_key.len() == PUBLIC_KEY_BYTES
    &&& secret_key.len() == SECRET_KEY_BYTES
    &&& forall|message: Seq<u8>|
        dilithium2_accepts(
            #[trigger] dilithium2_signature(message, secret_key),
            message,
            public_key,
        )
}

/// The scheme can read `public_key` as a public key and `signature` as a
/// signature: the key has the length of a public key, and the signature is no
/// longer than a signature can be.
pub open spec fn readable(public_key: Seq<u8>, signature: Seq<u8>) -> bool {
    public_key.len() == PUBLIC_KEY_BYTES && signature.len() <= SIGNATURE_BYTES
}

/// The error with which `pqcrypto-traits` refuses the bytes of a key or of a
/// signature. Nothing is known of a value of it; its text goes into the
/// message of the ledger's own error.
#[verifier::external_type_specification]
#[verifier::external_body]
pub struct ExBadBytes(pqcrypto_traits::Error);

/// Calls `dilithium2::keypair` and hands out the public and the secret key as
/// bytes.
///
/// Trusted: the two keys have the scheme's lengths, and they belong together,
/// which is the scheme's correctness: a signature made with the secret key is
/// accepted under the public key, for every message. The crate shows this in
/// its module example and asserts it in its own tests; nothing here proves it.
///
/// `dilithium2::keypair` panics where the implementation below it reports a
/// failure; no chain exists without its keypair.
#[verifier::external_body]
pub(crate) fn generate_keypair() -> (keys: (Vec<u8>, Vec<u8>))
    ensures
        matching_keys(keys.0@, keys.1@),
{
    let (public_key, secret_key) = dilithium2::keypair();
    (public_key.as_bytes().to_vec(), secret_key.as_bytes().to_vec())
}

/// Reads `secret_key` with `dilithium2::SecretKey::from_bytes` and signs
/// `message` with `dilithium2::detached_sign`.
///
/// Trusted: the key is refused exactly when its length is not
/// `SECRET_KEY_BYTES`; otherwise the result is the scheme's signature, which
/// is `SIGNATURE_BYTES` long.
#[verifier::external_body]
fn detached_sign(message: &[u8], secret_key: &[u8]) -> (r: Result<
    Vec<u8>,
    pqcrypto_traits::Error,
>)
    ensures
        r is Ok <==> secret_key@.len() == SECRET_KEY_BYTES,
        r matches Ok(signature) ==> signature@ == dilithium2_signature(message@, secret_key@)
            && signature@.len() == SIGNATURE_BYTES,
{
    let key = dilithium2::SecretKey::from_bytes(secret_key)?;
    Ok(dilithium2::detached_sign(message, &key).as_bytes().to_vec())
}

/// Reads `public_key` with `dilithium2::PublicKey::from_bytes`, then
/// `signature` with `dilithium2::DetachedSignature::from_bytes`, and checks
/// the signature with `dilithium2::verify_detached_signature`.
///
/// Trusted: the bytes are refused exactly when the key's length is not
/// `PUBLIC_KEY_BYTES` or the signature is longer than `SIGNATURE_BYTES`;
/// otherwise the result says whether the scheme accepts the signature.
#[verifier::external_body]
fn verify_detached(signature: &[u8], message: &[u8], public_key: &[u8]) -> (r: Result<
    bool,
    pqcrypto_traits::Error,
>)
    ensures
        r is Ok <==> readable(public_key@, signature@),
        r matches Ok(accepted) ==> accepted == dilithium2_accepts(
            signature@,
            message@,
            public_key@,
        ),
{
    let key = dilithium2::PublicKey::from_bytes(public_key)?;
    let signature = dilithium2::DetachedSignature::from_bytes(signature)?;
    Ok(dilithium2::verify_detached_signature(&signature, message, &key).is_ok())
}

/// Signs `message` with `secret_key`.
///
/// Fails, with a `CryptoError`, exactly when the key does not have the length
/// of a secret key.
pub fn sign(secret_key: &[u8], message: &[u8]) -> (r: Result<Vec<u8>, LedgerError>)
    ensures
        r is Ok <==> secret_key@.len() == SECRET_KEY_BYTES,
        r matches Ok(signature) ==> signature@ == dilithium2_signature(message@, secret_key@)
            && signature@.len() == SIGNATURE_BYTES,
        r matches Err(e) ==> e.kind() == ErrorKind::Crypto,
{
    match detached_sign(message, secret_key) {
        Ok(signature) => Ok(signature),
        Err(refusal) => Err(LedgerError::CryptoError(refusal.to_string())),
    }
}

/// Checks `signature` for `message` under `public_key`.
///
/// Fails, with a `CryptoError`, exactly when the key does not have the length
/// of a public key or the signature is longer than a signature can be. A
/// signature that does not fit the message is no failure: the result is
/// `Ok(false)`.
pub fn verify(public_key: &[u8], message: &[u8], signature: &[u8]) -> (r: Result<
    bool,
    LedgerError,
>)
    ensures
        r is Ok <==> readable(public_key@, signature@),
        r matches Ok(accepted) ==> accepted == dilithium2_accepts(
            signature@,
            message@,
            public_key@,
        ),
        r matches Err(e) ==> e.kind() == ErrorKind::Crypto,
{
    match verify_detached(signature, message, public_key) {
        Ok(accepted) => Ok(accepted),
        Err(refusal) => Err(LedgerError::CryptoError(refusal.to_string())),
    }
}

} // verus!
