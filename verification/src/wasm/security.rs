//! Ed25519 signature verification of plugin binaries.

use crate::wasm::error::WasmError;
use ed25519_dalek::Verifier;
use vstd::prelude::*;

verus! {

#[verifier::external_type_specification]
#[verifier::external_body]
pub struct ExVerifyingKey(ed25519_dalek::VerifyingKey);

/// What `ed25519_dalek::VerifyingKey::from_bytes` reports for these 32 bytes:
/// `None` when they decode to a public key, else the text of its error.
pub uninterp spec fn ed25519_key_error(key: Seq<u8>) -> Option<Seq<char>>;

/// What `ed25519_dalek::Verifier::verify` reports for the signature `signature`
/// over `message` under the public key with bytes `key`: `None` when it
/// verifies, else the text of its error.
pub uninterp spec fn ed25519_verify_error(key: Seq<u8>, message: Seq<u8>, signature: Seq<u8>) -> Option<
    Seq<char>,
>;

/// Why a plugin signature check fails, as the message of its
/// `SignatureVerification` error: the key does not decode, or the signature
/// does not verify under it. `None` when the check passes.
pub open spec fn signature_failure(key: Seq<u8>, message: Seq<u8>, signature: Seq<u8>) -> Option<
    Seq<char>,
> {
    match ed25519_key_error(key) {
        Some(e) => Some("Invalid public key bytes: "@ + e),
        None => match ed25519_verify_error(key, message, signature) {
            Some(e) => Some("Ed25519 signature verification failed: "@ + e),
            None => None,
        },
    }
}

/// A decoded Ed25519 public key together with the bytes it was decoded from.
pub struct DecodedPublicKey {
    bytes: [u8; 32],
    key: ed25519_dalek::VerifyingKey,
}

impl DecodedPublicKey {
    /// The bytes the key was decoded from.
    pub closed spec fn key_bytes(&self) -> Seq<u8> {
        self.bytes@
    }
}

/// Decodes a public key with `ed25519_dalek::VerifyingKey::from_bytes`.
///
/// The contract ties the outcome to `ed25519_key_error` of the bytes (the error
/// by its displayed message), and claims that the decoded key remembers those
/// bytes.
#[verifier::external_body]
fn decode_public_key(bytes: &[u8; 32]) -> (r: Result<DecodedPublicKey, String>)
    ensures
        match ed25519_key_error(bytes@) {
            None => r matches Ok(k) && k.key_bytes() == bytes@,
            Some(msg) => r matches Err(e) && e@ == msg,
        },
{
    match ed25519_dalek::VerifyingKey::from_bytes(bytes) {
        Ok(key) => Ok(DecodedPublicKey { bytes: *bytes, key }),
        Err(e) => Err(e.to_string()),
    }
}

/// Verifies a signature with `ed25519_dalek::Verifier::verify` on the decoded key.
///
/// The contract ties the outcome to `ed25519_verify_error` of the key's bytes,
/// the message and the signature bytes (which `Signature::from_bytes` takes as
/// they are), the error by its displayed message.
#[verifier::external_body]
fn verify_ed25519(key: &DecodedPublicKey, message: &[u8], signature: &[u8; 64]) -> (r: Result<
    (),
    String,
>)
    ensures
        match ed25519_verify_error(key.key_bytes(), message@, signature@) {
            None => r is Ok,
            Some(msg) => r matches Err(e) && e@ == msg,
        },
{
    match key.key.verify(message, &ed25519_dalek::Signature::from_bytes(signature)) {
        Ok(()) => Ok(()),
        Err(e) => Err(e.to_string()),
    }
}

/// Verifies that `wasm_bytes` carry a valid Ed25519 signature under a trusted
/// public key. A key that does not decode and a signature that does not verify
/// are both `SignatureVerification` errors, with the messages of
/// `signature_failure`.
pub fn verify_plugin_signature(
    wasm_bytes: &[u8],
    signature_bytes: &[u8; 64],
    public_key_bytes: &[u8; 32],
) -> (r: Result<(), WasmError>)
    ensures
        match signature_failure(public_key_bytes@, wasm_bytes@, signature_bytes@) {
            Some(msg) => r matches Err(WasmError::SignatureVerification(m)) && m@ == msg,
            None => r is Ok,
        },
{
    let key = match decode_public_key(public_key_bytes) {
        Ok(k) => k,
        Err(e) => {
            let mut m = String::from_str("Invalid public key bytes: ");
            m.append(e.as_str());
            return Err(WasmError::SignatureVerification(m));
        },
    };
    match verify_ed25519(&key, wasm_bytes, signature_bytes) {
        Ok(()) => Ok(()),
        Err(e) => {
            let mut m = String::from_str("Ed25519 signature verification failed: ");
            m.append(e.as_str());
            Err(WasmError::SignatureVerification(m))
        },
    }
}

} // verus!
