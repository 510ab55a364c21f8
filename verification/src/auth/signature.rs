//! Ed25519 signatures, checked by `ed25519_dalek`.

use vstd::prelude::*;

verus! {

/// Length of a public key in bytes.
pub const PUBLIC_KEY_LENGTH: usize = 32;

/// Length of a signature in bytes.
pub const SIGNATURE_LENGTH: usize = 64;

/// `ed25519_dalek::VerifyingKey`, an Ed25519 public key that was checked to
/// be a curve point. It is carried from [`verifying_key`] to [`verify`] as it
/// is.
#[verifier::external_type_specification]
#[verifier::external_body]
pub struct ExVerifyingKey(ed25519_dalek::VerifyingKey);

/// The 32 bytes that a verifying key was made from.
pub uninterp spec fn key_bytes(key: ed25519_dalek::VerifyingKey) -> Seq<u8>;

/// Whether 32 bytes are the encoding of a point that `ed25519_dalek` accepts
/// as a verifying key.
pub uninterp spec fn is_verifying_key(bytes: Seq<u8>) -> bool;

/// Whether `ed25519_dalek` accepts `signature` as a signature of `message`
/// under the verifying key with the bytes `key`.
pub uninterp spec fn ed25519_accepts(key: Seq<u8>, message: Seq<u8>, signature: Seq<u8>) -> bool;

/// Whether a signature is good: the key bytes are a verifying key, and the
/// signature is accepted for the message under it.
pub open spec fn signature_accepted(key: Seq<u8>, message: Seq<u8>, signature: Seq<u8>) -> bool {
    is_verifying_key(key) && ed25519_accepts(key, message, signature)
}

/// Makes a verifying key with `ed25519_dalek::VerifyingKey::from_bytes`, which
/// fails when the bytes do not decompress to a curve point. The key keeps
/// the bytes it was made from.
#[verifier::external_body]
pub(crate) fn verifying_key(bytes: &[u8; 32]) -> (key: Option<ed25519_dalek::VerifyingKey>)
    ensures
        key is Some <==> is_verifying_key(bytes@),
        key matches Some(k) ==> key_bytes(k) == bytes@,
{
    match ed25519_dalek::VerifyingKey::from_bytes(bytes) {
        Ok(key) => Some(key),
        Err(_) => None,
    }
}

/// Checks a signature with `ed25519_dalek::Verifier::verify` on the key. The
/// 64 bytes are handed over as an `ed25519_dalek::Signature`. The answer is
/// a function of the key, the message and the signature alone.
#[verifier::external_body]
pub(crate) fn verify(
    key: &ed25519_dalek::VerifyingKey,
    message: &[u8],
    signature: &[u8; 64],
) -> (accepted: bool)
    ensures
        accepted == ed25519_accepts(key_bytes(*key), message@, signature@),
{
    let signature = ed25519_dalek::Signature::from_bytes(signature);
    ed25519_dalek::Verifier::verify(key, message, &signature).is_ok()
}

/// Copies 32 bytes into an array.
fn key_array(bytes: &Vec<u8>) -> (array: [u8; 32])
    requires
        bytes@.len() == 32,
    ensures
        array@ == bytes@,
{
    let mut array = [0u8;32];
    let mut i: usize = 0;
    while i < 32
        invariant
            i <= 32,
            bytes@.len() == 32,
            forall|j: int| 0 <= j < i ==> array@[j] == bytes@[j],
        decreases 32 - i,
    {
        array[i] = bytes[i];
        i += 1;
    }
    assert(array@ =~= bytes@);
    array
}

/// Copies 64 bytes into an array.
fn signature_array(bytes: &Vec<u8>) -> (array: [u8; 64])
    requires
        bytes@.len() == 64,
    ensures
        array@ == bytes@,
{
    let mut array = [0u8;64];
    let mut i: usize = 0;
    while i < 64
        invariant
            i <= 64,
            bytes@.len() == 64,
            forall|j: int| 0 <= j < i ==> array@[j] == bytes@[j],
        decreases 64 - i,
    {
        array[i] = bytes[i];
        i += 1;
    }
    assert(array@ =~= bytes@);
    array
}

/// Whether `signature` has the length of a signature, `key` that of a key,
/// and the signature is good for the message under the key.
pub open spec fn well_signed(key: Seq<u8>, message: Seq<u8>, signature: Seq<u8>) -> bool {
    &&& key.len() == PUBLIC_KEY_LENGTH
    &&& signature.len() == SIGNATURE_LENGTH
    &&& signature_accepted(key, message, signature)
}

/// Why a signature does not verify.
#[derive(Debug, Clone, Copy, PartialEq, Eq, Structural)]
pub enum SignatureFault {
    /// The public key is not hexadecimal text.
    KeyNotHex,
    /// The public key is not 32 bytes long.
    KeyLength,
    /// The bytes of the public key are no curve point.
    KeyInvalid,
    /// The signature is not one of the message under the key.
    Rejected,
}

/// What is wrong with a signature given in bytes, if anything: the key is
/// looked at first, then the signature.
pub open spec fn bytes_fault(key: Seq<u8>, message: Seq<u8>, signature: Seq<u8>) -> Option<
    SignatureFault,
> {
    if key.len() != PUBLIC_KEY_LENGTH {
        Some(SignatureFault::KeyLength)
    } else if !is_verifying_key(key) {
        Some(SignatureFault::KeyInvalid)
    } else if signature.len() != SIGNATURE_LENGTH || !ed25519_accepts(key, message, signature) {
        Some(SignatureFault::Rejected)
    } else {
        None
    }
}

/// A signature is well signed exactly when nothing is wrong with it.
pub proof fn well_signed_means_no_fault(key: Seq<u8>, message: Seq<u8>, signature: Seq<u8>)
    ensures
        well_signed(key, message, signature) <==> bytes_fault(key, message, signature) is None,
{
}

/// Finds what is wrong with a signature of `message` under the public key
/// `key`, if anything; see [`bytes_fault`].
pub fn examine_signature(key: &Vec<u8>, message: &[u8], signature: &Vec<u8>) -> (fault: Option<
    SignatureFault,
>)
    ensures
        fault == bytes_fault(key@, message@, signature@),
{
    if key.len() != PUBLIC_KEY_LENGTH {
        return Some(SignatureFault::KeyLength);
    }
    let key_array = key_array(key);
    let verifying_key = match verifying_key(&key_array) {
        Some(verifying_key) => verifying_key,
        None => {
            return Some(SignatureFault::KeyInvalid);
        },
    };
    if signature.len() != SIGNATURE_LENGTH {
        return Some(SignatureFault::Rejected);
    }
    let signature_array = signature_array(signature);
    if verify(&verifying_key, message, &signature_array) {
        None
    } else {
        Some(SignatureFault::Rejected)
    }
}

/// Tells whether `signature` is a good signature of `message` under the
/// public key `key`. A key or a signature of the wrong length, and a key that
/// is no curve point, accept nothing.
pub fn check_signature(key: &Vec<u8>, message: &[u8], signature: &Vec<u8>) -> (good: bool)
    ensures
        good == well_signed(key@, message@, signature@),
{
    examine_signature(key, message, signature).is_none()
}

} // verus!
