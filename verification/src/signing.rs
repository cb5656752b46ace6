//! ECDSA over secp256k1, as the `k256` crate computes it.
//!
//! Keys and signatures cross this module as plain bytes: a public key in its
//! uncompressed SEC1 form, a signature as `r` then `s`, each a 32-byte
//! big-endian integer. Nothing here is proved. The functions below call `k256`,
//! and their contracts say what its source and documentation give; the curve
//! arithmetic stays behind four names without a definition.

use k256::ecdsa::signature::{Signer, Verifier};
use k256::ecdsa::{Signature, SigningKey, VerifyingKey};
use rand_core::OsRng;
use vstd::prelude::*;

verus! {

/// The error type of `k256`'s ECDSA functions. It says that something failed
/// and nothing more.
#[verifier::external_type_specification]
#[verifier::external_body]
pub struct ExSignatureError(k256::ecdsa::Error);

/// Bytes in an uncompressed SEC1 public key: a tag and two coordinates.
pub const PUBKEY_LEN: usize = 65;

/// Bytes in a fixed-size signature: `r` then `s`.
pub const SIG_LEN: usize = 64;

/// First byte of an uncompressed SEC1 public key.
pub const UNCOMPRESSED_TAG: u8 = 4;

/// Whether `VerifyingKey::from_sec1_bytes` accepts `key`: the bytes are the
/// SEC1 encoding of a point of the curve other than the identity.
pub uninterp spec fn sec1_point_decodes(key: Seq<u8>) -> bool;

/// Whether `Verifier::verify` accepts `signature` for `message` under the key
/// that `key` decodes to. Only meant where both key and signature decode.
pub uninterp spec fn ecdsa_verifies(key: Seq<u8>, message: Seq<u8>, signature: Seq<u8>) -> bool;

/// The uncompressed SEC1 encoding of the verifying key that belongs to the
/// signing key `SigningKey::from_slice` reads from `secret`. Only meant where
/// `secret` is a signing key.
pub uninterp spec fn sec1_public_key(secret: Seq<u8>) -> Seq<u8>;

/// The signature that `Signer::try_sign` gives for `message` under the signing
/// key read from `secret`, or `None` where it gives an error. The nonce is
/// derived from key and message, so the same two always give the same
/// signature. Only meant where `secret` is a signing key.
pub uninterp spec fn ecdsa_signature(secret: Seq<u8>, message: Seq<u8>) -> Option<Seq<u8>>;

/// The number that a big-endian byte string spells.
pub open spec fn be_value(bytes: Seq<u8>) -> nat
    decreases bytes.len(),
{
    if bytes.len() == 0 {
        0
    } else {
        be_value(bytes.drop_last()) * 256 + bytes.last() as nat
    }
}

/// Order of the secp256k1 group.
pub open spec fn group_order() -> nat {
    0xFFFFFFFFFFFFFFFFFFFFFFFFFFFFFFFEBAAEDCE6AF48A03BBFD25E8CD0364141nat
}

/// A signature component is a 32-byte big-endian integer from 1 to the group
/// order less one.
pub open spec fn scalar_in_range(bytes: Seq<u8>) -> bool {
    bytes.len() == 32 && 0 < be_value(bytes) < group_order()
}

/// A secret is a signing key when it has 24 to 32 bytes and spells, big
/// endian, a number from 1 to the group order less one.
pub open spec fn secret_in_range(secret: Seq<u8>) -> bool {
    24 <= secret.len() <= 32 && 0 < be_value(secret) < group_order()
}

/// A fixed-size signature is well formed when it has 64 bytes and both halves,
/// `r` and `s`, are in range.
pub open spec fn signature_in_range(signature: Seq<u8>) -> bool {
    &&& signature.len() == SIG_LEN
    &&& scalar_in_range(signature.subrange(0, 32))
    &&& scalar_in_range(signature.subrange(32, 64))
}

/// Calls `SigningKey::random` on the operating system's generator and returns
/// the secret scalar's bytes. Claimed of every outcome: 32 bytes that are a
/// signing key. The call stops the process if the operating system cannot
/// supply randomness.
#[verifier::external_body]
pub(crate) fn random_secret() -> (secret: Vec<u8>)
    ensures
        secret@.len() == 32,
        secret_in_range(secret@),
{
    SigningKey::random(&mut OsRng).to_bytes().to_vec()
}

/// Reads a signing key with `SigningKey::from_slice` and encodes its verifying
/// key with `VerifyingKey::to_encoded_point`, uncompressed. Claimed: it
/// succeeds exactly when `secret` is a signing key; the encoding depends on
/// `secret` alone, has 65 bytes of which the first is the tag 4, and decodes
/// again.
#[verifier::external_body]
pub(crate) fn derive_public_key(secret: &[u8]) -> (key: Result<Vec<u8>, k256::ecdsa::Error>)
    ensures
        key is Ok <==> secret_in_range(secret@),
        key matches Ok(k) ==> {
            &&& k@ == sec1_public_key(secret@)
            &&& k@.len() == PUBKEY_LEN
            &&& k@[0] == UNCOMPRESSED_TAG
            &&& sec1_point_decodes(k@)
        },
{
    let signing = SigningKey::from_slice(secret)?;
    Ok(signing.verifying_key().to_encoded_point(false).as_bytes().to_vec())
}

/// Signs `message` with `Signer::try_sign` under the key that
/// `SigningKey::from_slice` reads from `secret`. Claimed: it succeeds exactly
/// when `secret` is a signing key and signing gives a signature; that
/// signature depends on `secret` and `message` alone, is well formed, and
/// verifies for `message` under the verifying key of `secret`.
#[verifier::external_body]
pub(crate) fn sign(secret: &[u8], message: &[u8]) -> (signature: Result<
    Vec<u8>,
    k256::ecdsa::Error,
>)
    ensures
        signature is Ok <==> (secret_in_range(secret@) && ecdsa_signature(secret@, message@)
            is Some),
        signature matches Ok(s) ==> {
            &&& Some(s@) == ecdsa_signature(secret@, message@)
            &&& signature_in_range(s@)
            &&& ecdsa_verifies(sec1_public_key(secret@), message@, s@)
        },
{
    let signing = SigningKey::from_slice(secret)?;
    let signature: Signature = signing.try_sign(message)?;
    Ok(signature.to_bytes().to_vec())
}

/// Whether `VerifyingKey::from_sec1_bytes` accepts `key`.
#[verifier::external_body]
pub(crate) fn public_key_decodes(key: &[u8]) -> (ok: bool)
    ensures
        ok == sec1_point_decodes(key@),
{
    VerifyingKey::from_sec1_bytes(key).is_ok()
}

/// Whether `Signature::from_slice` accepts `signature`. Its documentation
/// gives the condition: 64 bytes, `r` and `s` both from 1 to the group order
/// less one.
#[verifier::external_body]
pub(crate) fn signature_decodes(signature: &[u8]) -> (ok: bool)
    ensures
        ok == signature_in_range(signature@),
{
    Signature::from_slice(signature).is_ok()
}

/// Verifies `signature` for `message` under `key` with `Verifier::verify`,
/// both decoded as above. `Ok` exactly when it verifies.
#[verifier::external_body]
pub(crate) fn verify_signature(key: &[u8], message: &[u8], signature: &[u8]) -> (outcome: Result<
    (),
    k256::ecdsa::Error,
>)
    requires
        sec1_point_decodes(key@),
        signature_in_range(signature@),
    ensures
        outcome is Ok <==> ecdsa_verifies(key@, message@, signature@),
{
    let key = VerifyingKey::from_sec1_bytes(key)?;
    let signature = Signature::from_slice(signature)?;
    key.verify(message, &signature)
}

} // verus!
