//! A worker's attestation: the mean it computed, the public key of the pair it
//! made for this one run, and its signature over the eight little-endian bytes
//! of the mean. The worker makes one with [`attest`]; the coordinator takes a
//! payload for one only through [`authenticate`].

use crate::binary64::{is_finite, le_bytes, spec_is_finite, spec_le_bytes};
use crate::decimal::{is_fixed_decimal, spec_is_fixed_decimal};
use crate::error::{AggregationError, WorkerError};
use crate::payload::{frame, spec_frame, spec_split, Parts, Payload};
use crate::signing::{
    derive_public_key, ecdsa_signature, ecdsa_verifies, public_key_decodes, random_secret,
    sec1_point_decodes, sec1_public_key, secret_in_range, sign, signature_decodes,
    signature_in_range, verify_signature, PUBKEY_LEN, UNCOMPRESSED_TAG,
};
use vstd::prelude::*;

verus! {

/// An attestation as mathematical values.
pub struct Attestation {
    pub mean: u64,
    pub public_key: Seq<u8>,
    pub signature: Seq<u8>,
}

/// One worker's result: the bit pattern of its mean, its public key and its
/// signature.
#[derive(Clone, Debug, PartialEq, Eq)]
pub struct WorkerResult {
    pub mean: u64,
    pub public_key: Vec<u8>,
    pub signature: Vec<u8>,
}

impl View for WorkerResult {
    type V = Attestation;

    open spec fn view(&self) -> Attestation {
        Attestation { mean: self.mean, public_key: self.public_key@, signature: self.signature@ }
    }
}

/// The key is a public key in the 65-byte form.
pub open spec fn key_acceptable(public_key: Seq<u8>) -> bool {
    public_key.len() == PUBKEY_LEN && sec1_point_decodes(public_key)
}

/// The mean is finite, the key is a public key in the 65-byte form, and the
/// signature is well formed and verifies, under that key, for the
/// little-endian bytes of the mean.
pub open spec fn is_authentic(a: Attestation) -> bool {
    &&& spec_is_finite(a.mean)
    &&& key_acceptable(a.public_key)
    &&& signature_in_range(a.signature)
    &&& ecdsa_verifies(a.public_key, spec_le_bytes(a.mean), a.signature)
}

/// Puts a result together from what key derivation and signing gave: a
/// result if both a key and a signature are there, a signing failure
/// otherwise.
pub fn seal(mean: u64, public_key: Option<Vec<u8>>, signature: Option<Vec<u8>>) -> (sealed: Result<
    WorkerResult,
    WorkerError,
>)
    ensures
        sealed is Ok <==> public_key is Some && signature is Some,
        sealed matches Ok(w) ==> w.mean == mean && Some(w.public_key) == public_key && Some(
            w.signature,
        ) == signature,
        sealed matches Err(e) ==> e == WorkerError::SigningFailure,
{
    match (public_key, signature) {
        (Some(k), Some(s)) => Ok(WorkerResult { mean, public_key: k, signature: s }),
        _ => Err(WorkerError::SigningFailure),
    }
}

/// A result as mathematical values.
pub open spec fn result_view(attested: Result<WorkerResult, WorkerError>) -> Result<
    Attestation,
    WorkerError,
> {
    match attested {
        Ok(w) => Ok(w@),
        Err(e) => Err(e),
    }
}

/// What attesting `mean` with the secret key `secret` comes to. A mean that is
/// not finite is refused whatever the secret; a secret that is no signing key
/// signs nothing; else the result holds the verifying key of the secret and
/// its signature over the little-endian bytes of the mean, where signing
/// gives one.
pub open spec fn spec_attest_with(secret: Seq<u8>, mean: u64) -> Result<Attestation, WorkerError> {
    if !spec_is_finite(mean) {
        Err(WorkerError::NonFiniteMean)
    } else if !secret_in_range(secret) {
        Err(WorkerError::SigningFailure)
    } else {
        match ecdsa_signature(secret, spec_le_bytes(mean)) {
            Some(signature) => Ok(
                Attestation { mean, public_key: sec1_public_key(secret), signature },
            ),
            None => Err(WorkerError::SigningFailure),
        }
    }
}

/// A secret as the generator hands it out: 32 bytes that are a signing key.
pub open spec fn drawn_secret(secret: Seq<u8>) -> bool {
    secret.len() == 32 && secret_in_range(secret)
}

/// Attests `mean` with the secret key `secret`: signs the little-endian bytes
/// of the mean and returns mean, the public key of the secret, and the
/// signature. The same secret and mean always give the same result, and a
/// result that comes back is authentic.
pub fn attest_with(secret: &[u8], mean: u64) -> (attested: Result<WorkerResult, WorkerError>)
    ensures
        result_view(attested) == spec_attest_with(secret@, mean),
        attested matches Ok(w) ==> is_authentic(w@) && w.public_key@[0] == UNCOMPRESSED_TAG,
{
    if !is_finite(mean) {
        return Err(WorkerError::NonFiniteMean);
    }
    let message: Vec<u8> = le_bytes(mean);
    let public_key: Option<Vec<u8>> = match derive_public_key(secret) {
        Ok(key) => Some(key),
        Err(_) => None,
    };
    let signature: Option<Vec<u8>> = match sign(secret, message.as_slice()) {
        Ok(signature) => Some(signature),
        Err(_) => None,
    };
    seal(mean, public_key, signature)
}

/// Makes a key pair for this one call, signs the little-endian bytes of `mean`
/// with it and returns mean, public key and signature. The secret key is
/// dropped before the function returns.
///
/// A mean that is not finite is refused before any key is made. For a finite
/// mean a secret is drawn from the operating system's generator, and the
/// result is what [`attest_with`] gives for that secret: an authentic result,
/// or a signing failure where the signature scheme gives no signature for
/// that secret and mean. If the operating system cannot supply randomness,
/// the process stops; no error comes back.
pub fn attest(mean: u64) -> (attested: Result<WorkerResult, WorkerError>)
    ensures
        !spec_is_finite(mean) <==> attested == Err::<WorkerResult, WorkerError>(
            WorkerError::NonFiniteMean,
        ),
        spec_is_finite(mean) ==> exists|secret: Seq<u8>| #[trigger]
            drawn_secret(secret) && result_view(attested) == spec_attest_with(secret, mean),
        attested matches Ok(w) ==> w.mean == mean && is_authentic(w@),
        attested matches Err(e) ==> e == WorkerError::NonFiniteMean || e
            == WorkerError::SigningFailure,
{
    if !is_finite(mean) {
        return Err(WorkerError::NonFiniteMean);
    }
    let secret: Vec<u8> = random_secret();
    let attested = attest_with(secret.as_slice(), mean);
    assert(drawn_secret(secret@));
    attested
}

/// The coordinator's decision on one payload, from what each check found.
/// The checks count in this order: the mean must have parsed to a finite
/// number, then the key must decode, then the signature must be well formed
/// and verify.
pub open spec fn spec_verdict(
    parsed_mean: Option<u64>,
    key_ok: bool,
    signature_ok: bool,
    verifies: bool,
) -> Result<u64, AggregationError> {
    match parsed_mean {
        None => Err(AggregationError::ParseError),
        Some(mean) => if !spec_is_finite(mean) {
            Err(AggregationError::ParseError)
        } else if !key_ok {
            Err(AggregationError::KeyDecodeError)
        } else if !(signature_ok && verifies) {
            Err(AggregationError::SignatureInvalidError)
        } else {
            Ok(mean)
        },
    }
}

/// Decides on one payload from what each check found.
pub fn verdict(parsed_mean: Option<u64>, key_ok: bool, signature_ok: bool, verifies: bool) -> (decided:
    Result<u64, AggregationError>)
    ensures
        decided == spec_verdict(parsed_mean, key_ok, signature_ok, verifies),
{
    match parsed_mean {
        None => Err(AggregationError::ParseError),
        Some(mean) => if !is_finite(mean) {
            Err(AggregationError::ParseError)
        } else if !key_ok {
            Err(AggregationError::KeyDecodeError)
        } else if !(signature_ok && verifies) {
            Err(AggregationError::SignatureInvalidError)
        } else {
            Ok(mean)
        },
    }
}

/// What the coordinator makes of the parts of a payload, given the number
/// that the text of the mean parsed to, if it parsed.
pub open spec fn spec_authenticate(parts: Parts, parsed_mean: Option<u64>) -> Result<
    Attestation,
    AggregationError,
> {
    let message = match parsed_mean {
        Some(mean) => spec_le_bytes(mean),
        None => Seq::empty(),
    };
    match spec_verdict(
        parsed_mean,
        key_acceptable(parts.public_key),
        signature_in_range(parts.signature),
        ecdsa_verifies(parts.public_key, message, parts.signature),
    ) {
        Ok(mean) => Ok(
            Attestation { mean, public_key: parts.public_key, signature: parts.signature },
        ),
        Err(e) => Err(e),
    }
}

/// Checks one payload. `parsed_mean` is the bit pattern of the number that
/// `payload.mean_text` parses to, or `None` if it is no number.
///
/// The signature is checked against the little-endian bytes of the parsed
/// mean, under the key that came with it. Anything short of a full match is
/// an error, and no part of the payload is used.
pub fn authenticate(payload: Payload, parsed_mean: Option<u64>) -> (checked: Result<
    WorkerResult,
    AggregationError,
>)
    ensures
        checked matches Ok(w) ==> spec_authenticate(payload@, parsed_mean) == Ok::<
            Attestation,
            AggregationError,
        >(w@) && is_authentic(w@),
        checked matches Err(e) ==> spec_authenticate(payload@, parsed_mean) == Err::<
            Attestation,
            AggregationError,
        >(e),
{
    let key_ok: bool = payload.public_key.len() == PUBKEY_LEN && public_key_decodes(
        payload.public_key.as_slice(),
    );
    let signature_ok: bool = signature_decodes(payload.signature.as_slice());
    let verifies: bool = match parsed_mean {
        Some(mean) => if key_ok && signature_ok {
            let message: Vec<u8> = le_bytes(mean);
            match verify_signature(
                payload.public_key.as_slice(),
                message.as_slice(),
                payload.signature.as_slice(),
            ) {
                Ok(_) => true,
                Err(_) => false,
            }
        } else {
            false
        },
        None => false,
    };
    match verdict(parsed_mean, key_ok, signature_ok, verifies) {
        Ok(mean) => Ok(
            WorkerResult { mean, public_key: payload.public_key, signature: payload.signature },
        ),
        Err(e) => Err(e),
    }
}

/// The stream carries `mean`: it splits, its text is `mean_text`, and the
/// coordinator, with the text parsed to `mean`, accepts what it split into.
pub open spec fn carries(wire: Seq<u8>, mean: u64, mean_text: Seq<u8>) -> bool {
    &&& spec_split(wire) matches Some(parts)
    &&& parts.mean_text == mean_text
    &&& spec_authenticate(parts, Some(mean)) is Ok
}

/// What the worker's output for `mean` with the secret key `secret` comes
/// to: the refusals in order, a mean that is not finite, then a text that
/// does not have the form, then whatever keeps the mean from being attested;
/// else the stream of key, signature and text.
pub open spec fn spec_payload_with(secret: Seq<u8>, mean: u64, mean_text: Seq<u8>) -> Result<
    Seq<u8>,
    WorkerError,
> {
    if !spec_is_finite(mean) {
        Err(WorkerError::NonFiniteMean)
    } else if !spec_is_fixed_decimal(mean_text) {
        Err(WorkerError::MalformedPayload)
    } else {
        match spec_attest_with(secret, mean) {
            Ok(a) => Ok(
                spec_frame(Parts { public_key: a.public_key, signature: a.signature, mean_text }),
            ),
            Err(e) => Err(e),
        }
    }
}

/// A stream as mathematical values.
pub open spec fn wire_view(wire: Result<Vec<u8>, WorkerError>) -> Result<Seq<u8>, WorkerError> {
    match wire {
        Ok(bytes) => Ok(bytes@),
        Err(e) => Err(e),
    }
}

/// The worker's whole output for `mean` with the secret key `secret`: key,
/// signature, then `mean_text`. The same three always give the same stream,
/// and a stream that comes back is one that the coordinator accepts for this
/// mean.
pub fn attested_payload_with(secret: &[u8], mean: u64, mean_text: &[u8]) -> (wire: Result<
    Vec<u8>,
    WorkerError,
>)
    ensures
        wire_view(wire) == spec_payload_with(secret@, mean, mean_text@),
        wire matches Ok(bytes) ==> carries(bytes@, mean, mean_text@),
{
    if !is_finite(mean) {
        return Err(WorkerError::NonFiniteMean);
    }
    if !is_fixed_decimal(mean_text) {
        return Err(WorkerError::MalformedPayload);
    }
    let result: WorkerResult = match attest_with(secret, mean) {
        Ok(result) => result,
        Err(e) => {
            return Err(e);
        },
    };
    proof {
        lemma_authentic_payload_accepted(result@, mean_text@);
    }
    frame(result.public_key.as_slice(), result.signature.as_slice(), mean_text)
}

/// The worker's whole output for a mean: key, signature, then `mean_text`,
/// which the caller formats from the mean with twenty digits after the point.
///
/// The stream comes whole or not at all. A mean that is not finite is
/// refused first, then a text that does not have the form; both before any
/// key is made. Then a secret is drawn from the operating system's generator,
/// and the stream is what [`attested_payload_with`] gives for that secret. A
/// stream that comes back is one that the coordinator accepts for this mean.
/// If the operating system cannot supply randomness, the process stops.
pub fn attested_payload(mean: u64, mean_text: &[u8]) -> (wire: Result<Vec<u8>, WorkerError>)
    ensures
        !spec_is_finite(mean) <==> wire == Err::<Vec<u8>, WorkerError>(WorkerError::NonFiniteMean),
        spec_is_finite(mean) && !spec_is_fixed_decimal(mean_text@) <==> wire == Err::<
            Vec<u8>,
            WorkerError,
        >(WorkerError::MalformedPayload),
        spec_is_finite(mean) && spec_is_fixed_decimal(mean_text@) ==> exists|secret: Seq<u8>| #[trigger]
            drawn_secret(secret) && wire_view(wire) == spec_payload_with(secret, mean, mean_text@),
        wire matches Err(e) ==> e == WorkerError::NonFiniteMean || e
            == WorkerError::MalformedPayload || e == WorkerError::SigningFailure,
        wire matches Ok(bytes) ==> carries(bytes@, mean, mean_text@),
{
    if !is_finite(mean) {
        return Err(WorkerError::NonFiniteMean);
    }
    if !is_fixed_decimal(mean_text) {
        return Err(WorkerError::MalformedPayload);
    }
    let secret: Vec<u8> = random_secret();
    let wire = attested_payload_with(secret.as_slice(), mean, mean_text);
    assert(drawn_secret(secret@));
    wire
}

/// What an honest worker sends is accepted: if an attestation is authentic,
/// the stream framed from it splits into the same key and signature, and the
/// coordinator, once the text has parsed back to the same mean, accepts it
/// and recovers the attestation unchanged.
pub proof fn lemma_authentic_payload_accepted(a: Attestation, mean_text: Seq<u8>)
    requires
        is_authentic(a),
    ensures
        ({
            let parts = Parts { public_key: a.public_key, signature: a.signature, mean_text };
            &&& spec_split(spec_frame(parts)) == Some(parts)
            &&& spec_authenticate(parts, Some(a.mean)) == Ok::<Attestation, AggregationError>(a)
        }),
{
    let parts = Parts { public_key: a.public_key, signature: a.signature, mean_text };
    crate::payload::lemma_split_frame(parts);
}

/// Acceptance means authenticity, and nothing else does: the coordinator
/// accepts the parts of a payload exactly when mean, key and signature
/// together are an authentic attestation.
pub proof fn lemma_accepted_iff_authentic(parts: Parts, mean: u64)
    ensures
        spec_authenticate(parts, Some(mean)) is Ok <==> is_authentic(
            Attestation { mean, public_key: parts.public_key, signature: parts.signature },
        ),
        spec_authenticate(parts, None) is Err,
{
}

/// Each error of the coordinator's check, with the payloads on which it
/// comes. A mean that did not parse, or is not finite, is a parse error
/// whatever key and signature say; with a finite mean, a key that is no public
/// key in the 65-byte form is a key error whatever the signature says; with
/// both in order, a signature that is malformed or does not verify is a
/// signature error.
pub proof fn lemma_authenticate_errors(parts: Parts, parsed_mean: Option<u64>)
    ensures
        spec_authenticate(parts, parsed_mean) == Err::<Attestation, AggregationError>(
            AggregationError::ParseError,
        ) <==> (parsed_mean matches Some(mean) ==> !spec_is_finite(mean)),
        spec_authenticate(parts, parsed_mean) == Err::<Attestation, AggregationError>(
            AggregationError::KeyDecodeError,
        ) <==> (parsed_mean matches Some(mean) && spec_is_finite(mean) && !key_acceptable(
            parts.public_key,
        )),
        spec_authenticate(parts, parsed_mean) == Err::<Attestation, AggregationError>(
            AggregationError::SignatureInvalidError,
        ) <==> (parsed_mean matches Some(mean) && spec_is_finite(mean) && key_acceptable(
            parts.public_key,
        ) && !(signature_in_range(parts.signature) && ecdsa_verifies(
            parts.public_key,
            spec_le_bytes(mean),
            parts.signature,
        ))),
        spec_authenticate(parts, parsed_mean) matches Err(e) ==> e == AggregationError::ParseError
            || e == AggregationError::KeyDecodeError || e
            == AggregationError::SignatureInvalidError,
{
}

} // verus!
