//! What can end a worker or a run. Every error is final: nothing is retried
//! and no run goes on in a degraded form.

use vstd::prelude::*;

verus! {

/// Why a worker stopped without a payload.
#[derive(Clone, Copy, Debug, PartialEq, Eq, Structural)]
pub enum WorkerError {
    /// The worker was asked for no samples at all.
    InvalidSampleCount,
    /// A request to the sampler failed, or did not give a finite number.
    SamplerUnavailable,
    /// A payload was asked for before the window of samples was full.
    SamplingIncomplete,
    /// The mean handed over for signing is not a finite number.
    NonFiniteMean,
    /// The secret is no signing key, or signing gave no signature. (If the
    /// operating system cannot supply randomness for a key, the process stops;
    /// that is no error of this kind.)
    SigningFailure,
    /// The parts of a payload do not have the widths or the form that the
    /// byte stream is fixed to.
    MalformedPayload,
}

/// Why a run ended without a consensus value.
#[derive(Clone, Copy, Debug, PartialEq, Eq, Structural)]
pub enum AggregationError {
    /// The run was asked for no workers at all.
    NoWorkers,
    /// A worker could not be started, or left with a status other than zero.
    WorkerProcessFailure,
    /// A worker's output ended before the key and the signature were complete.
    PayloadReadError,
    /// The text of the mean is not a finite number.
    ParseError,
    /// The key bytes are not a public key.
    KeyDecodeError,
    /// The signature is malformed, or does not verify for the mean under the
    /// key sent with it.
    SignatureInvalidError,
}

} // verus!
