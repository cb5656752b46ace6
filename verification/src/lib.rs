//! Attested multi-worker aggregation of a sampled price.
//!
//! Several workers sample a price feed over the same time window, each signs
//! the mean it computed with a key made for that one run, and a coordinator
//! checks every signature before any mean may enter the consensus value. One
//! worker that fails, or one signature that does not verify, ends the run.
//!
//! A price is an IEEE 754 binary64 number. This crate never does arithmetic on
//! prices; it carries each one as its 64-bit pattern (`f64::to_bits`), which is
//! also what gets signed, byte for byte. The caller reads the clock, talks to
//! the price feed, starts the worker processes and does the sums.
//!
//! - [`launch`]: the shared kickoff instant.
//! - [`worker`]: a worker's course from the kickoff to a full window of
//!   samples.
//! - [`attestation`]: signing a mean, and checking a payload that claims one.
//! - [`payload`]: the byte stream from worker to coordinator.
//! - [`coordinator`]: a run, from the workers' reports to the means that the
//!   consensus value is taken from.
//! - [`binary64`], [`decimal`]: a price as bits and as text.
//! - [`signing`]: the signature scheme, which the `k256` crate supplies.
//! - [`error`]: what can go wrong.

pub mod attestation;
pub mod binary64;
pub mod coordinator;
pub mod decimal;
pub mod error;
pub mod launch;
pub mod payload;
pub mod signing;
pub mod worker;
