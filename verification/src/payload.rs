//! The byte stream from a worker to the coordinator: the public key, then the
//! signature, then the mean as text up to the end of the stream. The first two
//! have fixed widths, so no separator is needed and every stream that is long
//! enough splits in exactly one way.

use crate::decimal::{is_fixed_decimal, spec_is_fixed_decimal};
use crate::error::{AggregationError, WorkerError};
use crate::signing::{PUBKEY_LEN, SIG_LEN};
use vstd::prelude::*;

verus! {

/// Bytes before the text of the mean begins.
pub const HEADER_LEN: usize = PUBKEY_LEN + SIG_LEN;

/// The three parts of a worker's byte stream, as mathematical sequences.
pub struct Parts {
    pub public_key: Seq<u8>,
    pub signature: Seq<u8>,
    pub mean_text: Seq<u8>,
}

/// The three parts of a worker's byte stream. Nothing is checked yet.
#[derive(Clone, Debug, PartialEq, Eq)]
pub struct Payload {
    pub public_key: Vec<u8>,
    pub signature: Vec<u8>,
    pub mean_text: Vec<u8>,
}

impl View for Payload {
    type V = Parts;

    open spec fn view(&self) -> Parts {
        Parts {
            public_key: self.public_key@,
            signature: self.signature@,
            mean_text: self.mean_text@,
        }
    }
}

/// The key and the signature have the widths that the stream is fixed to.
pub open spec fn fixed_widths(parts: Parts) -> bool {
    parts.public_key.len() == PUBKEY_LEN && parts.signature.len() == SIG_LEN
}

/// The stream that carries `parts`.
pub open spec fn spec_frame(parts: Parts) -> Seq<u8> {
    parts.public_key + parts.signature + parts.mean_text
}

/// The parts of `wire`, if it is long enough to hold a key and a signature.
pub open spec fn spec_split(wire: Seq<u8>) -> Option<Parts> {
    if wire.len() >= HEADER_LEN {
        Some(
            Parts {
                public_key: wire.subrange(0, PUBKEY_LEN as int),
                signature: wire.subrange(PUBKEY_LEN as int, HEADER_LEN as int),
                mean_text: wire.subrange(HEADER_LEN as int, wire.len() as int),
            },
        )
    } else {
        None
    }
}

/// Builds the stream for a key, a signature and the text of a mean. Refused
/// unless the key has 65 bytes, the signature 64, and the text is a decimal
/// with twenty digits after the point.
pub fn frame(public_key: &[u8], signature: &[u8], mean_text: &[u8]) -> (wire: Result<
    Vec<u8>,
    WorkerError,
>)
    ensures
        wire is Ok <==> public_key@.len() == PUBKEY_LEN && signature@.len() == SIG_LEN
            && spec_is_fixed_decimal(mean_text@),
        wire matches Ok(bytes) ==> bytes@ == spec_frame(
            Parts { public_key: public_key@, signature: signature@, mean_text: mean_text@ },
        ),
        wire matches Err(e) ==> e == WorkerError::MalformedPayload,
{
    if public_key.len() != PUBKEY_LEN || signature.len() != SIG_LEN || !is_fixed_decimal(
        mean_text,
    ) {
        return Err(WorkerError::MalformedPayload);
    }
    let mut bytes: Vec<u8> = Vec::new();
    bytes.extend_from_slice(public_key);
    bytes.extend_from_slice(signature);
    bytes.extend_from_slice(mean_text);
    Ok(bytes)
}

/// Copies `wire[from..to]`.
fn copy_range(wire: &[u8], from: usize, to: usize) -> (out: Vec<u8>)
    requires
        from <= to <= wire@.len(),
    ensures
        out@ == wire@.subrange(from as int, to as int),
{
    let mut out: Vec<u8> = Vec::new();
    let mut i: usize = from;
    while i < to
        invariant
            from <= i <= to <= wire@.len(),
            out@ == wire@.subrange(from as int, i as int),
        decreases to - i,
    {
        out.push(wire[i]);
        i += 1;
    }
    out
}

/// Splits a worker's output at the two fixed widths. A stream that ends before
/// the signature is complete is a short read.
pub fn split(wire: &[u8]) -> (parts: Result<Payload, AggregationError>)
    ensures
        parts is Ok <==> wire@.len() >= HEADER_LEN,
        parts matches Ok(p) ==> spec_split(wire@) == Some(p@),
        parts matches Err(e) ==> e == AggregationError::PayloadReadError,
{
    let len: usize = wire.len();
    if len < HEADER_LEN {
        return Err(AggregationError::PayloadReadError);
    }
    Ok(
        Payload {
            public_key: copy_range(wire, 0, PUBKEY_LEN),
            signature: copy_range(wire, PUBKEY_LEN, HEADER_LEN),
            mean_text: copy_range(wire, HEADER_LEN, len),
        },
    )
}

/// Splitting a framed stream gives back the parts it was framed from, whatever
/// bytes the text holds.
pub proof fn lemma_split_frame(parts: Parts)
    requires
        fixed_widths(parts),
    ensures
        spec_split(spec_frame(parts)) == Some(parts),
{
    let wire = spec_frame(parts);
    let back = spec_split(wire)->Some_0;
    assert(back.public_key =~= parts.public_key);
    assert(back.signature =~= parts.signature);
    assert(back.mean_text =~= parts.mean_text);
}

/// Framing the parts of a stream gives back the stream: a stream long enough
/// to split has one reading only.
pub proof fn lemma_frame_split(wire: Seq<u8>)
    requires
        wire.len() >= HEADER_LEN,
    ensures
        fixed_widths(spec_split(wire)->Some_0),
        spec_frame(spec_split(wire)->Some_0) == wire,
{
}

/// Two sets of parts with the fixed widths that frame to the same stream are
/// the same parts.
pub proof fn lemma_frame_injective(a: Parts, b: Parts)
    requires
        fixed_widths(a),
        fixed_widths(b),
        spec_frame(a) == spec_frame(b),
    ensures
        a == b,
{
    lemma_split_frame(a);
    lemma_split_frame(b);
}

} // verus!
