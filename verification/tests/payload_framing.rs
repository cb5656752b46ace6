use attested_aggregation::error::{AggregationError, WorkerError};
use attested_aggregation::payload::{frame, split, Payload, HEADER_LEN};
use attested_aggregation::signing::{PUBKEY_LEN, SIG_LEN};

fn key() -> Vec<u8> {
    (0..65u8).collect()
}

fn signature() -> Vec<u8> {
    (100..164u8).collect()
}

const TEXT: &[u8] = b"100.00000000000000000000";

#[test]
fn widths_of_the_stream() {
    assert_eq!(PUBKEY_LEN, 65);
    assert_eq!(SIG_LEN, 64);
    assert_eq!(HEADER_LEN, 129);
}

#[test]
fn frame_is_key_then_signature_then_text() {
    let wire = frame(&key(), &signature(), TEXT).expect("frame");
    assert_eq!(wire.len(), 129 + TEXT.len());
    assert_eq!(&wire[..65], key().as_slice());
    assert_eq!(&wire[65..129], signature().as_slice());
    assert_eq!(&wire[129..], TEXT);
}

#[test]
fn split_undoes_frame() {
    let wire = frame(&key(), &signature(), TEXT).expect("frame");
    let parts = split(&wire).expect("split");
    assert_eq!(
        parts,
        Payload { public_key: key(), signature: signature(), mean_text: TEXT.to_vec() }
    );
}

#[test]
fn frame_undoes_split() {
    let mut wire: Vec<u8> = (0..129u32).map(|i| (i * 7 % 251) as u8).collect();
    wire.extend_from_slice(b"-3.14159265358979311600");
    let parts = split(&wire).expect("split");
    assert_eq!(frame(&parts.public_key, &parts.signature, &parts.mean_text), Ok(wire));
}

#[test]
fn split_takes_any_text() {
    let mut wire = vec![9u8; 129];
    wire.extend_from_slice(b"not a number at all");
    let parts = split(&wire).expect("split");
    assert_eq!(parts.public_key, vec![9u8; 65]);
    assert_eq!(parts.signature, vec![9u8; 64]);
    assert_eq!(parts.mean_text, b"not a number at all".to_vec());
}

#[test]
fn split_of_a_bare_header_has_empty_text() {
    let parts = split(&vec![1u8; 129]).expect("split");
    assert_eq!(parts.public_key.len(), 65);
    assert_eq!(parts.signature.len(), 64);
    assert!(parts.mean_text.is_empty());
}

#[test]
fn short_streams_are_short_reads() {
    assert_eq!(split(&[]), Err(AggregationError::PayloadReadError));
    assert_eq!(split(&vec![0u8; 64]), Err(AggregationError::PayloadReadError));
    assert_eq!(split(&vec![0u8; 65]), Err(AggregationError::PayloadReadError));
    assert_eq!(split(&vec![0u8; 128]), Err(AggregationError::PayloadReadError));
}

#[test]
fn frame_refuses_a_key_of_another_width() {
    assert_eq!(frame(&vec![4u8; 64], &signature(), TEXT), Err(WorkerError::MalformedPayload));
    assert_eq!(frame(&vec![4u8; 66], &signature(), TEXT), Err(WorkerError::MalformedPayload));
    assert_eq!(frame(&vec![2u8; 33], &signature(), TEXT), Err(WorkerError::MalformedPayload));
    assert_eq!(frame(&[], &signature(), TEXT), Err(WorkerError::MalformedPayload));
}

#[test]
fn frame_refuses_a_signature_of_another_width() {
    assert_eq!(frame(&key(), &vec![1u8; 63], TEXT), Err(WorkerError::MalformedPayload));
    assert_eq!(frame(&key(), &vec![1u8; 65], TEXT), Err(WorkerError::MalformedPayload));
    assert_eq!(frame(&key(), &[], TEXT), Err(WorkerError::MalformedPayload));
}

#[test]
fn frame_refuses_text_of_another_form() {
    assert_eq!(frame(&key(), &signature(), b"100.0"), Err(WorkerError::MalformedPayload));
    assert_eq!(frame(&key(), &signature(), b""), Err(WorkerError::MalformedPayload));
    assert_eq!(frame(&key(), &signature(), b"NaN"), Err(WorkerError::MalformedPayload));
}
