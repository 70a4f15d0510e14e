use omega_protocol::codec::{vectorize_block, DIMENSION};
use omega_protocol::types::OmegaError;

#[test]
fn test_vectorize_block_rejects_empty() {
    let r = vectorize_block(b"");
    assert!(matches!(r, Err(OmegaError::VectorizationError(_))));
}

#[test]
fn test_vectorize_block_exact_dimension() {
    // A message of exactly the vector dimension passes through unchanged.
    let block = vectorize_block(b"Hello").unwrap();
    assert_eq!(block.as_slice(), &b"Hello"[..]);
    assert_eq!(block.len(), DIMENSION);
}

#[test]
fn test_vectorize_block_pads_short_message() {
    let block = vectorize_block(&[7u8, 8u8]).unwrap();
    assert_eq!(block, vec![7u8, 8u8, 0u8, 0u8, 0u8]);
}

#[test]
fn test_vectorize_block_truncates_long_message() {
    // Only the first DIMENSION bytes are represented: the codec is lossy by
    // design.
    let block = vectorize_block(b"Hello, world").unwrap();
    assert_eq!(block.as_slice(), &b"Hello"[..]);
}
