//! Vector codec, byte layer.
//!
//! A message is carried as a fixed-dimension real vector.  Encoding first
//! pads the message with zero bytes to a multiple of the dimension and keeps
//! only the first [`DIMENSION`] bytes of the padded buffer — deliberately
//! lossy — and then maps each byte `b` to the real number `(b - 128) / 128`.
//! Decoding quantizes each component back to a byte.  The per-byte numeric
//! mapping is floating-point work and lives outside this verified core; this
//! module pins the byte block that the mapping is applied to.

use vstd::prelude::*;
use crate::types::OmegaError;

verus! {

/// Dimension of the vector space in the reference configuration.
pub const DIMENSION: usize = 5;

/// The byte block that encoding represents: the first [`DIMENSION`] bytes of
/// the message, padded with zero bytes past its end.
pub open spec fn block_spec(data: Seq<u8>) -> Seq<u8> {
    Seq::new(
        DIMENSION as nat,
        |i: int|
            if i < data.len() {
                data[i]
            } else {
                0u8
            },
    )
}

/// Extract the byte block that vectorization encodes.  Fails exactly on an
/// empty message; every other message yields the block of [`block_spec`].
pub fn vectorize_block(data: &[u8]) -> (r: Result<Vec<u8>, OmegaError>)
    ensures
        data@.len() == 0 <==> r is Err,
        data@.len() == 0 ==> (r matches Err(e) && e is VectorizationError),
        data@.len() > 0 ==> (r matches Ok(b) && b@ == block_spec(data@)),
{
    if data.len() == 0 {
        return Err(OmegaError::VectorizationError("Cannot vectorize empty data".to_string()));
    }
    let mut block: Vec<u8> = Vec::new();
    let mut i: usize = 0;
    while i < DIMENSION
        invariant
            i <= DIMENSION,
            block@.len() == i,
            forall|t: int| 0 <= t < i ==> block@[t] == block_spec(data@)[t],
        decreases DIMENSION - i,
    {
        if i < data.len() {
            let b = data[i];
            block.push(b);
        } else {
            block.push(0);
        }
        i = i + 1;
    }
    proof {
        assert(block@ =~= block_spec(data@));
    }
    Ok(block)
}

/// A message of exactly the vector dimension passes through the byte layer
/// unchanged: its block is the message itself.  The numeric half of the
/// round trip — normalizing each block byte and quantizing it back — is
/// exact for every byte value, but is floating-point work outside this core.
pub proof fn lemma_block_round_trip(data: Seq<u8>)
    requires
        data.len() == DIMENSION,
    ensures
        block_spec(data) =~= data,
{
}

} // verus!
