//! Masking operator: symmetric, self-inverse byte obscuring.
//!
//! Masking composes two XOR layers: a permutation layer keyed by the 32-byte
//! seed `sigma`, and a phase layer keyed by a pseudo-random stream drawn from
//! the phase word `theta`.  Because XOR is self-inverse and the stream is
//! reproducible from the same phase word, unmasking is the same operation as
//! masking: `mask(mask(m, p), p) == m` for every message and every parameter
//! set.  This involution is proved in [`lemma_mask_involution`].

use vstd::prelude::*;
use crate::types::{MaskingParams, OmegaError};

verus! {

/// The byte stream that the standard seeded generator produces: `n` bytes
/// drawn one at a time after seeding with the 32-byte `seed`.
pub uninterp spec fn std_rng_stream(seed: Seq<u8>, n: int) -> Seq<u8>;

/// Relies on rand's StdRng: seeded through SeedableRng::from_seed, the bytes
/// that successive Rng::gen::<u8> calls return are a function of the seed
/// alone (a ChaCha keystream in the pinned version).
#[verifier::external_body]
fn std_rng_bytes(seed: &Vec<u8>, n: usize) -> (r: Vec<u8>)
    requires
        seed@.len() == 32,
    ensures
        r@ == std_rng_stream(seed@, n as int),
        r@.len() == n,
{
    let mut seed_words = [0u8; 32];
    seed_words.copy_from_slice(seed.as_slice());
    let mut rng = <rand::rngs::StdRng as rand::SeedableRng>::from_seed(seed_words);
    let mut out = Vec::with_capacity(n);
    for _ in 0..n {
        out.push(<rand::rngs::StdRng as rand::Rng>::gen::<u8>(&mut rng));
    }
    out
}

/// The 32-byte generator seed spread from the phase word: byte `i` holds the
/// low eight bits of `theta` shifted right by `i % 8`.
pub open spec fn rotation_seed(theta: u64) -> Seq<u8> {
    Seq::new(32, |i: int| ((theta >> ((i % 8) as u64)) & 0xff) as u8)
}

/// What masking does to a message: byte `i` is XORed with byte `i % 32` of
/// the permutation seed and with byte `i` of the phase stream.
pub open spec fn mask_spec(m: Seq<u8>, p: MaskingParams) -> Seq<u8>
    recommends
        p.wf(),
{
    Seq::new(
        m.len(),
        |i: int| (m[i] ^ p.sigma@[i % 32]) ^ std_rng_stream(rotation_seed(p.theta), m.len() as int)[i],
    )
}

/// Masking an already-masked message under the same parameters restores it:
/// both XOR layers cancel byte by byte.
pub proof fn lemma_mask_involution(m: Seq<u8>, p: MaskingParams)
    requires
        p.wf(),
    ensures
        mask_spec(mask_spec(m, p), p) =~= m,
{
    let once = mask_spec(m, p);
    assert(once.len() == m.len());
    assert forall|i: int| 0 <= i < m.len() implies mask_spec(once, p)[i] == m[i] by {
        let s = std_rng_stream(rotation_seed(p.theta), m.len() as int)[i];
        let k = p.sigma@[i % 32];
        let b = m[i];
        assert((((b ^ k) ^ s) ^ k) ^ s == b) by (bit_vector);
    }
}

/// The self-inverse masking operator.
pub struct MaskingOperator;

impl MaskingOperator {
    pub fn new() -> Self {
        Self
    }

    /// Mask (obscure) a message.  Never fails: every byte sequence, the empty
    /// one included, has a mask under well-formed parameters.
    pub fn mask(&self, message: &[u8], params: &MaskingParams) -> (r: Result<Vec<u8>, OmegaError>)
        requires
            params.wf(),
        ensures
            r matches Ok(masked) && masked@ == mask_spec(message@, *params),
    {
        let mut result = vstd::slice::slice_to_vec(message);
        self.permute(&mut result, &params.sigma);
        self.rotate(&mut result, params.theta);
        proof {
            assert(result@ =~= mask_spec(message@, *params));
        }
        Ok(result)
    }

    /// Unmask (recover) a message: the same operation as [`Self::mask`],
    /// because masking is an involution.
    pub fn unmask(&self, masked: &[u8], params: &MaskingParams) -> (r: Result<Vec<u8>, OmegaError>)
        requires
            params.wf(),
        ensures
            r matches Ok(recovered) && recovered@ == mask_spec(masked@, *params),
    {
        self.mask(masked, params)
    }

    /// XOR each byte with the repeating 32-byte permutation seed.  Applying
    /// it twice with the same seed is the identity.
    pub fn permute(&self, data: &mut Vec<u8>, sigma: &Vec<u8>)
        requires
            sigma@.len() == 32,
        ensures
            final(data)@.len() == old(data)@.len(),
            forall|i: int| 0 <= i < final(data)@.len()
                ==> final(data)@[i] == (old(data)@[i] ^ sigma@[i % 32]),
    {
        let ghost orig = data@;
        let n = data.len();
        let mut i: usize = 0;
        while i < n
            invariant
                i <= n,
                n == orig.len(),
                data@.len() == orig.len(),
                sigma@.len() == 32,
                forall|j: int| 0 <= j < i ==> data@[j] == (orig[j] ^ sigma@[j % 32]),
                forall|j: int| i <= j < n ==> data@[j] == orig[j],
            decreases n - i,
        {
            let b = data[i] ^ sigma[i % 32];
            data.set(i, b);
            i = i + 1;
        }
    }

    /// XOR each byte with the pseudo-random phase stream seeded from the
    /// phase word.  Applying it twice with the same word is the identity.
    pub fn rotate(&self, data: &mut Vec<u8>, theta: u64)
        ensures
            final(data)@.len() == old(data)@.len(),
            forall|i: int| 0 <= i < final(data)@.len()
                ==> final(data)@[i] == (old(data)@[i]
                    ^ std_rng_stream(rotation_seed(theta), old(data)@.len() as int)[i]),
    {
        let ghost orig = data@;
        let mut seed: Vec<u8> = Vec::new();
        let mut i: usize = 0;
        while i < 32
            invariant
                i <= 32,
                seed@.len() == i,
                forall|j: int| 0 <= j < i ==> seed@[j] == rotation_seed(theta)[j],
            decreases 32 - i,
        {
            let shift: u64 = (i as u64) % 8;
            seed.push(((theta >> shift) & 0xff) as u8);
            i = i + 1;
        }
        proof {
            assert(seed@ =~= rotation_seed(theta));
        }
        let stream = std_rng_bytes(&seed, data.len());
        let n = data.len();
        let mut k: usize = 0;
        while k < n
            invariant
                k <= n,
                n == orig.len(),
                data@.len() == orig.len(),
                stream@ == std_rng_stream(rotation_seed(theta), orig.len() as int),
                stream@.len() == orig.len(),
                forall|j: int| 0 <= j < k ==> data@[j] == (orig[j] ^ stream@[j]),
                forall|j: int| k <= j < n ==> data@[j] == orig[j],
            decreases n - k,
        {
            let b = data[k] ^ stream[k];
            data.set(k, b);
            k = k + 1;
        }
    }
}

impl Default for MaskingOperator {
    fn default() -> Self {
        Self::new()
    }
}

} // verus!
