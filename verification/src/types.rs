//! Core data types: error kinds, the parameter objects of the verified
//! byte-level operators, and ephemeral key derivation.

use vstd::prelude::*;
use vstd::bytes::{spec_u64_from_le_bytes, spec_u64_to_le_bytes, u64_from_le_bytes, u64_to_le_bytes};
use vstd::slice::slice_subrange;

verus! {

/// The SHA-256 digest of a byte sequence, as the sha2 crate computes it.
pub uninterp spec fn sha256(data: Seq<u8>) -> Seq<u8>;

/// Relies on sha2's Sha256 (Digest::digest): a 32-byte digest that is a
/// function of the input bytes alone.
#[verifier::external_body]
fn sha256_digest(data: &Vec<u8>) -> (r: Vec<u8>)
    ensures
        r@ == sha256(data@),
        r@.len() == 32,
{
    <sha2::Sha256 as sha2::Digest>::digest(data.as_slice()).to_vec()
}

/// The key material for a frequency and an epoch: the digest of the
/// frequency's bit pattern followed by the epoch, both little-endian.
pub open spec fn key_material(omega_bits: u64, epoch: u64) -> Seq<u8> {
    sha256(spec_u64_to_le_bytes(omega_bits) + spec_u64_to_le_bytes(epoch))
}

/// Error kinds raised by the pipeline.  Every stage propagates errors upward
/// immediately; the only non-error "empty" outcomes (no buffered message, a
/// non-resonant message) are represented by `Option`, not by an error.
#[derive(Clone, Debug)]
pub enum OmegaError {
    VectorizationError(String),
    MaskingError(String),
    ResonanceError(String),
    NetworkError(String),
    ParameterError(String),
    IoError(String),
}

/// Masking parameters: a phase word and a 256-bit permutation seed.
///
/// Both sides of an exchange must derive identical parameters for unmasking
/// to invert masking, which is why they are recomputed per call from
/// `(frequency, epoch)` rather than stored or transmitted.
#[derive(Clone, Debug)]
pub struct MaskingParams {
    /// Phase angle in `[0, 2*pi)`, held as a 64-bit fixed-point fraction of a
    /// full turn (the raw word drawn from the key material).
    pub theta: u64,
    /// Permutation seed (256-bit).
    pub sigma: Vec<u8>,
}

impl MaskingParams {
    /// The permutation seed is always exactly 32 bytes.
    pub open spec fn wf(&self) -> bool {
        self.sigma@.len() == 32
    }

    /// Derive ephemeral masking parameters from a frequency's bit pattern and
    /// an epoch.  Equal inputs always yield equal parameters: the whole
    /// result is pinned to the key material of `(omega_bits, epoch)`.
    pub fn ephemeral_from_frequency(omega_bits: u64, epoch: u64) -> (r: Self)
        ensures
            r.sigma@ == key_material(omega_bits, epoch),
            r.theta == spec_u64_from_le_bytes(key_material(omega_bits, epoch).subrange(0, 8)),
            r.wf(),
    {
        let mut input = u64_to_le_bytes(omega_bits);
        let mut epoch_bytes = u64_to_le_bytes(epoch);
        input.append(&mut epoch_bytes);
        let hash = sha256_digest(&input);
        let theta = u64_from_le_bytes(slice_subrange(hash.as_slice(), 0, 8));
        MaskingParams { theta, sigma: hash }
    }
}

/// Key derivation is deterministic: any two parameter sets that satisfy the
/// derivation contract for the same `(omega_bits, epoch)` pair agree in both
/// the phase word and the permutation seed.  This is what lets a receiver
/// holding the same frequency and epoch rederive the sender's mask without a
/// key exchange.
pub proof fn lemma_key_determinism(omega_bits: u64, epoch: u64, p1: MaskingParams, p2: MaskingParams)
    requires
        p1.sigma@ == key_material(omega_bits, epoch),
        p1.theta == spec_u64_from_le_bytes(key_material(omega_bits, epoch).subrange(0, 8)),
        p2.sigma@ == key_material(omega_bits, epoch),
        p2.theta == spec_u64_from_le_bytes(key_material(omega_bits, epoch).subrange(0, 8)),
    ensures
        p1.theta == p2.theta,
        p1.sigma@ == p2.sigma@,
{
}

/// Scale levels of the multi-scale weight-transfer decomposition:
/// high-frequency detail, mid-frequency structure, low-frequency trend.
#[derive(Clone, Debug, PartialEq, Eq, Hash)]
pub enum ScaleLevel {
    Micro,
    Meso,
    Macro,
}

/// Parameters of the path-invariant projection.
#[derive(Clone, Debug)]
pub struct PfadinvarianzParams {
    /// Number of permutations in the group.
    pub permutation_count: usize,
}

impl Default for PfadinvarianzParams {
    fn default() -> (r: Self)
        ensures
            r.permutation_count == 24,
    {
        Self { permutation_count: 24 }
    }
}

} // verus!
