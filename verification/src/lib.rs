//! Address-free messaging core: operator pipeline for frequency-addressed
//! message exchange.
//!
//! A sender stamps a message with a target frequency instead of a destination
//! identifier; any receiver tuned near that frequency can recover it.  The
//! byte-level core verified here covers:
//!
//! - symmetric, self-inverse masking of message bytes (an XOR permutation
//!   layer plus a seeded pseudo-random XOR stream),
//! - deterministic ephemeral key derivation from a frequency and an epoch
//!   through a cryptographic digest,
//! - generation of the fixed permutation group used by the path-invariant
//!   projection, and
//! - the byte layer of the vector codec (padding and block extraction).
//!
//! The floating-point stages of the pipeline (spectral resonance testing,
//! threshold sweeping, multi-scale weight transfer, orthogonal perturbation)
//! operate on real-valued vectors and live outside this verified core.

pub mod types;
pub mod masking;
pub mod pfadinvarianz;
pub mod codec;

pub use types::{MaskingParams, OmegaError, PfadinvarianzParams, ScaleLevel};
pub use masking::MaskingOperator;
pub use pfadinvarianz::Pfadinvarianz;
pub use codec::{vectorize_block, DIMENSION};
