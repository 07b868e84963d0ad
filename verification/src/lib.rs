//! A stateful nonlinear "tape saturation" audio filter.
//!
//! The filter colors a stereo signal with a soft-clipping nonlinearity
//! blended with a derivative-sensitive correction term, keeping per-channel
//! memory of the previous input and output sample. Samples and parameters
//! are carried as the bit patterns of IEEE-754 single-precision values, so
//! that every piece of control logic — parameter clamping, indexing, block
//! sequencing and memory updates — is stated and verified exactly, while the
//! elementary arithmetic is delegated to a software IEEE-754
//! implementation behind narrow trusted wrappers, and the two
//! transcendental curve samples each step needs — which depend only on the
//! current input sample, never on filter state — are supplied per block by
//! the host.

pub mod editor;
pub mod numerics;
pub mod filter;
