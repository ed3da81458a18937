//! The BLAKE3 hash suite of SLH-DSA: the tweakable hash functions `prf_msg`,
//! `h_msg`, `prf_sk`, `t`, `h` and `f`, built on the `blake3` crate's
//! extendable-output mode, together with the parameter sets that use it.
//!
//! Every function is specified over the bytes it feeds to BLAKE3: the output
//! is the BLAKE3 XOF of the concatenation of its inputs, whichever internal
//! path (stack buffer, streaming, or multithreaded) produced it.

mod outside;
pub mod bytes;
pub mod absorb;
pub mod suite;
pub mod params;

pub use suite::Blake3;
pub use params::{Blake3ParamSet, SlhParams, Blake3_128s, Blake3_128f, Blake3_192s, Blake3_192f, Blake3_256s, Blake3_256f};
pub use absorb::{update_msg_parts_parallel, blake3_xof_into, new_regular_hasher};

pub use outside::{hasher_input, hasher_mode, hasher_input_offset, regular_mode, blake3_xof};
pub use bytes::{slices_view, concat_parts};
