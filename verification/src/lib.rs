//! A safe boundary adapter over the zstd one-shot codec.
//!
//! The adapter receives byte buffers that may be absent, validates them,
//! hands the present ones to the codec, and reports the outcome as a richer
//! result type that a thin foreign-function layer can flatten to the single
//! integer code the boundary promises: bytes written on success, `-1` on any
//! failure, and `0` for an unknown or unavailable declared size.

pub mod bound;
pub mod codec;
