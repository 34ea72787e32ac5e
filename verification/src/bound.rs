//! The codec's worst-case bound on compressed size.
//!
//! The bound is an exact arithmetic formula, so the contract states it in
//! full and the monotonicity law is proved from the formula alone.

use vstd::prelude::*;
use vstd::arithmetic::div_mod::{lemma_div_is_ordered, lemma_div_plus_one};

verus! {

/// Largest source length the codec accepts for one-shot compression.
/// On a larger source its bound query reports an error code instead of a
/// size, and compression itself refuses the source. The limit depends on
/// the platform's pointer width.
pub open spec fn max_source_len() -> nat {
    if usize::BITS == 64 {
        0xFF00FF00FF00FF00
    } else {
        0xFF00FF00
    }
}

/// Whether the codec's one-shot compressor accepts a source of `n` bytes.
pub fn source_len_ok(n: usize) -> (r: bool)
    ensures
        r == ((n as nat) < max_source_len()),
{
    if usize::BITS == 64 {
        (n as u64) < 0xFF00FF00FF00FF00u64
    } else {
        (n as u64) < 0xFF00FF00u64
    }
}

/// Sources shorter than 128 KiB get a frame margin that shrinks from 64
/// bytes down to 0 as the source approaches this length.
pub const MARGIN_WINDOW: usize = 131072;

/// The frame margin the bound adds for a source of `n` bytes.
pub open spec fn frame_margin(n: nat) -> nat {
    if n < MARGIN_WINDOW {
        ((MARGIN_WINDOW - n) as nat) / 2048
    } else {
        0
    }
}

/// Worst-case compressed size for a source of `n` bytes: the source itself,
/// one extra byte per 256 source bytes, and the frame margin.
pub open spec fn compressed_size_bound(n: nat) -> nat {
    n + n / 256 + frame_margin(n)
}

/// The error code the codec's bound query returns on an oversized source;
/// a caller cannot tell it from a size, which the boundary accepts.
pub open spec fn bound_error_code() -> nat {
    (usize::MAX - 71) as nat
}

/// Relies on `zstd::zstd_safe::compress_bound` (the codec's
/// `ZSTD_compressBound`): below the input-size limit it returns exactly
/// `srcSize + (srcSize >> 8)` plus a margin of `((128 << 10) - srcSize) >> 11`
/// for sources under 128 KiB; at or past the limit it returns the
/// `srcSize_wrong` error code.
#[verifier::external_body]
fn raw_compress_bound(n: usize) -> (r: usize)
    ensures
        n < max_source_len() ==> r == compressed_size_bound(n as nat),
        n >= max_source_len() ==> r == bound_error_code(),
{
    zstd::zstd_safe::compress_bound(n)
}

/// Worst-case compressed size for a source of `src_len` bytes, as the codec
/// reports it. For any source the codec can take, the result is the exact
/// bound formula; an oversized source gets the codec's error code back.
pub fn compress_bound(src_len: usize) -> (r: usize)
    ensures
        src_len < max_source_len() ==> r == compressed_size_bound(src_len as nat),
        src_len >= max_source_len() ==> r == bound_error_code(),
{
    raw_compress_bound(src_len)
}

/// An empty source still needs room for a whole frame: the bound at zero is
/// exactly the largest frame margin, 64 bytes, and so never negative.
pub proof fn lemma_bound_at_zero()
    ensures
        compressed_size_bound(0) == 64,
{
}

/// One step of the monotonicity law: a single extra source byte never
/// shrinks the bound, because the margin loses at most the one byte the
/// source term gains.
proof fn lemma_bound_step(m: nat)
    ensures
        compressed_size_bound(m) <= compressed_size_bound(m + 1),
{
    lemma_div_is_ordered(m as int, m as int + 1, 256);
    if m + 1 < MARGIN_WINDOW {
        let x = (MARGIN_WINDOW - m) as int;
        lemma_div_plus_one(x - 1, 2048);
        lemma_div_is_ordered(x, x - 1 + 2048, 2048);
    }
}

/// Monotonicity law: the worst-case bound never decreases as the source
/// grows.
pub proof fn lemma_bound_monotone(a: nat, b: nat)
    requires
        a <= b,
    ensures
        compressed_size_bound(a) <= compressed_size_bound(b),
    decreases b - a,
{
    if a < b {
        lemma_bound_monotone(a, (b - 1) as nat);
        lemma_bound_step((b - 1) as nat);
    }
}

} // verus!
