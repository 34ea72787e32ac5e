//! The boundary adapter over the codec's one-shot primitives.
//!
//! Buffers that cross the boundary may be absent; an absent buffer fails a
//! call immediately. Present buffers are handed to the codec, and the
//! outcome comes back as a `Result` that distinguishes the invalid-argument
//! failure from a codec failure, before a foreign layer flattens both to
//! the single `-1` code.

use vstd::prelude::*;
use crate::bound::{compress_bound, compressed_size_bound, max_source_len, source_len_ok};

verus! {

/// Why a boundary call failed: a buffer was absent, or the codec itself
/// reported an error (too little room in the destination, malformed input,
/// an oversized source, or an internal limit). The boundary does not tell
/// the codec's causes apart.
#[derive(Clone, Copy, Debug, PartialEq, Eq, Structural)]
pub enum CodecError {
    InvalidArgument,
    CodecFailure,
}

/// What the codec's one-shot compressor emits for a given source and level:
/// a single frame, determined by the source bytes and the level alone.
pub uninterp spec fn compressed(src: Seq<u8>, level: i32) -> Seq<u8>;

/// What a compressed input decompresses to: the content of its frames, or
/// nothing when the input is not a well-formed frame sequence.
pub uninterp spec fn decoded(data: Seq<u8>) -> Option<Seq<u8>>;

/// The content size a compressed input's frame header declares, when the
/// header is well formed and carries one.
pub uninterp spec fn declared_content_size(data: Seq<u8>) -> Option<u64>;

/// Relies on `zstd::bulk::compress`: one-shot compression of the whole
/// source at the given level (the codec clamps the level to its supported
/// range) into a fresh buffer sized by the codec's own worst-case bound,
/// which the codec documents as always large enough. Frames made this way
/// decompress back to the source and carry the source length in their
/// header. The length limit keeps the source below the codec's input-size
/// cap and the buffer below the allocator's.
#[verifier::external_body]
fn raw_compress(src: &[u8], level: i32) -> (r: Option<Vec<u8>>)
    requires
        src@.len() < max_source_len(),
        compressed_size_bound(src@.len()) <= isize::MAX,
    ensures
        r is Some,
        r matches Some(frame) ==> {
            &&& frame@ == compressed(src@, level)
            &&& frame@.len() <= compressed_size_bound(src@.len())
            &&& decoded(frame@) == Some(src@)
            &&& declared_content_size(frame@) == Some(src@.len() as u64)
        },
{
    zstd::bulk::compress(src, level).ok()
}

/// Relies on `zstd::bulk::decompress`: one-shot decompression of a whole
/// frame sequence into a fresh buffer of the given capacity. The codec
/// rejects malformed input and content larger than the capacity, and
/// otherwise writes the full content. The capacity limit keeps the buffer
/// below the allocator's cap.
#[verifier::external_body]
fn raw_decompress(src: &[u8], capacity: usize) -> (r: Option<Vec<u8>>)
    requires
        capacity <= isize::MAX,
    ensures
        r matches Some(out) ==> decoded(src@) == Some(out@) && out@.len() <= capacity,
        (decoded(src@) matches Some(content) && content.len() <= capacity) ==> r is Some,
{
    zstd::bulk::decompress(src, capacity).ok()
}

/// Relies on `zstd::zstd_safe::get_frame_content_size` (the codec's
/// `ZSTD_getFrameContentSize`): reads the declared content size from the
/// frame header without decompressing; an unknown size and a malformed
/// header are both reported as absent.
#[verifier::external_body]
fn raw_frame_content_size(src: &[u8]) -> (r: Option<u64>)
    ensures
        r == declared_content_size(src@),
{
    match zstd::zstd_safe::get_frame_content_size(src) {
        Ok(size) => size,
        Err(_) => None,
    }
}

/// Compresses `src` at the given level for a destination of
/// `dst_capacity` bytes. An absent source or destination is rejected
/// outright; otherwise the call succeeds exactly when the codec accepts the
/// source and the compressed frame fits the destination, and the frame
/// comes back to be written out.
pub fn compress(
    src: Option<&[u8]>,
    dst_present: bool,
    dst_capacity: usize,
    level: i32,
) -> (r: Result<Vec<u8>, CodecError>)
    ensures
        r == Err::<Vec<u8>, CodecError>(CodecError::InvalidArgument) <==> (src is None
            || !dst_present),
        r matches Ok(frame) ==> {
            &&& src matches Some(s)
            &&& frame@ == compressed(s@, level)
            &&& frame@.len() <= dst_capacity
            &&& frame@.len() <= compressed_size_bound(s@.len())
            &&& decoded(frame@) == Some(s@)
            &&& declared_content_size(frame@) == Some(s@.len() as u64)
        },
        src is Some && dst_present && src->0@.len() < max_source_len()
            && compressed_size_bound(src->0@.len()) <= isize::MAX ==> (r is Ok
            <==> compressed(src->0@, level).len() <= dst_capacity),
        src is Some && dst_present && src->0@.len() < max_source_len()
            && compressed_size_bound(src->0@.len()) <= isize::MAX && compressed_size_bound(
            src->0@.len(),
        ) <= dst_capacity ==> r is Ok,
        src is Some && dst_present && src->0@.len() >= max_source_len() ==> r == Err::<
            Vec<u8>,
            CodecError,
        >(CodecError::CodecFailure),
{
    match src {
        None => Err(CodecError::InvalidArgument),
        Some(s) => {
            if !dst_present {
                return Err(CodecError::InvalidArgument);
            }
            if !source_len_ok(s.len()) {
                return Err(CodecError::CodecFailure);
            }
            let worst_case = compress_bound(s.len());
            if worst_case > isize::MAX as usize {
                return Err(CodecError::CodecFailure);
            }
            match raw_compress(s, level) {
                Some(frame) => {
                    if frame.len() <= dst_capacity {
                        Ok(frame)
                    } else {
                        Err(CodecError::CodecFailure)
                    }
                },
                None => Err(CodecError::CodecFailure),
            }
        },
    }
}

/// Decompresses `src` for a destination of `dst_capacity` bytes. An absent
/// source or destination is rejected outright; otherwise the call succeeds
/// exactly when the input is a well-formed frame sequence whose whole
/// content fits the destination, and the content comes back to be written
/// out — never a truncated part of it.
pub fn decompress(
    src: Option<&[u8]>,
    dst_present: bool,
    dst_capacity: usize,
) -> (r: Result<Vec<u8>, CodecError>)
    ensures
        r == Err::<Vec<u8>, CodecError>(CodecError::InvalidArgument) <==> (src is None
            || !dst_present),
        r matches Ok(out) ==> {
            &&& src matches Some(s)
            &&& decoded(s@) == Some(out@)
            &&& out@.len() <= dst_capacity
        },
        src is Some && dst_present && dst_capacity <= isize::MAX ==> (r is Ok
            <==> (decoded(src->0@) matches Some(content)
            && content.len() <= dst_capacity)),
{
    match src {
        None => Err(CodecError::InvalidArgument),
        Some(s) => {
            if !dst_present {
                return Err(CodecError::InvalidArgument);
            }
            if dst_capacity > isize::MAX as usize {
                return Err(CodecError::CodecFailure);
            }
            match raw_decompress(s, dst_capacity) {
                Some(out) => Ok(out),
                None => Err(CodecError::CodecFailure),
            }
        },
    }
}

/// Reads the content size a compressed input declares for itself, without
/// decompressing. An absent source, a malformed header, and a header
/// without a declared size all come back as 0; a caller cannot tell these
/// apart, which the boundary accepts.
pub fn get_decompressed_size(src: Option<&[u8]>) -> (r: usize)
    ensures
        src is None ==> r == 0,
        src matches Some(s) ==> match declared_content_size(s@) {
            Some(size) => size <= usize::MAX ==> r == size,
            None => r == 0,
        },
{
    match src {
        None => 0,
        Some(s) => {
            match raw_frame_content_size(s) {
                Some(size) => {
                    #[verifier::truncate]
                    let declared: usize = size as usize;
                    declared
                },
                None => 0,
            }
        },
    }
}

/// Flattens a boundary result to the single integer code the foreign
/// caller sees: the number of bytes to write on success, `-1` on any
/// failure.
pub fn result_code(r: &Result<Vec<u8>, CodecError>) -> (code: isize)
    ensures
        r matches Ok(bytes) ==> (bytes@.len() <= isize::MAX ==> code == bytes@.len()),
        r is Err ==> code == -1,
{
    match r {
        Ok(bytes) => {
            #[verifier::truncate]
            let written: isize = bytes.len() as isize;
            written
        },
        Err(_) => -1,
    }
}

/// Round-trip law: compressing a source the codec accepts, with room for
/// the worst case, and then decompressing with room for the source, gives
/// back the source bytes exactly — at every compression level.
pub fn round_trip(src: &[u8], level: i32) -> (r: Vec<u8>)
    requires
        src@.len() < max_source_len(),
        compressed_size_bound(src@.len()) <= isize::MAX,
    ensures
        r@ == src@,
{
    let worst_case = compress_bound(src.len());
    let frame = match compress(Some(src), true, worst_case, level) {
        Ok(frame) => frame,
        Err(_) => {
            proof {
                assert(false);
            }
            Vec::new()
        },
    };
    match decompress(Some(frame.as_slice()), true, src.len()) {
        Ok(out) => out,
        Err(_) => {
            proof {
                assert(false);
            }
            Vec::new()
        },
    }
}

/// Declared-size law: a frame the compressor makes declares exactly the
/// length of the source it was made from, and the declared size is read
/// back without decompressing.
pub fn compressed_frame_declares_source_len(src: &[u8], level: i32) -> (r: usize)
    requires
        src@.len() < max_source_len(),
        compressed_size_bound(src@.len()) <= isize::MAX,
    ensures
        r == src@.len(),
{
    let worst_case = compress_bound(src.len());
    let frame = match compress(Some(src), true, worst_case, level) {
        Ok(frame) => frame,
        Err(_) => {
            proof {
                assert(false);
            }
            Vec::new()
        },
    };
    get_decompressed_size(Some(frame.as_slice()))
}

} // verus!
