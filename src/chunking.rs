//! Chunk planning for multipart uploads under the destination's protocol limits.
use vstd::prelude::*;

verus! {

/// Smallest part that a multipart upload accepts (5 MiB).
pub const MIN_CHUNK_SIZE: u64 = 5242880;

/// Largest part that a multipart upload accepts (5 GiB).
pub const MAX_CHUNK_SIZE: u64 = 5368709120;

/// Largest object the destination stores (5 TiB).
pub const MAX_UPLOAD_SIZE: u64 = 5497558138880;

/// Largest number of parts in one multipart upload.
pub const MAX_CHUNKS: u64 = 10000;

/// Why no chunk plan exists for a size.
#[derive(Debug, Clone, Copy, PartialEq, Eq, Structural)]
pub enum ChunkError {
    /// The file has no bytes.
    EmptyFile,
    /// Even the chosen chunk size needs more parts than the protocol allows.
    ChunkCountExceeded,
}

/// The chunk size reached from `chunk` by doubling while `MAX_CHUNKS` parts
/// of that size would still not hold `size` bytes.
pub open spec fn grown_chunk(size: int, chunk: int) -> int
    decreases size - chunk
    via grown_chunk_decreases
{
    if 0 < chunk && MAX_CHUNKS * chunk < size {
        grown_chunk(size, 2 * chunk)
    } else {
        chunk
    }
}

#[via_fn]
proof fn grown_chunk_decreases(size: int, chunk: int) {
    if 0 < chunk && MAX_CHUNKS * chunk < size {
        assert(0 <= size - 2 * chunk < size - chunk);
    }
}

/// The chunk size chosen for a file of `size` bytes.
pub open spec fn planned_chunk_size(size: int) -> int {
    let c = grown_chunk(size, MIN_CHUNK_SIZE as int);
    if c > MAX_CHUNK_SIZE {
        MAX_CHUNK_SIZE as int
    } else {
        c
    }
}

/// Number of parts of `chunk` bytes (the last one possibly shorter) that hold `size` bytes.
pub open spec fn chunk_count_of(size: int, chunk: int) -> int {
    if size % chunk == 0 {
        size / chunk
    } else {
        size / chunk + 1
    }
}

/// Length of the final part; never zero for a non-empty file.
pub open spec fn last_chunk_of(size: int, chunk: int) -> int {
    if size % chunk == 0 {
        chunk
    } else {
        size % chunk
    }
}

/// The outcome of splitting `size` bytes into parts of `chunk` bytes.
pub open spec fn chunk_count_result(size: u64, chunk: u64) -> Result<(u64, u64), ChunkError> {
    if size == 0 {
        Err(ChunkError::EmptyFile)
    } else if chunk_count_of(size as int, chunk as int) > MAX_CHUNKS {
        Err(ChunkError::ChunkCountExceeded)
    } else {
        Ok(
            (
                chunk_count_of(size as int, chunk as int) as u64,
                last_chunk_of(size as int, chunk as int) as u64,
            ),
        )
    }
}

/// The full plan (chunk size, chunk count, last chunk size) for a file of `size` bytes.
pub open spec fn chunk_plan(size: u64) -> Result<(u64, u64, u64), ChunkError> {
    let c = planned_chunk_size(size as int);
    match chunk_count_result(size, c as u64) {
        Ok((n, last)) => Ok((c as u64, n, last)),
        Err(e) => Err(e),
    }
}

proof fn lemma_div_facts(x: int, d: int)
    requires
        0 <= x,
        0 < d,
    ensures
        x == d * (x / d) + x % d,
        0 <= x % d < d,
        0 <= x / d,
{
    vstd::arithmetic::div_mod::lemma_fundamental_div_mod(x, d);
    vstd::arithmetic::div_mod::lemma_mod_pos_bound(x, d);
    vstd::arithmetic::div_mod::lemma_div_pos_is_pos(x, d);
}

/// Doubling never shrinks the chunk.
pub proof fn lemma_grown_chunk_at_least(size: int, chunk: int)
    requires
        0 < chunk,
    ensures
        chunk <= grown_chunk(size, chunk),
    decreases size - chunk,
{
    if MAX_CHUNKS * chunk < size {
        lemma_grown_chunk_at_least(size, 2 * chunk);
    }
}

/// The grown chunk meets the part-count bound: `MAX_CHUNKS` parts hold `size` bytes.
proof fn lemma_grown_chunk_meets_bound(size: int, chunk: int)
    requires
        0 < chunk,
    ensures
        size <= MAX_CHUNKS * grown_chunk(size, chunk),
    decreases size - chunk,
{
    if MAX_CHUNKS * chunk < size {
        lemma_grown_chunk_meets_bound(size, 2 * chunk);
    }
}

/// Splits `file_size` bytes into parts of `chunk_size` bytes: the number of
/// parts and the length of the last one, which is a whole chunk when the size
/// divides evenly.
pub fn calculate_chunk_count(file_size: u64, chunk_size: u64) -> (r: Result<(u64, u64), ChunkError>)
    requires
        chunk_size > 0,
    ensures
        r == chunk_count_result(file_size, chunk_size),
{
    if file_size == 0 {
        return Err(ChunkError::EmptyFile);
    }
    let quotient: u64 = file_size / chunk_size;
    let remainder: u64 = file_size % chunk_size;
    proof {
        lemma_div_facts(file_size as int, chunk_size as int);
        assert(quotient <= chunk_size * quotient) by (nonlinear_arith)
            requires
                chunk_size >= 1,
                quotient >= 0,
        ;
    }
    let (chunk_count, size_of_last_chunk) = if remainder == 0 {
        (quotient, chunk_size)
    } else {
        (quotient + 1, remainder)
    };
    if chunk_count > MAX_CHUNKS {
        return Err(ChunkError::ChunkCountExceeded);
    }
    Ok((chunk_count, size_of_last_chunk))
}

/// Chooses a chunk size for `file_size` bytes: starting from `MIN_CHUNK_SIZE`
/// it doubles while the part count would exceed `MAX_CHUNKS`, then is capped
/// at `MAX_CHUNK_SIZE`. Returns (chunk size, chunk count, last chunk size).
pub fn chunk_math(file_size: u64) -> (r: Result<(u64, u64, u64), ChunkError>)
    ensures
        r == chunk_plan(file_size),
{
    if file_size == 0 {
        return Err(ChunkError::EmptyFile);
    }
    let mut chunk_size: u64 = MIN_CHUNK_SIZE;
    let bound: u64 = (file_size - 1) / MAX_CHUNKS;
    proof {
        lemma_div_facts(file_size - 1, MAX_CHUNKS as int);
    }
    // `chunk_size <= bound` is `MAX_CHUNKS * chunk_size < file_size`, without overflow.
    while chunk_size <= bound
        invariant
            MIN_CHUNK_SIZE <= chunk_size,
            bound == (file_size - 1) / MAX_CHUNKS as int,
            file_size - 1 == MAX_CHUNKS * bound + (file_size - 1) % MAX_CHUNKS as int,
            0 <= (file_size - 1) % (MAX_CHUNKS as int) < MAX_CHUNKS,
            grown_chunk(file_size as int, chunk_size as int) == grown_chunk(
                file_size as int,
                MIN_CHUNK_SIZE as int,
            ),
        decreases file_size - chunk_size,
    {
        chunk_size = chunk_size * 2;
    }
    if chunk_size > MAX_CHUNK_SIZE {
        chunk_size = MAX_CHUNK_SIZE;
    }
    match calculate_chunk_count(file_size, chunk_size) {
        Ok((chunk_count, size_of_last_chunk)) => Ok((chunk_size, chunk_count, size_of_last_chunk)),
        Err(e) => Err(e),
    }
}

/// Every size from one byte up to the destination's object limit gets a
/// plan: a chunk size within the part limits, at most `MAX_CHUNKS` parts, a
/// last part that is never empty, and parts that add up to exactly the file.
/// An empty file has no plan.
pub proof fn lemma_chunk_plan_covers_file(size: u64)
    requires
        1 <= size < MAX_UPLOAD_SIZE,
    ensures
        chunk_plan(0) == Err::<(u64, u64, u64), ChunkError>(ChunkError::EmptyFile),
        chunk_plan(size) is Ok,
        ({
            let (c, n, last) = chunk_plan(size)->Ok_0;
            &&& MIN_CHUNK_SIZE <= c <= MAX_CHUNK_SIZE
            &&& 1 <= n <= MAX_CHUNKS
            &&& 0 < last <= c
            &&& (n - 1) * c + last == size
        }),
{
    let g = grown_chunk(size as int, MIN_CHUNK_SIZE as int);
    let c = planned_chunk_size(size as int);
    lemma_grown_chunk_at_least(size as int, MIN_CHUNK_SIZE as int);
    lemma_grown_chunk_meets_bound(size as int, MIN_CHUNK_SIZE as int);
    lemma_div_facts(size as int, c);
    let q = size as int / c;
    let r = size as int % c;
    // The bound on the parts: `MAX_CHUNKS` chunks of an uncapped size, and
    // the object limit (1024 chunks) for the capped one.
    let k: int = if g > MAX_CHUNK_SIZE { 1024 } else { MAX_CHUNKS as int };
    assert(size <= k * c);
    assert(q <= k) by (nonlinear_arith)
        requires
            size == c * q + r,
            0 <= r,
            size <= k * c,
            c > 0,
    ;
    if r == 0 {
        assert(q >= 1) by (nonlinear_arith)
            requires
                size == c * q,
                size >= 1,
                c > 0,
        ;
        assert((q - 1) * c + c == c * q) by (nonlinear_arith);
    } else {
        assert(q < k) by (nonlinear_arith)
            requires
                size == c * q + r,
                0 < r,
                size <= k * c,
                c > 0,
        ;
        assert((q + 1 - 1) * c == c * q) by (nonlinear_arith);
    }
}

/// One part of a multipart upload: its 1-based number and its byte range.
#[derive(Debug, Clone, Copy, PartialEq, Eq, Structural)]
pub struct ChunkPart {
    pub part_number: i32,
    pub offset: u64,
    pub length: u64,
}

/// The part at `chunk_index` (from 0) of a plan with `chunk_count` parts:
/// it starts at `chunk_index * chunk_size`, is numbered `chunk_index + 1`, and
/// holds a whole chunk except for the last part.
pub fn chunk_part(chunk_size: u64, chunk_count: u64, size_of_last_chunk: u64, chunk_index: u64) -> (p: ChunkPart)
    requires
        chunk_index < chunk_count <= MAX_CHUNKS,
        (chunk_count - 1) * chunk_size + size_of_last_chunk <= u64::MAX,
    ensures
        p.part_number == chunk_index + 1,
        p.offset == chunk_index * chunk_size,
        p.length == (if chunk_index == chunk_count - 1 { size_of_last_chunk } else { chunk_size }),
        p.offset + p.length <= (chunk_count - 1) * chunk_size + size_of_last_chunk,
{
    let this_chunk = if chunk_count - 1 == chunk_index {
        size_of_last_chunk
    } else {
        chunk_size
    };
    proof {
        assert(chunk_index * chunk_size <= (chunk_count - 1) * chunk_size) by (nonlinear_arith)
            requires
                chunk_index <= chunk_count - 1,
        ;
        if chunk_index < chunk_count - 1 {
            assert(chunk_index * chunk_size + chunk_size <= (chunk_count - 1) * chunk_size)
                by (nonlinear_arith)
                requires
                    chunk_index + 1 <= chunk_count - 1,
            ;
        }
    }
    let uploaded = chunk_index * chunk_size;
    ChunkPart { part_number: (chunk_index + 1) as i32, offset: uploaded, length: this_chunk }
}

} // verus!
