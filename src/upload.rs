//! Decisions of the chunked uploader: one request or a multipart session, and
//! the ordered parts of that session.
use vstd::prelude::*;
use crate::chunking::{
    chunk_math, chunk_plan, ChunkPart, MAX_CHUNKS, MAX_UPLOAD_SIZE, MIN_CHUNK_SIZE, chunk_part,
};

verus! {

/// How a staged file goes to the destination.
#[derive(Debug, Clone, Copy, PartialEq, Eq, Structural)]
pub enum UploadMethod {
    /// One request carrying the whole file.
    SinglePart,
    /// A multipart session under the given chunk plan.
    Multipart { chunk_size: u64, chunk_count: u64, size_of_last_chunk: u64 },
}

/// Why a file cannot be uploaded.
#[derive(Debug, Clone, Copy, PartialEq, Eq, Structural)]
pub enum UploadError {
    /// The file reaches the destination's object size limit.
    FileTooLarge,
}

pub open spec fn upload_method(size: u64) -> Result<UploadMethod, UploadError> {
    if size >= MAX_UPLOAD_SIZE {
        Err(UploadError::FileTooLarge)
    } else if size < MIN_CHUNK_SIZE {
        Ok(UploadMethod::SinglePart)
    } else {
        let (c, n, last) = chunk_plan(size)->Ok_0;
        Ok(UploadMethod::Multipart { chunk_size: c, chunk_count: n, size_of_last_chunk: last })
    }
}

/// Picks the upload path for a staged file of `size` bytes: files below one
/// minimum chunk go in a single request, larger ones through a multipart
/// session, and files at or above the object size limit are refused before
/// any network call.
pub fn choose_upload_method(size: u64) -> (r: Result<UploadMethod, UploadError>)
    ensures
        r == upload_method(size),
{
    if size >= MAX_UPLOAD_SIZE {
        return Err(UploadError::FileTooLarge);
    }
    if size < MIN_CHUNK_SIZE {
        return Ok(UploadMethod::SinglePart);
    }
    proof {
        crate::chunking::lemma_chunk_plan_covers_file(size);
    }
    match chunk_math(size) {
        Ok((chunk_size, chunk_count, size_of_last_chunk)) => Ok(
            UploadMethod::Multipart { chunk_size, chunk_count, size_of_last_chunk },
        ),
        Err(_) => {
            // Every size below the object limit has a plan.
            proof {
                assert(false);
            }
            Err(UploadError::FileTooLarge)
        },
    }
}

/// The part at `i` of a plan: numbered `i + 1`, starting at `i * chunk_size`,
/// a whole chunk long except for the last part.
pub open spec fn part_at(chunk_size: u64, chunk_count: u64, size_of_last_chunk: u64, i: int) -> ChunkPart {
    ChunkPart {
        part_number: (i + 1) as i32,
        offset: (i * chunk_size) as u64,
        length: if i == chunk_count - 1 {
            size_of_last_chunk
        } else {
            chunk_size
        },
    }
}

/// The parts of a multipart session, in upload order.
pub fn multipart_parts(chunk_size: u64, chunk_count: u64, size_of_last_chunk: u64) -> (parts: Vec<ChunkPart>)
    requires
        chunk_count <= MAX_CHUNKS,
        chunk_count > 0 ==> (chunk_count - 1) * chunk_size + size_of_last_chunk <= u64::MAX,
    ensures
        parts@.len() == chunk_count,
        forall|i: int|
            0 <= i < chunk_count ==> #[trigger] parts@[i] == part_at(
                chunk_size,
                chunk_count,
                size_of_last_chunk,
                i,
            ),
{
    let mut parts: Vec<ChunkPart> = Vec::new();
    let mut chunk_index: u64 = 0;
    while chunk_index < chunk_count
        invariant
            chunk_index <= chunk_count <= MAX_CHUNKS,
            chunk_count > 0 ==> (chunk_count - 1) * chunk_size + size_of_last_chunk <= u64::MAX,
            parts@.len() == chunk_index,
            forall|i: int|
                0 <= i < chunk_index ==> #[trigger] parts@[i] == part_at(
                    chunk_size,
                    chunk_count,
                    size_of_last_chunk,
                    i,
                ),
        decreases chunk_count - chunk_index,
    {
        let part = chunk_part(chunk_size, chunk_count, size_of_last_chunk, chunk_index);
        parts.push(part);
        chunk_index = chunk_index + 1;
    }
    parts
}

/// Every file from one minimum chunk up to the object limit goes multipart;
/// consecutive parts meet end to start, and the last part
/// ends exactly at the end of the file.
pub proof fn lemma_parts_tile_file(size: u64)
    requires
        MIN_CHUNK_SIZE <= size < MAX_UPLOAD_SIZE,
    ensures
        upload_method(size) matches Ok(UploadMethod::Multipart { chunk_size, chunk_count, size_of_last_chunk }) && ({
            &&& chunk_count >= 1
            &&& forall|i: int|
                0 <= i < chunk_count - 1 ==> #[trigger] part_at(chunk_size, chunk_count, size_of_last_chunk, i).offset
                    + part_at(chunk_size, chunk_count, size_of_last_chunk, i).length
                    == part_at(chunk_size, chunk_count, size_of_last_chunk, i + 1).offset
            &&& part_at(chunk_size, chunk_count, size_of_last_chunk, chunk_count - 1).offset
                + size_of_last_chunk == size
        }),
{
    crate::chunking::lemma_grown_chunk_at_least(size as int, MIN_CHUNK_SIZE as int);
    crate::chunking::lemma_chunk_plan_covers_file(size);
    let (c, n, last) = chunk_plan(size)->Ok_0;
    assert forall|i: int| 0 <= i < n - 1 implies #[trigger] part_at(c, n, last, i).offset + part_at(c, n, last, i).length
        == part_at(c, n, last, i + 1).offset by {
        assert(i * c + c == (i + 1) * c) by (nonlinear_arith);
        assert((i + 1) * c <= (n - 1) * c) by (nonlinear_arith)
            requires
                i + 1 <= n - 1,
                c >= 0,
        ;
        assert(0 <= i * c) by (nonlinear_arith)
            requires
                i >= 0,
                c >= 0,
        ;
    }
    assert(0 <= (n - 1) * c) by (nonlinear_arith)
        requires
            n >= 1,
            c >= 0,
    ;
}

} // verus!
