use deep_freeze::chunking::{
    calculate_chunk_count, chunk_math, chunk_part, ChunkError, MAX_CHUNKS, MAX_CHUNK_SIZE,
    MAX_UPLOAD_SIZE, MIN_CHUNK_SIZE,
};
use deep_freeze::upload::{choose_upload_method, multipart_parts, UploadError, UploadMethod};

#[test]
fn ten_million_bytes_make_two_chunks() {
    let (chunk_size, chunk_count, last) = chunk_math(10_000_000).unwrap();
    assert_eq!(chunk_size, 5_242_880);
    assert_eq!(chunk_count, 2);
    assert_eq!(last, 4_757_120);
    assert_eq!(chunk_size + last, 10_000_000);
}

#[test]
fn empty_file_has_no_plan() {
    assert_eq!(chunk_math(0), Err(ChunkError::EmptyFile));
    assert_eq!(calculate_chunk_count(0, MIN_CHUNK_SIZE), Err(ChunkError::EmptyFile));
}

#[test]
fn even_division_has_full_last_chunk() {
    assert_eq!(calculate_chunk_count(3 * MIN_CHUNK_SIZE, MIN_CHUNK_SIZE), Ok((3, MIN_CHUNK_SIZE)));
    assert_eq!(calculate_chunk_count(10, 3), Ok((4, 1)));
}

#[test]
fn one_byte_file_is_one_chunk() {
    assert_eq!(chunk_math(1), Ok((MIN_CHUNK_SIZE, 1, 1)));
}

#[test]
fn chunk_size_doubles_for_large_files() {
    let size = 10_001 * MIN_CHUNK_SIZE;
    let (chunk_size, chunk_count, last) = chunk_math(size).unwrap();
    assert_eq!(chunk_size, 2 * MIN_CHUNK_SIZE);
    assert!(chunk_count <= MAX_CHUNKS);
    assert_eq!((chunk_count - 1) * chunk_size + last, size);
}

#[test]
fn largest_upload_stays_within_limits() {
    let size = MAX_UPLOAD_SIZE - 1;
    let (chunk_size, chunk_count, last) = chunk_math(size).unwrap();
    assert_eq!(chunk_size, 128 * MIN_CHUNK_SIZE);
    assert!(chunk_size < MAX_CHUNK_SIZE);
    assert_eq!(chunk_count, 8192);
    assert_eq!(last, chunk_size - 1);
    assert_eq!((chunk_count - 1) * chunk_size + last, size);
}

#[test]
fn size_just_past_ten_thousand_chunks_doubles() {
    assert_eq!(chunk_math(10_000 * MIN_CHUNK_SIZE + 1), Ok((10_485_760, 5_001, 1)));
    assert_eq!(chunk_math(10_000 * MIN_CHUNK_SIZE), Ok((MIN_CHUNK_SIZE, 10_000, MIN_CHUNK_SIZE)));
}

#[test]
fn count_past_the_part_limit_is_refused() {
    assert_eq!(calculate_chunk_count(MAX_CHUNKS + 1, 1), Err(ChunkError::ChunkCountExceeded));
    assert_eq!(chunk_math(u64::MAX), Err(ChunkError::ChunkCountExceeded));
}

#[test]
fn plans_cover_sampled_sizes() {
    let sizes = [1u64, 52_428_800_001, 104_857_600_001, 5_242_879, 5_242_880, 5_242_881, 99_999_999, 52_428_800_000, 1 << 40, MAX_UPLOAD_SIZE - 1];
    for size in sizes {
        let (c, n, last) = chunk_math(size).unwrap();
        assert!(c >= MIN_CHUNK_SIZE && c <= MAX_CHUNK_SIZE);
        assert!(n >= 1 && n <= MAX_CHUNKS);
        assert!(last > 0 && last <= c);
        assert_eq!((n - 1) * c + last, size);
    }
}

#[test]
fn parts_are_numbered_from_one_and_tile_the_file() {
    let parts = multipart_parts(5_242_880, 2, 4_757_120);
    assert_eq!(parts.len(), 2);
    assert_eq!((parts[0].part_number, parts[0].offset, parts[0].length), (1, 0, 5_242_880));
    assert_eq!((parts[1].part_number, parts[1].offset, parts[1].length), (2, 5_242_880, 4_757_120));
    let p = chunk_part(5_242_880, 2, 4_757_120, 1);
    assert_eq!(p, parts[1]);
}

#[test]
fn small_files_go_in_one_request() {
    assert_eq!(choose_upload_method(0), Ok(UploadMethod::SinglePart));
    assert_eq!(choose_upload_method(MIN_CHUNK_SIZE - 1), Ok(UploadMethod::SinglePart));
}

#[test]
fn larger_files_go_multipart() {
    assert_eq!(
        choose_upload_method(10_000_000),
        Ok(UploadMethod::Multipart { chunk_size: 5_242_880, chunk_count: 2, size_of_last_chunk: 4_757_120 })
    );
}

#[test]
fn files_at_the_object_limit_are_refused() {
    assert_eq!(choose_upload_method(MAX_UPLOAD_SIZE), Err(UploadError::FileTooLarge));
    assert_eq!(
        choose_upload_method(10_000 * MIN_CHUNK_SIZE + 1),
        Ok(UploadMethod::Multipart { chunk_size: 10_485_760, chunk_count: 5_001, size_of_last_chunk: 1 })
    );
}
