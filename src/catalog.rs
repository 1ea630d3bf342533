//! Turning pages of the source listing into new file records.
use vstd::prelude::*;
use crate::record::{FileRecord, MigrationStatus};

verus! {

/// Kind of a listing entry.
#[derive(Debug, Clone, Copy, PartialEq, Eq, Structural)]
pub enum EntryTag {
    File,
    Folder,
    Deleted,
}

/// One entry of a listing page, decoded from the source's response.
#[derive(Debug)]
pub struct CatalogEntry {
    pub tag: EntryTag,
    pub id: String,
    pub path_display: String,
    pub size: u64,
    pub content_hash: String,
}

/// One page of the source listing.
#[derive(Debug)]
pub struct ListingPage {
    pub entries: Vec<CatalogEntry>,
    pub has_more: bool,
    /// Continuation cursor for the next page.
    pub cursor: String,
}

pub open spec fn file_count(entries: Seq<CatalogEntry>) -> nat
    decreases entries.len(),
{
    if entries.len() == 0 {
        0
    } else {
        file_count(entries.drop_last()) + if entries.last().tag == EntryTag::File { 1nat } else { 0nat }
    }
}

/// The record a file entry becomes when first cataloged.
pub open spec fn record_of(e: CatalogEntry) -> FileRecord {
    FileRecord {
        source_id: e.id,
        source_path: e.path_display,
        source_size: e.size,
        source_content_hash: e.content_hash,
        status: MigrationStatus::Unverified,
        skip: false,
        destination_key: None,
        destination_size: None,
    }
}

/// The records for the file entries of a page, in listing order.
pub open spec fn records_of(entries: Seq<CatalogEntry>) -> Seq<FileRecord>
    decreases entries.len(),
{
    if entries.len() == 0 {
        Seq::empty()
    } else {
        let rest = records_of(entries.drop_last());
        if entries.last().tag == EntryTag::File {
            rest.push(record_of(entries.last()))
        } else {
            rest
        }
    }
}

/// Number of file entries on a page; folders and deleted entries do not count.
pub fn count_files(page: &ListingPage) -> (n: usize)
    ensures
        n == file_count(page.entries@),
{
    let entries = &page.entries;
    let mut n: usize = 0;
    let mut i: usize = 0;
    while i < entries.len()
        invariant
            i <= entries@.len(),
            n == file_count(entries@.subrange(0, i as int)),
            n <= i,
        decreases entries@.len() - i,
    {
        proof {
            assert(entries@.subrange(0, i + 1).drop_last() =~= entries@.subrange(0, i as int));
        }
        if entries[i].tag == EntryTag::File {
            n = n + 1;
        }
        i = i + 1;
    }
    proof {
        assert(entries@.subrange(0, entries@.len() as int) =~= entries@);
    }
    n
}

/// A new, unverified record for each file entry of a page.
pub fn file_records(page: &ListingPage) -> (records: Vec<FileRecord>)
    ensures
        records@ == records_of(page.entries@),
{
    let entries = &page.entries;
    let mut records: Vec<FileRecord> = Vec::new();
    let mut i: usize = 0;
    while i < entries.len()
        invariant
            i <= entries@.len(),
            records@ == records_of(entries@.subrange(0, i as int)),
        decreases entries@.len() - i,
    {
        proof {
            assert(entries@.subrange(0, i + 1).drop_last() =~= entries@.subrange(0, i as int));
            assert(entries@.subrange(0, i + 1).last() == entries@[i as int]);
        }
        let e = &entries[i];
        if e.tag == EntryTag::File {
            records.push(
                FileRecord::new(e.id.clone(), e.path_display.clone(), e.size, e.content_hash.clone()),
            );
        }
        i = i + 1;
    }
    proof {
        assert(entries@.subrange(0, entries@.len() as int) =~= entries@);
    }
    records
}

/// The cursor to continue the listing with, while the source reports more pages.
pub fn next_cursor(page: &ListingPage) -> (c: Option<String>)
    ensures
        page.has_more ==> c == Some(page.cursor),
        !page.has_more ==> c is None,
{
    if page.has_more {
        Some(page.cursor.clone())
    } else {
        None
    }
}

/// The catalog is built once: only while the store holds no record.
pub fn needs_catalog(row_count: usize) -> (b: bool)
    ensures
        b == (row_count == 0),
{
    row_count == 0
}

} // verus!
