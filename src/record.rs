//! The per-file record kept in the state store.
use vstd::prelude::*;

verus! {

/// Where a file stands in the migration.
#[derive(Debug, Clone, Copy, PartialEq, Eq, Structural)]
pub enum MigrationStatus {
    /// Not yet checked against the destination.
    Unverified,
    /// The destination lacks a correct copy.
    NeedsTransfer,
    /// The destination holds an object of the recorded source size.
    Migrated,
}

impl MigrationStatus {
    /// The integer stored for the status.
    pub open spec fn spec_code(self) -> int {
        match self {
            MigrationStatus::Unverified => -1,
            MigrationStatus::NeedsTransfer => 0,
            MigrationStatus::Migrated => 1,
        }
    }

    pub fn code(&self) -> (c: i64)
        ensures
            c == self.spec_code(),
    {
        match self {
            MigrationStatus::Unverified => -1,
            MigrationStatus::NeedsTransfer => 0,
            MigrationStatus::Migrated => 1,
        }
    }

    /// Reads a stored status back; codes other than -1, 0 and 1 name no status.
    pub fn from_code(code: i64) -> (r: Option<MigrationStatus>)
        ensures
            r is None <==> !(-1 <= code <= 1),
            r matches Some(s) ==> s.spec_code() == code,
    {
        if code == -1 {
            Some(MigrationStatus::Unverified)
        } else if code == 0 {
            Some(MigrationStatus::NeedsTransfer)
        } else if code == 1 {
            Some(MigrationStatus::Migrated)
        } else {
            None
        }
    }
}

/// One source file and what is known of its copy at the destination.
#[derive(Debug)]
pub struct FileRecord {
    /// Stable identifier that the source assigned; never reused.
    pub source_id: String,
    /// Path at cataloging time; the destination key derives from it.
    pub source_path: String,
    /// Size recorded at cataloging time, the ground truth for comparisons.
    pub source_size: u64,
    pub source_content_hash: String,
    pub status: MigrationStatus,
    /// Set when the file met a condition the engine cannot recover from in this run.
    pub skip: bool,
    pub destination_key: Option<String>,
    pub destination_size: Option<u64>,
}

/// Whether a record is picked by a migration pass.
pub open spec fn is_eligible(r: FileRecord) -> bool {
    r.status != MigrationStatus::Migrated && !r.skip
}

fn copy_opt_string(s: &Option<String>) -> (r: Option<String>)
    ensures
        r == *s,
{
    match s {
        Some(v) => Some(v.clone()),
        None => None,
    }
}

impl FileRecord {
    /// A freshly cataloged file: not yet verified, not skipped, nothing known
    /// of the destination.
    pub fn new(source_id: String, source_path: String, source_size: u64, source_content_hash: String) -> (r: FileRecord)
        ensures
            r.source_id == source_id,
            r.source_path == source_path,
            r.source_size == source_size,
            r.source_content_hash == source_content_hash,
            r.status == MigrationStatus::Unverified,
            !r.skip,
            r.destination_key is None,
            r.destination_size is None,
    {
        FileRecord {
            source_id,
            source_path,
            source_size,
            source_content_hash,
            status: MigrationStatus::Unverified,
            skip: false,
            destination_key: None,
            destination_size: None,
        }
    }

    /// A field-for-field copy.
    pub fn copy(&self) -> (r: FileRecord)
        ensures
            r == *self,
    {
        FileRecord {
            source_id: self.source_id.clone(),
            source_path: self.source_path.clone(),
            source_size: self.source_size,
            source_content_hash: self.source_content_hash.clone(),
            status: self.status,
            skip: self.skip,
            destination_key: copy_opt_string(&self.destination_key),
            destination_size: self.destination_size,
        }
    }

    /// Not yet migrated and not skipped.
    pub fn eligible(&self) -> (b: bool)
        ensures
            b == is_eligible(*self),
    {
        self.status != MigrationStatus::Migrated && !self.skip
    }

    pub fn set_migrated(&mut self)
        ensures
            *final(self) == (FileRecord { status: MigrationStatus::Migrated, ..*old(self) }),
    {
        self.status = MigrationStatus::Migrated;
    }

    pub fn set_unmigrated(&mut self)
        ensures
            *final(self) == (FileRecord { status: MigrationStatus::NeedsTransfer, ..*old(self) }),
    {
        self.status = MigrationStatus::NeedsTransfer;
    }

    pub fn set_skip(&mut self)
        ensures
            *final(self) == (FileRecord { skip: true, ..*old(self) }),
    {
        self.skip = true;
    }
}

} // verus!
