//! Reconciles a record with what the destination actually holds.
use vstd::prelude::*;
use crate::record::{FileRecord, MigrationStatus};

verus! {

/// What a query for the destination object's attributes came back with.
#[derive(Debug, Clone, Copy, PartialEq, Eq, Structural)]
pub enum DestinationProbe {
    /// No object under the key.
    Missing,
    /// An object of this many bytes.
    Present(u64),
    /// Any other failure (permissions, service fault).
    Fault,
}

/// The true state of a file as the destination shows it.
#[derive(Debug, Clone, Copy, PartialEq, Eq, Structural)]
pub enum Verdict {
    /// The object exists with the recorded source size.
    Migrated,
    /// No object exists.
    NeedsTransfer,
    /// An object exists with another size: it is corrupt or incomplete.
    SizeMismatch(u64),
    /// The destination could not be queried.
    Fault,
}

pub open spec fn verdict_of(source_size: u64, probe: DestinationProbe) -> Verdict {
    match probe {
        DestinationProbe::Missing => Verdict::NeedsTransfer,
        DestinationProbe::Present(size) => if size == source_size {
            Verdict::Migrated
        } else {
            Verdict::SizeMismatch(size)
        },
        DestinationProbe::Fault => Verdict::Fault,
    }
}

/// How a verdict updates a file's entry: status `Migrated` when the object
/// matches, `NeedsTransfer` when it is missing or has another size, and the
/// skip flag on a fault.
pub open spec fn reconciled(r: FileRecord, v: Verdict) -> FileRecord {
    match v {
        Verdict::Migrated => FileRecord {
            status: MigrationStatus::Migrated,
            destination_size: Some(r.source_size),
            ..r
        },
        Verdict::NeedsTransfer => FileRecord {
            status: MigrationStatus::NeedsTransfer,
            destination_size: None,
            ..r
        },
        Verdict::SizeMismatch(_) => FileRecord {
            status: MigrationStatus::NeedsTransfer,
            destination_size: None,
            ..r
        },
        Verdict::Fault => FileRecord { skip: true, ..r },
    }
}

impl Verdict {
    /// The destination object must be deleted: it must not pass for a valid copy.
    pub open spec fn spec_deletes_destination(self) -> bool {
        self is SizeMismatch
    }

    /// The local staging copy is no longer needed.
    pub open spec fn spec_discards_staging(self) -> bool {
        self is Migrated
    }

    pub fn deletes_destination(&self) -> (b: bool)
        ensures
            b == self.spec_deletes_destination(),
    {
        match self {
            Verdict::SizeMismatch(_) => true,
            _ => false,
        }
    }

    pub fn discards_staging(&self) -> (b: bool)
        ensures
            b == self.spec_discards_staging(),
    {
        match self {
            Verdict::Migrated => true,
            _ => false,
        }
    }
}

/// Classifies a file by comparing the destination object with the recorded
/// source size.
pub fn check_migration_status(record: &FileRecord, probe: DestinationProbe) -> (v: Verdict)
    ensures
        v == verdict_of(record.source_size, probe),
{
    match probe {
        DestinationProbe::Missing => Verdict::NeedsTransfer,
        DestinationProbe::Present(size) => if size == record.source_size {
            Verdict::Migrated
        } else {
            Verdict::SizeMismatch(size)
        },
        DestinationProbe::Fault => Verdict::Fault,
    }
}

/// Brings the record in line with a verdict.
pub fn apply_verdict(record: &mut FileRecord, v: Verdict)
    ensures
        *final(record) == reconciled(*old(record), v),
{
    match v {
        Verdict::Migrated => {
            record.set_migrated();
            record.destination_size = Some(record.source_size);
        },
        Verdict::NeedsTransfer => {
            record.set_unmigrated();
            record.destination_size = None;
        },
        Verdict::SizeMismatch(_) => {
            record.set_unmigrated();
            record.destination_size = None;
        },
        Verdict::Fault => {
            record.set_skip();
        },
    }
}

/// A destination object whose size differs from the recorded source size is
/// deleted and leaves the record `NeedsTransfer`; once a re-upload yields an
/// object of the right size, the record becomes `Migrated`.
pub proof fn lemma_mismatch_then_reupload(r: FileRecord, found: u64)
    requires
        found != r.source_size,
    ensures
        verdict_of(r.source_size, DestinationProbe::Present(found)).spec_deletes_destination(),
        reconciled(r, verdict_of(r.source_size, DestinationProbe::Present(found))).status
            == MigrationStatus::NeedsTransfer,
        ({
            let after = reconciled(r, verdict_of(r.source_size, DestinationProbe::Present(found)));
            reconciled(after, verdict_of(after.source_size, DestinationProbe::Present(r.source_size))).status
                == MigrationStatus::Migrated
        }),
{
}

} // verus!
