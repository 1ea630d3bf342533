//! The migration control loop as decisions over plain values: which records a
//! pass takes, how one file's session moves from step to step, and whether
//! another pass follows. The caller performs each requested action and feeds
//! its outcome back as an event.
use vstd::prelude::*;
use crate::record::{FileRecord, MigrationStatus, is_eligible};
use crate::reconcile::{DestinationProbe, Verdict, verdict_of, reconciled, check_migration_status, apply_verdict};

verus! {

/// Whether `id` is among the identifiers an operator asked to pass over.
pub open spec fn in_skip_list(id: Seq<char>, skip_ids: Seq<String>) -> bool {
    exists|i: int| 0 <= i < skip_ids.len() && (#[trigger] skip_ids[i])@ == id
}

/// Whether a pass takes the record.
pub open spec fn is_selected(r: FileRecord, skip_ids: Seq<String>) -> bool {
    is_eligible(r) && !in_skip_list(r.source_id@, skip_ids)
}

/// The records a pass takes, in their original order.
pub open spec fn selected(records: Seq<FileRecord>, skip_ids: Seq<String>) -> Seq<FileRecord>
    decreases records.len(),
{
    if records.len() == 0 {
        Seq::empty()
    } else {
        let rest = selected(records.drop_last(), skip_ids);
        if is_selected(records.last(), skip_ids) {
            rest.push(records.last())
        } else {
            rest
        }
    }
}

fn skip_list_contains(skip_ids: &Vec<String>, id: &String) -> (b: bool)
    ensures
        b == in_skip_list(id@, skip_ids@),
{
    let mut i: usize = 0;
    while i < skip_ids.len()
        invariant
            i <= skip_ids@.len(),
            forall|j: int| 0 <= j < i ==> (#[trigger] skip_ids@[j])@ != id@,
        decreases skip_ids@.len() - i,
    {
        if skip_ids[i] == *id {
            return true;
        }
        i = i + 1;
    }
    false
}

/// Lexicographic order of paths by code point: the order in which a pass
/// visits its files.
pub open spec fn path_le(a: Seq<char>, b: Seq<char>) -> bool
    decreases a.len(),
{
    if a.len() == 0 {
        true
    } else if b.len() == 0 {
        false
    } else if a[0] as u32 != b[0] as u32 {
        (a[0] as u32) < (b[0] as u32)
    } else {
        path_le(a.drop_first(), b.drop_first())
    }
}

/// Records ordered by source path.
pub open spec fn sorted_by_path(s: Seq<FileRecord>) -> bool {
    forall|i: int, j: int|
        #![trigger s[i], s[j]]
        0 <= i < j < s.len() ==> path_le(s[i].source_path@, s[j].source_path@)
}

/// Any two paths are ordered one way or the other.
pub proof fn lemma_path_le_total(a: Seq<char>, b: Seq<char>)
    ensures
        path_le(a, b) || path_le(b, a),
    decreases a.len(),
{
    if a.len() > 0 && b.len() > 0 && a[0] as u32 == b[0] as u32 {
        lemma_path_le_total(a.drop_first(), b.drop_first());
    }
}

/// The path order is transitive.
pub proof fn lemma_path_le_transitive(a: Seq<char>, b: Seq<char>, c: Seq<char>)
    requires
        path_le(a, b),
        path_le(b, c),
    ensures
        path_le(a, c),
    decreases a.len(),
{
    if a.len() > 0 && b.len() > 0 && c.len() > 0 && a[0] as u32 == b[0] as u32 && b[0] as u32
        == c[0] as u32 {
        lemma_path_le_transitive(a.drop_first(), b.drop_first(), c.drop_first());
    }
}

/// Compares two paths in the order of `path_le`.
pub fn path_le_exec(a: &String, b: &String) -> (r: bool)
    ensures
        r == path_le(a@, b@),
{
    let sa = a.as_str();
    let sb = b.as_str();
    let la = sa.unicode_len();
    let lb = sb.unicode_len();
    let mut i: usize = 0;
    proof {
        assert(a@.subrange(0, la as int) =~= a@);
        assert(b@.subrange(0, lb as int) =~= b@);
    }
    while i < la && i < lb
        invariant
            i <= la,
            i <= lb,
            la == a@.len(),
            lb == b@.len(),
            sa@ == a@,
            sb@ == b@,
            path_le(a@, b@) == path_le(a@.subrange(i as int, la as int), b@.subrange(i as int, lb as int)),
        decreases la - i,
    {
        let ca = sa.get_char(i);
        let cb = sb.get_char(i);
        proof {
            let ra = a@.subrange(i as int, la as int);
            let rb = b@.subrange(i as int, lb as int);
            assert(ra[0] == ca && rb[0] == cb);
            assert(ra.drop_first() =~= a@.subrange(i + 1, la as int));
            assert(rb.drop_first() =~= b@.subrange(i + 1, lb as int));
        }
        if ca as u32 != cb as u32 {
            return (ca as u32) < (cb as u32);
        }
        i = i + 1;
    }
    i == la
}

/// The first position whose path sorts after `path`; every record before it
/// sorts at or before `path`.
fn insertion_point(rows: &Vec<FileRecord>, path: &String) -> (pos: usize)
    ensures
        pos <= rows@.len(),
        forall|k: int| 0 <= k < pos ==> path_le((#[trigger] rows@[k]).source_path@, path@),
        pos < rows@.len() ==> !path_le(rows@[pos as int].source_path@, path@),
{
    let mut pos: usize = 0;
    while pos < rows.len()
        invariant
            pos <= rows@.len(),
            forall|k: int| 0 <= k < pos ==> path_le((#[trigger] rows@[k]).source_path@, path@),
        decreases rows@.len() - pos,
    {
        if !path_le_exec(&rows[pos].source_path, path) {
            return pos;
        }
        pos = pos + 1;
    }
    pos
}

proof fn lemma_insert_keeps_sorted(s: Seq<FileRecord>, pos: int, x: FileRecord)
    requires
        sorted_by_path(s),
        0 <= pos <= s.len(),
        forall|k: int| 0 <= k < pos ==> path_le((#[trigger] s[k]).source_path@, x.source_path@),
        pos < s.len() ==> !path_le(s[pos].source_path@, x.source_path@),
    ensures
        sorted_by_path(s.insert(pos, x)),
{
    let t = s.insert(pos, x);
    assert forall|k: int| 0 <= k < t.len() implies #[trigger] t[k] == (if k < pos {
        s[k]
    } else if k == pos {
        x
    } else {
        s[k - 1]
    }) by {}
    if pos < s.len() {
        lemma_path_le_total(s[pos].source_path@, x.source_path@);
    }
    assert forall|i: int, j: int| 0 <= i < j < t.len() implies path_le(
        (#[trigger] t[i]).source_path@,
        (#[trigger] t[j]).source_path@,
    ) by {
        if j > pos && i == pos && j - 1 > pos {
            lemma_path_le_transitive(x.source_path@, s[pos].source_path@, s[j - 1].source_path@);
        }
    }
}

/// The records a migration pass works on, ordered by source path: those
/// not migrated, not skipped, and not named in `skip_ids`.
pub fn get_unmigrated_rows(records: &Vec<FileRecord>, skip_ids: &Vec<String>) -> (rows: Vec<FileRecord>)
    ensures
        sorted_by_path(rows@),
        rows@.to_multiset() == selected(records@, skip_ids@).to_multiset(),
{
    let mut rows: Vec<FileRecord> = Vec::new();
    let mut i: usize = 0;
    while i < records.len()
        invariant
            i <= records@.len(),
            sorted_by_path(rows@),
            rows@.to_multiset() == selected(records@.subrange(0, i as int), skip_ids@).to_multiset(),
        decreases records@.len() - i,
    {
        let r = &records[i];
        let take = r.eligible() && !skip_list_contains(skip_ids, &r.source_id);
        proof {
            assert(records@.subrange(0, i + 1).drop_last() =~= records@.subrange(0, i as int));
            assert(records@.subrange(0, i + 1).last() == records@[i as int]);
        }
        let ghost prev = selected(records@.subrange(0, i as int), skip_ids@);
        if take {
            let pos = insertion_point(&rows, &r.source_path);
            proof {
                lemma_insert_keeps_sorted(rows@, pos as int, *r);
            }
            let ghost before = rows@;
            rows.insert(pos, r.copy());
            proof {
                assert(selected(records@.subrange(0, i + 1), skip_ids@) == prev.push(*r));
                assert(rows@ == before.insert(pos as int, *r));
                vstd::seq_lib::to_multiset_insert(before, pos as int, *r);
                vstd::seq_lib::to_multiset_build(prev, *r);
            }
        } else {
            proof {
                assert(selected(records@.subrange(0, i + 1), skip_ids@) == prev);
            }
        }
        i = i + 1;
    }
    proof {
        assert(records@.subrange(0, records@.len() as int) =~= records@);
    }
    rows
}

/// Where one file's session stands.
#[derive(Debug, Clone, Copy, PartialEq, Eq, Structural)]
pub enum Phase {
    /// Waiting for the destination's attributes before any transfer.
    Verifying,
    /// Waiting for the staging file to be fetched from the source.
    Downloading,
    /// Waiting for the staging file to be pushed to the destination.
    Uploading,
    /// Waiting for the destination's attributes after the upload.
    Reverifying,
    Done,
}

/// The outcome of the action a phase asked for.
#[derive(Debug, Clone, Copy, PartialEq, Eq, Structural)]
pub enum Event {
    Probed(DestinationProbe),
    /// The download finished and passed its integrity check, or did not.
    Downloaded(bool),
    /// The upload finished, or failed.
    Uploaded(bool),
}

/// The action a phase asks the caller to perform.
#[derive(Debug, Clone, Copy, PartialEq, Eq, Structural)]
pub enum Action {
    ProbeDestination,
    Download,
    Upload,
    Finished,
}

/// Side effects that accompany a step, besides the record's new state.
#[derive(Debug, Clone, Copy, PartialEq, Eq, Structural)]
pub struct Effects {
    /// Delete the object at the destination key.
    pub delete_destination: bool,
    /// Delete the local staging copy.
    pub delete_staging: bool,
}

pub open spec fn no_effects() -> Effects {
    Effects { delete_destination: false, delete_staging: false }
}

pub open spec fn action_of(phase: Phase) -> Action {
    match phase {
        Phase::Verifying => Action::ProbeDestination,
        Phase::Reverifying => Action::ProbeDestination,
        Phase::Downloading => Action::Download,
        Phase::Uploading => Action::Upload,
        Phase::Done => Action::Finished,
    }
}

/// One step of a session: the next phase, the record after it, and the effects.
pub open spec fn session_step(phase: Phase, r: FileRecord, event: Event, check_only: bool) -> (Phase, FileRecord, Effects) {
    match (phase, event) {
        (Phase::Verifying, Event::Probed(p)) => {
            let v = verdict_of(r.source_size, p);
            let after = reconciled(r, v);
            match v {
                Verdict::Migrated => (Phase::Done, after, Effects { delete_destination: false, delete_staging: true }),
                Verdict::Fault => (Phase::Done, after, no_effects()),
                _ => (
                    if check_only { Phase::Done } else { Phase::Downloading },
                    after,
                    Effects { delete_destination: v.spec_deletes_destination(), delete_staging: false },
                ),
            }
        },
        (Phase::Downloading, Event::Downloaded(ok)) => if ok {
            (Phase::Uploading, r, no_effects())
        } else {
            (Phase::Done, FileRecord { skip: true, ..r }, no_effects())
        },
        (Phase::Uploading, Event::Uploaded(ok)) => if ok {
            (Phase::Reverifying, r, no_effects())
        } else {
            (
                Phase::Done,
                FileRecord { status: MigrationStatus::NeedsTransfer, skip: true, ..r },
                no_effects(),
            )
        },
        (Phase::Reverifying, Event::Probed(p)) => {
            let v = verdict_of(r.source_size, p);
            let after = reconciled(r, v);
            match v {
                Verdict::Migrated => (Phase::Done, after, Effects { delete_destination: false, delete_staging: true }),
                Verdict::Fault => (Phase::Done, after, no_effects()),
                _ => (
                    Phase::Done,
                    FileRecord { skip: true, ..after },
                    Effects { delete_destination: v.spec_deletes_destination(), delete_staging: true },
                ),
            }
        },
        _ => (phase, r, no_effects()),
    }
}

/// One file's pass through verify, download, upload and reverify.
#[derive(Debug)]
pub struct MigrationSession {
    pub record: FileRecord,
    pub phase: Phase,
    /// Verify only: never transfer.
    pub check_only: bool,
}

impl MigrationSession {
    /// A session always begins by verifying: the recorded status is not trusted.
    pub fn new(record: FileRecord, check_only: bool) -> (s: MigrationSession)
        ensures
            s.record == record,
            s.phase == Phase::Verifying,
            s.check_only == check_only,
    {
        MigrationSession { record, phase: Phase::Verifying, check_only }
    }

    pub fn pending_action(&self) -> (a: Action)
        ensures
            a == action_of(self.phase),
    {
        match self.phase {
            Phase::Verifying => Action::ProbeDestination,
            Phase::Reverifying => Action::ProbeDestination,
            Phase::Downloading => Action::Download,
            Phase::Uploading => Action::Upload,
            Phase::Done => Action::Finished,
        }
    }

    /// Feeds the outcome of the pending action into the session. An event
    /// that does not answer the pending action changes nothing.
    pub fn advance(&mut self, event: Event) -> (e: Effects)
        ensures
            final(self).check_only == old(self).check_only,
            (final(self).phase, final(self).record, e) == session_step(
                old(self).phase,
                old(self).record,
                event,
                old(self).check_only,
            ),
    {
        match (self.phase, event) {
            (Phase::Verifying, Event::Probed(p)) => {
                let v = check_migration_status(&self.record, p);
                apply_verdict(&mut self.record, v);
                match v {
                    Verdict::Migrated => {
                        self.phase = Phase::Done;
                        Effects { delete_destination: false, delete_staging: true }
                    },
                    Verdict::Fault => {
                        self.phase = Phase::Done;
                        Effects { delete_destination: false, delete_staging: false }
                    },
                    _ => {
                        self.phase = if self.check_only { Phase::Done } else { Phase::Downloading };
                        Effects { delete_destination: v.deletes_destination(), delete_staging: false }
                    },
                }
            },
            (Phase::Downloading, Event::Downloaded(ok)) => {
                if ok {
                    self.phase = Phase::Uploading;
                } else {
                    self.record.set_skip();
                    self.phase = Phase::Done;
                }
                Effects { delete_destination: false, delete_staging: false }
            },
            (Phase::Uploading, Event::Uploaded(ok)) => {
                if ok {
                    self.phase = Phase::Reverifying;
                } else {
                    self.record.set_unmigrated();
                    self.record.set_skip();
                    self.phase = Phase::Done;
                }
                Effects { delete_destination: false, delete_staging: false }
            },
            (Phase::Reverifying, Event::Probed(p)) => {
                let v = check_migration_status(&self.record, p);
                apply_verdict(&mut self.record, v);
                self.phase = Phase::Done;
                match v {
                    Verdict::Migrated => Effects { delete_destination: false, delete_staging: true },
                    Verdict::Fault => Effects { delete_destination: false, delete_staging: false },
                    _ => {
                        self.record.set_skip();
                        Effects { delete_destination: v.deletes_destination(), delete_staging: true }
                    },
                }
            },
            _ => Effects { delete_destination: false, delete_staging: false },
        }
    }
}

/// What follows a completed pass.
#[derive(Debug, Clone, Copy, PartialEq, Eq, Structural)]
pub enum PassDecision {
    /// Every record is migrated.
    AllMigrated,
    /// Records remain unmigrated, but all of them are skipped for this run.
    OnlySkippedRemain,
    /// Another pass has work to do.
    Repeat,
    /// The pass limit was reached with work left.
    PassLimitReached,
    /// The last pass left as many eligible records as it found.
    NoProgress,
}

pub open spec fn pass_decision(unmigrated: u64, eligible_before: u64, eligible_after: u64, passes_done: u64, max_passes: u64) -> PassDecision {
    if unmigrated == 0 {
        PassDecision::AllMigrated
    } else if eligible_after == 0 {
        PassDecision::OnlySkippedRemain
    } else if eligible_after >= eligible_before {
        PassDecision::NoProgress
    } else if passes_done >= max_passes {
        PassDecision::PassLimitReached
    } else {
        PassDecision::Repeat
    }
}

/// Decides after a pass whether to run another: only while eligible records
/// remain, the last pass made progress, and the pass limit is not reached.
pub fn next_pass(unmigrated: u64, eligible_before: u64, eligible_after: u64, passes_done: u64, max_passes: u64) -> (d: PassDecision)
    ensures
        d == pass_decision(unmigrated, eligible_before, eligible_after, passes_done, max_passes),
{
    if unmigrated == 0 {
        PassDecision::AllMigrated
    } else if eligible_after == 0 {
        PassDecision::OnlySkippedRemain
    } else if eligible_after >= eligible_before {
        PassDecision::NoProgress
    } else if passes_done >= max_passes {
        PassDecision::PassLimitReached
    } else {
        PassDecision::Repeat
    }
}

/// Running the migration on a set whose records are all `Migrated` selects no
/// record, so no session starts and nothing is downloaded or uploaded; the set
/// is left as it was, so a second run selects nothing either. A session whose
/// first probe confirms the recorded size ends at once without a transfer.
pub proof fn lemma_migrated_set_needs_no_transfer(records: Seq<FileRecord>, skip_ids: Seq<String>, r: FileRecord, check_only: bool)
    requires
        forall|i: int| 0 <= i < records.len() ==> (#[trigger] records[i]).status == MigrationStatus::Migrated,
    ensures
        selected(records, skip_ids).len() == 0,
        selected(records, skip_ids).to_multiset().len() == 0,
        session_step(Phase::Verifying, r, Event::Probed(DestinationProbe::Present(r.source_size)), check_only).0
            == Phase::Done,
        session_step(Phase::Verifying, r, Event::Probed(DestinationProbe::Present(r.source_size)), check_only).1.status
            == MigrationStatus::Migrated,
    decreases records.len(),
{
    broadcast use vstd::seq_lib::group_to_multiset_ensures;

    if records.len() > 0 {
        let prefix = records.drop_last();
        assert(records.last() == records[records.len() - 1]);
        lemma_migrated_set_needs_no_transfer(prefix, skip_ids, r, check_only);
    }
}

/// A destination object whose size differs from the recorded source size is
/// deleted and the record becomes `NeedsTransfer`; when the following
/// download and upload succeed and the new object has the recorded size, the
/// record ends `Migrated` and unskipped.
pub proof fn lemma_mismatch_is_replaced(r: FileRecord, found: u64)
    requires
        found != r.source_size,
        !r.skip,
    ensures
        ({
            let (p1, r1, e1) = session_step(Phase::Verifying, r, Event::Probed(DestinationProbe::Present(found)), false);
            let (p2, r2, _) = session_step(p1, r1, Event::Downloaded(true), false);
            let (p3, r3, _) = session_step(p2, r2, Event::Uploaded(true), false);
            let (p4, r4, e4) = session_step(p3, r3, Event::Probed(DestinationProbe::Present(r.source_size)), false);
            &&& e1.delete_destination
            &&& r1.status == MigrationStatus::NeedsTransfer
            &&& p1 == Phase::Downloading
            &&& p4 == Phase::Done
            &&& r4.status == MigrationStatus::Migrated
            &&& !r4.skip
            &&& !e4.delete_destination
            &&& e4.delete_staging
        }),
{
}

} // verus!
