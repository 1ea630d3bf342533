//! Counts and sizes over the state store's records, and the status report
//! built from them.
use vstd::prelude::*;
use crate::record::{FileRecord, MigrationStatus};

verus! {

pub open spec fn migrated_count(s: Seq<FileRecord>) -> nat
    decreases s.len(),
{
    if s.len() == 0 {
        0
    } else {
        migrated_count(s.drop_last()) + if s.last().status == MigrationStatus::Migrated { 1nat } else { 0nat }
    }
}

/// Sum of the recorded source sizes of the records that `migrated` selects:
/// `Some(true)` the migrated ones, `Some(false)` the others, `None` all.
pub open spec fn size_sum(s: Seq<FileRecord>, migrated: Option<bool>) -> nat
    decreases s.len(),
{
    if s.len() == 0 {
        0
    } else {
        let counts = match migrated {
            Some(m) => (s.last().status == MigrationStatus::Migrated) == m,
            None => true,
        };
        size_sum(s.drop_last(), migrated) + if counts { s.last().source_size as nat } else { 0nat }
    }
}

proof fn lemma_size_sum_bound(s: Seq<FileRecord>, migrated: Option<bool>)
    ensures
        size_sum(s, migrated) <= s.len() * (u64::MAX as nat),
        size_sum(s, migrated) <= size_sum(s, None),
    decreases s.len(),
{
    if s.len() > 0 {
        lemma_size_sum_bound(s.drop_last(), migrated);
    }
}

proof fn lemma_size_split(s: Seq<FileRecord>)
    ensures
        size_sum(s, Some(true)) + size_sum(s, Some(false)) == size_sum(s, None),
        migrated_count(s) <= s.len(),
    decreases s.len(),
{
    if s.len() > 0 {
        lemma_size_split(s.drop_last());
    }
}

/// Number of records.
pub fn count_rows(records: &Vec<FileRecord>) -> (n: usize)
    ensures
        n == records@.len(),
{
    records.len()
}

/// Number of records with status `Migrated`.
pub fn count_migrated(records: &Vec<FileRecord>) -> (n: usize)
    ensures
        n == migrated_count(records@),
{
    let mut n: usize = 0;
    let mut i: usize = 0;
    while i < records.len()
        invariant
            i <= records@.len(),
            n == migrated_count(records@.subrange(0, i as int)),
            n <= i,
        decreases records@.len() - i,
    {
        proof {
            assert(records@.subrange(0, i + 1).drop_last() =~= records@.subrange(0, i as int));
        }
        if records[i].status == MigrationStatus::Migrated {
            n = n + 1;
        }
        i = i + 1;
    }
    proof {
        assert(records@.subrange(0, records@.len() as int) =~= records@);
    }
    n
}

/// Number of records not yet `Migrated`.
pub fn count_unmigrated(records: &Vec<FileRecord>) -> (n: usize)
    ensures
        n == records@.len() - migrated_count(records@),
{
    proof {
        lemma_size_split(records@);
    }
    records.len() - count_migrated(records)
}

fn sum_sizes(records: &Vec<FileRecord>, migrated: Option<bool>) -> (total: u128)
    ensures
        total == size_sum(records@, migrated),
{
    let mut total: u128 = 0;
    let mut i: usize = 0;
    while i < records.len()
        invariant
            i <= records@.len(),
            total == size_sum(records@.subrange(0, i as int), migrated),
        decreases records@.len() - i,
    {
        proof {
            let prefix = records@.subrange(0, i as int);
            assert(records@.subrange(0, i + 1).drop_last() =~= prefix);
            lemma_size_sum_bound(prefix, migrated);
            assert(i * (u64::MAX as nat) <= (usize::MAX as nat) * (u64::MAX as nat)) by (nonlinear_arith)
                requires
                    i <= usize::MAX,
            ;
        }
        let r = &records[i];
        let counts = match migrated {
            Some(m) => (r.status == MigrationStatus::Migrated) == m,
            None => true,
        };
        if counts {
            total = total + r.source_size as u128;
        }
        i = i + 1;
    }
    proof {
        assert(records@.subrange(0, records@.len() as int) =~= records@);
    }
    total
}

/// Sum of all recorded source sizes.
pub fn get_total_size(records: &Vec<FileRecord>) -> (total: u128)
    ensures
        total == size_sum(records@, None),
{
    sum_sizes(records, None)
}

/// Sum of the recorded source sizes of the migrated records.
pub fn get_migrated_size(records: &Vec<FileRecord>) -> (total: u128)
    ensures
        total == size_sum(records@, Some(true)),
{
    sum_sizes(records, Some(true))
}

/// Sum of the recorded source sizes of the records not yet migrated.
pub fn get_unmigrated_size(records: &Vec<FileRecord>) -> (total: u128)
    ensures
        total == size_sum(records@, Some(false)),
{
    sum_sizes(records, Some(false))
}

/// The first record with the given source identifier.
pub open spec fn index_of_id(records: Seq<FileRecord>, id: Seq<char>) -> Option<int> {
    if exists|i: int| 0 <= i < records.len() && (#[trigger] records[i]).source_id@ == id {
        Some(choose|i: int| 0 <= i < records.len() && (#[trigger] records[i]).source_id@ == id
            && forall|j: int| 0 <= j < i ==> (#[trigger] records[j]).source_id@ != id)
    } else {
        None
    }
}

fn find_row(records: &Vec<FileRecord>, id: &String) -> (r: Option<usize>)
    ensures
        match r {
            Some(i) => i < records@.len() && records@[i as int].source_id@ == id@ && forall|j: int|
                0 <= j < i ==> (#[trigger] records@[j]).source_id@ != id@,
            None => forall|j: int| 0 <= j < records@.len() ==> (#[trigger] records@[j]).source_id@ != id@,
        },
{
    let mut i: usize = 0;
    while i < records.len()
        invariant
            i <= records@.len(),
            forall|j: int| 0 <= j < i ==> (#[trigger] records@[j]).source_id@ != id@,
        decreases records@.len() - i,
    {
        if records[i].source_id == *id {
            return Some(i);
        }
        i = i + 1;
    }
    None
}

/// The record with the given source identifier, if the store has one.
pub fn get_row(records: &Vec<FileRecord>, id: &String) -> (r: Option<FileRecord>)
    ensures
        match r {
            Some(row) => exists|i: int| 0 <= i < records@.len() && records@[i] == row && row.source_id@ == id@,
            None => forall|j: int| 0 <= j < records@.len() ==> (#[trigger] records@[j]).source_id@ != id@,
        },
{
    match find_row(records, id) {
        Some(i) => Some(records[i].copy()),
        None => None,
    }
}

/// The recorded source size of the file with the given identifier.
pub fn get_dropbox_size(records: &Vec<FileRecord>, id: &String) -> (r: Option<u64>)
    ensures
        match r {
            Some(size) => exists|i: int|
                0 <= i < records@.len() && records@[i].source_size == size && records@[i].source_id@ == id@,
            None => forall|j: int| 0 <= j < records@.len() ==> (#[trigger] records@[j]).source_id@ != id@,
        },
{
    match find_row(records, id) {
        Some(i) => Some(records[i].source_size),
        None => None,
    }
}

/// Share of the total size already migrated, in whole percent, rounded down.
/// Beyond the range where `100 * migrated` fits, the total is scaled down first.
pub open spec fn progress_percent(migrated: u128, total: u128) -> u128 {
    if total == 0 {
        0
    } else if migrated <= u128::MAX / 100 {
        ((100 * migrated) / (total as int)) as u128
    } else {
        (migrated / (total / 100)) as u128
    }
}

/// What the status report shows.
#[derive(Debug, Clone, Copy, PartialEq, Eq, Structural)]
pub struct StatusReport {
    pub total_rows: usize,
    pub total_size: u128,
    pub migrated_rows: usize,
    pub migrated_size: u128,
    pub unmigrated_rows: usize,
    pub unmigrated_size: u128,
    pub percent: u128,
}

/// Totals for the whole store, the migrated part and the rest.
pub fn report_status(records: &Vec<FileRecord>) -> (r: StatusReport)
    ensures
        r.total_rows == records@.len(),
        r.total_size == size_sum(records@, None),
        r.migrated_rows == migrated_count(records@),
        r.migrated_size == size_sum(records@, Some(true)),
        r.unmigrated_rows == records@.len() - migrated_count(records@),
        r.unmigrated_size == size_sum(records@, Some(false)),
        r.percent == progress_percent(r.migrated_size, r.total_size),
        r.migrated_size <= r.total_size,
        r.percent <= 100,
{
    let total_rows = count_rows(records);
    let total_size = get_total_size(records);
    let migrated_rows = count_migrated(records);
    let migrated_size = get_migrated_size(records);
    let unmigrated_size = get_unmigrated_size(records);
    proof {
        lemma_size_split(records@);
    }
    let unmigrated_rows = total_rows - migrated_rows;
    let percent: u128 = if total_size == 0 {
        0
    } else if migrated_size <= u128::MAX / 100 {
        proof {
            assert((100 * migrated_size) / (total_size as int) <= 100) by (nonlinear_arith)
                requires
                    migrated_size <= total_size,
                    total_size > 0,
            ;
        }
        (100 * migrated_size) / total_size
    } else {
        proof {
            let t = total_size as int;
            let m = migrated_size as int;
            let d = t / 100;
            vstd::arithmetic::div_mod::lemma_fundamental_div_mod(t, 100);
            vstd::arithmetic::div_mod::lemma_mod_pos_bound(t, 100);
            assert(d >= 100);
            vstd::arithmetic::div_mod::lemma_fundamental_div_mod(m, d);
            vstd::arithmetic::div_mod::lemma_mod_pos_bound(m, d);
            let q = m / d;
            assert(q <= 100) by (nonlinear_arith)
                requires
                    m == d * q + m % d,
                    m % d >= 0,
                    m <= t,
                    t == 100 * d + t % 100,
                    t % 100 < 100,
                    d >= 100,
            ;
        }
        migrated_size / (total_size / 100)
    };
    StatusReport {
        total_rows,
        total_size,
        migrated_rows,
        migrated_size,
        unmigrated_rows,
        unmigrated_size,
        percent,
    }
}

} // verus!
