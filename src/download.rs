//! Decisions of the resumable downloader: what to do with an existing staging
//! path, which byte range to request, and whether the bytes that arrived add
//! up to the source size.
use vstd::prelude::*;

verus! {

/// What the staging path holds before a download.
#[derive(Debug, Clone, Copy, PartialEq, Eq, Structural)]
pub enum LocalState {
    Absent,
    Directory,
    /// A regular file of this many bytes.
    File(u64),
}

/// How the staging file is brought to the source's contents.
#[derive(Debug, Clone, Copy, PartialEq, Eq, Structural)]
pub enum DownloadPlan {
    /// The staging file already has the expected size: no transfer at all.
    AlreadyComplete,
    /// Create (or truncate) the file and fetch every byte; a directory in the
    /// way is removed first.
    Fresh { remove_directory: bool },
    /// Open for append at `offset` and fetch the remaining bytes.
    Resume { offset: u64 },
}

pub open spec fn download_plan(local: LocalState, expected: u64) -> DownloadPlan {
    match local {
        LocalState::Absent => DownloadPlan::Fresh { remove_directory: false },
        LocalState::Directory => DownloadPlan::Fresh { remove_directory: true },
        LocalState::File(size) => if size == expected {
            DownloadPlan::AlreadyComplete
        } else if size < expected {
            DownloadPlan::Resume { offset: size }
        } else {
            DownloadPlan::Fresh { remove_directory: false }
        },
    }
}

/// Bytes kept from an earlier attempt under a plan.
pub open spec fn kept_bytes(plan: DownloadPlan, expected: u64) -> u64 {
    match plan {
        DownloadPlan::AlreadyComplete => expected,
        DownloadPlan::Fresh { .. } => 0,
        DownloadPlan::Resume { offset } => offset,
    }
}

/// Chooses how to download a file of `expected` bytes into a staging path in
/// state `local`.
pub fn plan_download(local: LocalState, expected: u64) -> (p: DownloadPlan)
    ensures
        p == download_plan(local, expected),
{
    match local {
        LocalState::Absent => DownloadPlan::Fresh { remove_directory: false },
        LocalState::Directory => DownloadPlan::Fresh { remove_directory: true },
        LocalState::File(size) => if size == expected {
            DownloadPlan::AlreadyComplete
        } else if size < expected {
            DownloadPlan::Resume { offset: size }
        } else {
            DownloadPlan::Fresh { remove_directory: false }
        },
    }
}

/// The byte range `[start, end)` to request from the source, or `None` when
/// nothing needs to be read.
pub fn requested_range(plan: DownloadPlan, expected: u64) -> (r: Option<(u64, u64)>)
    ensures
        plan is AlreadyComplete ==> r is None,
        !(plan is AlreadyComplete) ==> r == Some((kept_bytes(plan, expected), expected)),
{
    match plan {
        DownloadPlan::AlreadyComplete => None,
        DownloadPlan::Fresh { .. } => Some((0, expected)),
        DownloadPlan::Resume { offset } => Some((offset, expected)),
    }
}

/// Why a download attempt failed its integrity check.
#[derive(Debug, Clone, Copy, PartialEq, Eq, Structural)]
pub enum DownloadError {
    /// The stream delivered more bytes than the file has.
    Overrun,
    /// The bytes kept plus the bytes written differ from the expected size.
    SizeMismatch,
}

/// Byte counter of one download attempt.
#[derive(Debug, Clone, Copy, PartialEq, Eq, Structural)]
pub struct DownloadProgress {
    /// Bytes already in the staging file when the attempt began; never rewritten.
    pub kept: u64,
    /// Bytes appended by this attempt.
    pub written: u64,
    pub expected: u64,
}

impl DownloadProgress {
    pub open spec fn wf(self) -> bool {
        self.kept + self.written <= self.expected
    }

    /// Starts counting under a plan.
    pub fn start(plan: DownloadPlan, expected: u64) -> (p: DownloadProgress)
        requires
            plan is Resume ==> kept_bytes(plan, expected) <= expected,
        ensures
            p.wf(),
            p.kept == kept_bytes(plan, expected),
            p.written == 0,
            p.expected == expected,
    {
        let kept = match plan {
            DownloadPlan::AlreadyComplete => expected,
            DownloadPlan::Fresh { .. } => 0,
            DownloadPlan::Resume { offset } => offset,
        };
        DownloadProgress { kept, written: 0, expected }
    }

    /// Counts a chunk that arrived from the stream; one that would carry the
    /// file past its expected size is refused and leaves the counter as it was.
    pub fn record_chunk(&mut self, chunk_len: u64) -> (r: Result<(), DownloadError>)
        requires
            old(self).wf(),
        ensures
            final(self).wf(),
            final(self).kept == old(self).kept,
            final(self).expected == old(self).expected,
            old(self).kept + old(self).written + chunk_len <= old(self).expected ==> r is Ok
                && final(self).written == old(self).written + chunk_len,
            old(self).kept + old(self).written + chunk_len > old(self).expected ==> r
                == Err::<(), DownloadError>(DownloadError::Overrun) && *final(self) == *old(self),
    {
        if chunk_len > self.expected - self.kept - self.written {
            return Err(DownloadError::Overrun);
        }
        self.written = self.written + chunk_len;
        Ok(())
    }

    /// The integrity check at the end of the stream.
    pub fn finish(&self) -> (r: Result<(), DownloadError>)
        requires
            self.wf(),
        ensures
            r is Ok <==> self.kept + self.written == self.expected,
            r is Err ==> r == Err::<(), DownloadError>(DownloadError::SizeMismatch),
    {
        if self.written == self.expected - self.kept {
            Ok(())
        } else {
            Err(DownloadError::SizeMismatch)
        }
    }
}

/// A staging file of `k < expected` bytes is resumed: its first `k` bytes are
/// kept, the request covers exactly the `expected - k` bytes after them, and
/// an attempt passes its integrity check exactly when it wrote that many.
pub proof fn lemma_resume_fetches_only_missing_bytes(k: u64, expected: u64, p: DownloadProgress)
    requires
        k < expected,
        p.kept == kept_bytes(download_plan(LocalState::File(k), expected), expected),
        p.expected == expected,
    ensures
        download_plan(LocalState::File(k), expected) == (DownloadPlan::Resume { offset: k }),
        p.kept == k,
        (p.kept + p.written == p.expected) <==> p.written == expected - k,
{
}

/// A staging file that already has the expected size is used as it is: no
/// byte range is requested.
pub proof fn lemma_complete_file_is_not_fetched(expected: u64)
    ensures
        download_plan(LocalState::File(expected), expected) == DownloadPlan::AlreadyComplete,
{
}

} // verus!
