//! Shared progress record for the artifact download.
//!
//! The download task and any number of concurrent pollers share one
//! [`DownloadState`] value (the embedding application keeps it behind a lock
//! and calls these methods inside its critical sections). The task drives the
//! record through `begin`, `set_total`, `record_chunk`, and finally `finish`
//! or `fail`; pollers call `poll` to read the derived percentage.

use vstd::prelude::*;
use vstd::string::StringExecFns;

verus! {

/// Status of the artifact download. Exactly one state holds at any instant;
/// once the record leaves `Idle` it never returns there.
pub enum DownloadStatus {
    Idle,
    Downloading,
    Completed,
    Error(String),
}

/// The shared download record: status plus byte counters.
///
/// `chunk_log` is the ghost history of chunk lengths recorded so far; it ties
/// `downloaded_bytes` to the bytes the task has appended to the destination
/// file (the task writes each chunk in full before recording its length).
pub struct DownloadState {
    pub status: DownloadStatus,
    pub downloaded_bytes: u64,
    pub total_bytes: Option<u64>,
    pub chunk_log: Ghost<Seq<u64>>,
}

/// A download was requested while the record had already left `Idle`.
/// Duplicate requests are rejected rather than queued or restarted.
pub enum BeginError {
    AlreadyRequested,
}

/// Total length of a sequence of chunk lengths.
pub open spec fn sum_chunks(cs: Seq<u64>) -> int
    decreases cs.len(),
{
    if cs.len() == 0 {
        0
    } else {
        sum_chunks(cs.drop_last()) + cs.last()
    }
}

/// One transition the download task may make on a record that is
/// `Downloading`: learning the total, recording a chunk, finishing, or
/// failing. `begin` is deliberately not a step: it starts a new download.
pub open spec fn engine_step(pre: DownloadState, post: DownloadState) -> bool {
    &&& pre.status is Downloading
    &&& {
        ||| step_set_total(pre, post)
        ||| step_record_chunk(pre, post)
        ||| step_finish(pre, post)
        ||| step_fail(pre, post)
    }
}

/// The response headers arrived: only `total_bytes` may change.
pub open spec fn step_set_total(pre: DownloadState, post: DownloadState) -> bool {
    &&& post.status is Downloading
    &&& post.downloaded_bytes == pre.downloaded_bytes
    &&& post.chunk_log == pre.chunk_log
}

/// One chunk was appended to the destination file and accounted for.
pub open spec fn step_record_chunk(pre: DownloadState, post: DownloadState) -> bool {
    exists|len: u64|
        {
            &&& pre.downloaded_bytes + len <= u64::MAX
            &&& post.status is Downloading
            &&& post.downloaded_bytes == pre.downloaded_bytes + len
            &&& post.total_bytes == pre.total_bytes
            &&& post.chunk_log@ == #[trigger] pre.chunk_log@.push(len)
        }
}

/// The chunk sequence ended normally: the record becomes `Completed` when the
/// byte count matches any declared total, `Error` otherwise.
pub open spec fn step_finish(pre: DownloadState, post: DownloadState) -> bool {
    &&& post.downloaded_bytes == pre.downloaded_bytes
    &&& post.total_bytes == pre.total_bytes
    &&& post.chunk_log == pre.chunk_log
    &&& if pre.total_bytes matches Some(t) && t != pre.downloaded_bytes {
        post.status is Error
    } else {
        post.status is Completed
    }
}

/// An HTTP or I/O failure was reported: only the status changes.
pub open spec fn step_fail(pre: DownloadState, post: DownloadState) -> bool {
    &&& post.status is Error
    &&& post.downloaded_bytes == pre.downloaded_bytes
    &&& post.total_bytes == pre.total_bytes
    &&& post.chunk_log == pre.chunk_log
}

impl DownloadState {
    /// The record's invariant: the byte counter is the total of the recorded
    /// chunk lengths; an `Idle` record has counted nothing; a `Completed`
    /// record matches any declared total.
    pub open spec fn wf(self) -> bool {
        &&& self.downloaded_bytes == sum_chunks(self.chunk_log@)
        &&& (self.status is Idle ==> self.downloaded_bytes == 0 && self.total_bytes is None
            && self.chunk_log@ == Seq::<u64>::empty())
        &&& (self.status is Completed ==> (self.total_bytes matches Some(t)
            ==> self.downloaded_bytes == t))
    }

    /// Percentage derived from a snapshot of the record: 0 while idle, failed,
    /// or while the total is unknown or zero; 100 once completed; otherwise
    /// `floor(downloaded * 100 / total)`, clamped to 100.
    pub open spec fn spec_percent(self) -> int {
        match self.status {
            DownloadStatus::Downloading => match self.total_bytes {
                Some(t) => if t == 0 {
                    0int
                } else {
                    let raw = (self.downloaded_bytes as int * 100) / (t as int);
                    if raw > 100 {
                        100int
                    } else {
                        raw
                    }
                },
                None => 0int,
            },
            DownloadStatus::Completed => 100int,
            _ => 0int,
        }
    }

    /// A fresh record, as created once at application startup.
    pub fn new() -> (r: DownloadState)
        ensures
            r.wf(),
            r.status is Idle,
            r.downloaded_bytes == 0,
            r.total_bytes is None,
            r.chunk_log@ == Seq::<u64>::empty(),
    {
        DownloadState {
            status: DownloadStatus::Idle,
            downloaded_bytes: 0,
            total_bytes: None,
            chunk_log: Ghost(Seq::empty()),
        }
    }

    /// Request a download. Succeeds only from `Idle`, resetting the counters;
    /// a record that has already left `Idle` is left unchanged and the
    /// request is rejected.
    pub fn begin(&mut self) -> (r: Result<(), BeginError>)
        requires
            old(self).wf(),
        ensures
            final(self).wf(),
            old(self).status is Idle ==> {
                &&& r is Ok
                &&& final(self).status is Downloading
                &&& final(self).downloaded_bytes == 0
                &&& final(self).total_bytes is None
                &&& final(self).chunk_log@ == Seq::<u64>::empty()
            },
            !(old(self).status is Idle) ==> r is Err && *final(self) == *old(self),
    {
        match &self.status {
            DownloadStatus::Idle => {
                self.status = DownloadStatus::Downloading;
                self.downloaded_bytes = 0;
                self.total_bytes = None;
                self.chunk_log = Ghost(Seq::empty());
                Ok(())
            },
            _ => Err(BeginError::AlreadyRequested),
        }
    }

    /// Record the content length declared by the response headers (`None`
    /// when the server omits it).
    pub fn set_total(&mut self, total: Option<u64>)
        requires
            old(self).wf(),
            old(self).status is Downloading,
        ensures
            final(self).wf(),
            final(self).status is Downloading,
            final(self).total_bytes == total,
            final(self).downloaded_bytes == old(self).downloaded_bytes,
            final(self).chunk_log == old(self).chunk_log,
            engine_step(*old(self), *final(self)),
    {
        self.total_bytes = total;
    }

    /// Account for one chunk that was appended to the destination file.
    /// The byte counter never decreases.
    pub fn record_chunk(&mut self, len: u64)
        requires
            old(self).wf(),
            old(self).status is Downloading,
            old(self).downloaded_bytes + len <= u64::MAX,
        ensures
            final(self).wf(),
            final(self).status is Downloading,
            final(self).downloaded_bytes == old(self).downloaded_bytes + len,
            final(self).downloaded_bytes >= old(self).downloaded_bytes,
            final(self).total_bytes == old(self).total_bytes,
            final(self).chunk_log@ == old(self).chunk_log@.push(len),
            engine_step(*old(self), *final(self)),
    {
        proof {
            let cs = self.chunk_log@;
            assert(cs.push(len).drop_last() =~= cs);
            assert(sum_chunks(cs.push(len)) == sum_chunks(cs) + len);
        }
        self.downloaded_bytes = self.downloaded_bytes + len;
        self.chunk_log = Ghost(self.chunk_log@.push(len));
        proof {
            assert(self.chunk_log@ == old(self).chunk_log@.push(len));
            assert(step_record_chunk(*old(self), *self));
        }
    }

    /// The chunk sequence ended normally. The record becomes `Completed` only
    /// when the byte count matches any declared total; a transfer that ended
    /// short of the declared length becomes `Error` instead, so a `Completed`
    /// record always accounts for the whole declared artifact.
    pub fn finish(&mut self) -> (completed: bool)
        requires
            old(self).wf(),
            old(self).status is Downloading,
        ensures
            final(self).wf(),
            completed == !(old(self).total_bytes matches Some(t) && t != old(
                self,
            ).downloaded_bytes),
            completed ==> final(self).status is Completed,
            !completed ==> (final(self).status matches DownloadStatus::Error(m) && m@
                == "download ended before the declared length was reached"@),
            final(self).downloaded_bytes == old(self).downloaded_bytes,
            final(self).total_bytes == old(self).total_bytes,
            final(self).chunk_log == old(self).chunk_log,
            engine_step(*old(self), *final(self)),
    {
        let mismatch = match self.total_bytes {
            Some(t) => t != self.downloaded_bytes,
            None => false,
        };
        if mismatch {
            self.status = DownloadStatus::Error(
                String::from_str("download ended before the declared length was reached"),
            );
            false
        } else {
            self.status = DownloadStatus::Completed;
            true
        }
    }

    /// Report an HTTP or I/O failure: the status becomes `Error(message)` and
    /// the counters keep the progress made so far.
    pub fn fail(&mut self, message: String)
        requires
            old(self).wf(),
            old(self).status is Downloading,
        ensures
            final(self).wf(),
            final(self).status == DownloadStatus::Error(message),
            final(self).downloaded_bytes == old(self).downloaded_bytes,
            final(self).total_bytes == old(self).total_bytes,
            final(self).chunk_log == old(self).chunk_log,
            engine_step(*old(self), *final(self)),
    {
        self.status = DownloadStatus::Error(message);
    }

    /// Derive the progress percentage from the current snapshot.
    ///
    /// The result is always within 0..=100; it is 0 while the total is
    /// unknown or zero and whenever the download is idle or failed, and it is
    /// exactly 100 once the download has completed.
    pub fn poll(&self) -> (p: u8)
        ensures
            p as int == self.spec_percent(),
            p <= 100,
            self.status is Idle ==> p == 0,
            self.status is Error ==> p == 0,
            self.status is Completed ==> p == 100,
            self.status is Downloading && self.total_bytes is None ==> p == 0,
            self.status is Downloading && self.total_bytes == Some(0u64) ==> p == 0,
    {
        match &self.status {
            DownloadStatus::Idle => 0,
            DownloadStatus::Error(_) => 0,
            DownloadStatus::Completed => 100,
            DownloadStatus::Downloading => match self.total_bytes {
                None => 0,
                Some(t) => {
                    if t == 0 {
                        0
                    } else {
                        let raw: u128 = (self.downloaded_bytes as u128) * 100 / (t as u128);
                        if raw >= 100 {
                            100
                        } else {
                            raw as u8
                        }
                    }
                },
            },
        }
    }
}

impl Default for DownloadState {
    /// Same as [`DownloadState::new`]: the record starts `Idle` with nothing
    /// counted.
    fn default() -> (r: Self)
        ensures
            r.wf(),
            r.status is Idle,
            r.downloaded_bytes == 0,
            r.total_bytes is None,
    {
        DownloadState::new()
    }
}

/// Law: one engine step never decreases the byte counter.
pub proof fn lemma_step_monotonic(pre: DownloadState, post: DownloadState)
    requires
        engine_step(pre, post),
    ensures
        post.downloaded_bytes >= pre.downloaded_bytes,
{
}

/// Law: across any sequence of observations of a single download — states
/// linked by engine steps — the byte counter is non-decreasing.
pub proof fn lemma_trace_monotonic(tr: Seq<DownloadState>, i: int, j: int)
    requires
        0 <= i <= j < tr.len(),
        forall|k: int| 0 <= k && k + 1 < tr.len() ==> #[trigger] engine_step(tr[k], tr[k + 1]),
    ensures
        tr[j].downloaded_bytes >= tr[i].downloaded_bytes,
    decreases j - i,
{
    if i < j {
        lemma_trace_monotonic(tr, i, j - 1);
        // instantiates the step hypothesis at k == j - 1
        assert(engine_step(tr[j - 1], tr[j - 1 + 1]));
        lemma_step_monotonic(tr[j - 1], tr[j]);
    }
}

/// Law: a transfer that completed without error accounts for every byte
/// written to the destination file — the counter equals the total of the
/// recorded chunk lengths — and equals `total_bytes` whenever the total was
/// known.
pub proof fn lemma_completion_accounting(s: DownloadState)
    requires
        s.wf(),
        s.status is Completed,
    ensures
        s.downloaded_bytes == sum_chunks(s.chunk_log@),
        s.total_bytes matches Some(t) ==> s.downloaded_bytes == t,
{
}

} // verus!
