use crate::error::ProtoInstallerError;
use vstd::prelude::*;

verus! {

/// Whether an HTTP status code reports success (200 to 299).
pub open spec fn spec_status_is_success(status: u16) -> bool {
    200 <= status <= 299
}

/// Whether an HTTP status code reports success (200 to 299), as
/// `reqwest::StatusCode::is_success` answers.
pub fn status_is_success(status: u16) -> (r: bool)
    ensures
        r == spec_status_is_success(status),
        r == (200 <= status && status <= 299),
{
    200 <= status && status <= 299
}

/// The smaller of two integers.
pub open spec fn spec_min(a: int, b: int) -> int {
    if a <= b { a } else { b }
}

/// What is reported as downloaded after `done` bytes of an expected `total`
/// when a further chunk of `len` bytes arrives.
pub open spec fn spec_after_chunk(done: int, total: int, len: int) -> int {
    spec_min(done + len, total)
}

/// What is reported as downloaded after the chunks `lens` arrive in order,
/// starting from `done` bytes of an expected `total`.
pub open spec fn spec_after_chunks(done: int, total: int, lens: Seq<u64>) -> int
    decreases lens.len(),
{
    if lens.len() == 0 {
        done
    } else {
        spec_after_chunks(spec_after_chunk(done, total, lens[0] as int), total, lens.drop_first())
    }
}

/// The sum of a sequence of chunk lengths.
pub open spec fn spec_sum(lens: Seq<u64>) -> int
    decreases lens.len(),
{
    if lens.len() == 0 {
        0
    } else {
        lens[0] as int + spec_sum(lens.drop_first())
    }
}

/// The counters of a download.
pub struct ProgressView {
    /// Bytes counted as received so far.
    pub downloaded: int,
    /// Bytes expected in all: the announced content length, or 0 when none
    /// was announced.
    pub total: int,
}

/// Progress of one release download, as reported to the caller's progress
/// callback: bytes received so far, never more than the expected total.
pub struct DownloadProgress {
    downloaded: u64,
    total: u64,
}

impl View for DownloadProgress {
    type V = ProgressView;

    closed spec fn view(&self) -> ProgressView {
        ProgressView { downloaded: self.downloaded as int, total: self.total as int }
    }
}

impl DownloadProgress {
    #[verifier::type_invariant]
    spec fn within_total(self) -> bool {
        self.downloaded <= self.total
    }

    /// Decides on the server's answer to a release request: a success status
    /// starts the download at zero of the announced length (zero when none
    /// was announced); any other status means the release is not available.
    pub fn start(version: &str, status: u16, content_length: Option<u64>) -> (r: Result<
        DownloadProgress,
        ProtoInstallerError,
    >)
        ensures
            r is Ok <==> spec_status_is_success(status),
            r is Ok <==> (200 <= status && status <= 299),
            r matches Ok(p) ==> p@.downloaded == 0 && p@.total == match content_length {
                Some(n) => n as int,
                None => 0,
            },
            r matches Err(e) ==> e matches ProtoInstallerError::DownloadNotAvailable {
                version: v,
                status: s,
            } && v@ == version@ && s == status,
    {
        if !status_is_success(status) {
            return Err(
                ProtoInstallerError::DownloadNotAvailable { version: version.to_owned(), status },
            );
        }
        let total = match content_length {
            Some(n) => n,
            None => 0,
        };
        Ok(DownloadProgress { downloaded: 0, total })
    }

    /// Bytes counted as received so far.
    pub fn downloaded(&self) -> (r: u64)
        ensures
            r == self@.downloaded,
            self@.downloaded <= self@.total,
    {
        proof {
            use_type_invariant(self);
        }
        self.downloaded
    }

    /// Bytes expected in all.
    pub fn total(&self) -> (r: u64)
        ensures
            r == self@.total,
            self@.downloaded <= self@.total,
    {
        proof {
            use_type_invariant(self);
        }
        self.total
    }

    /// Counts a received chunk of `len` bytes, capping the count at the
    /// expected total, and returns the pair `(downloaded, total)` to report.
    pub fn record_chunk(&mut self, len: u64) -> (r: (u64, u64))
        ensures
            final(self)@.total == old(self)@.total,
            final(self)@.downloaded == spec_after_chunk(
                old(self)@.downloaded,
                old(self)@.total,
                len as int,
            ),
            final(self)@.downloaded <= final(self)@.total,
            old(self)@.downloaded <= final(self)@.downloaded <= old(self)@.downloaded + len,
            final(self)@.downloaded == old(self)@.downloaded + len || final(self)@.downloaded
                == old(self)@.total,
            r.0 == final(self)@.downloaded,
            r.1 == final(self)@.total,
    {
        proof {
            use_type_invariant(&*self);
        }
        let room = self.total - self.downloaded;
        let next = if len >= room {
            self.total
        } else {
            self.downloaded + len
        };
        self.downloaded = next;
        (self.downloaded, self.total)
    }
}

/// A download is refused exactly when the server's status lies outside
/// 200 to 299: informational, redirect, client-error and server-error
/// answers all refuse it.
pub proof fn lemma_success_is_2xx(status: u16)
    ensures
        spec_status_is_success(status) <==> (200 <= status && status < 300),
        status >= 300 ==> !spec_status_is_success(status),
        status < 200 ==> !spec_status_is_success(status),
{
}

/// A chunk never lowers the count and never lifts it above the total.
pub proof fn lemma_chunk_monotone(done: int, total: int, len: u64)
    requires
        0 <= done <= total,
    ensures
        done <= spec_after_chunk(done, total, len as int) <= total,
{
}

/// Counting chunks one at a time, each capped at the total, gives the sum of
/// their lengths capped at the total once: the reported count is the bytes
/// received, but never more than were announced.
pub proof fn lemma_chunks_sum(done: int, total: int, lens: Seq<u64>)
    requires
        0 <= done <= total,
    ensures
        spec_after_chunks(done, total, lens) == spec_min(done + spec_sum(lens), total),
        done <= spec_after_chunks(done, total, lens) <= total,
    decreases lens.len(),
{
    if lens.len() > 0 {
        let next = spec_after_chunk(done, total, lens[0] as int);
        lemma_sum_nonneg(lens.drop_first());
        lemma_chunks_sum(next, total, lens.drop_first());
    }
}

proof fn lemma_sum_nonneg(lens: Seq<u64>)
    ensures
        spec_sum(lens) >= 0,
    decreases lens.len(),
{
    if lens.len() > 0 {
        lemma_sum_nonneg(lens.drop_first());
    }
}

} // verus!
