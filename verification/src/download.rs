//! The chunked download pipeline's verified core.
//!
//! The shell issues the GET, owns the destination file and pulls chunks from
//! the transport; this module makes the decisions: whether the response is a
//! mis-served error page, what the destination file is called, and how the
//! progress counter moves as chunks arrive.

use vstd::prelude::*;
use vstd::string::StringExecFns;
use crate::errors::ClientError;

verus! {

/// Progress state of one download, created when the streamer begins and
/// discarded when the stream ends.
///
/// `total` is the caller-supplied expected size and may be inaccurate: no
/// clause ties `downloaded` to it, because a short or long transfer still
/// succeeds once the stream ends cleanly.
pub struct DownloadSession {
    /// Bytes received so far; grows by exactly each chunk's length.
    pub downloaded: u64,
    /// Expected size as the caller reported it.
    pub total: u64,
}

impl DownloadSession {
    /// Opens a session with nothing downloaded yet.
    pub fn begin(total: u64) -> (s: DownloadSession)
        ensures
            s.downloaded == 0,
            s.total == total,
    {
        DownloadSession { downloaded: 0, total }
    }

    /// Accounts for one received chunk of `len` bytes.
    pub fn record_chunk(&mut self, len: u64)
        requires
            old(self).downloaded + len <= u64::MAX,
        ensures
            final(self).downloaded == old(self).downloaded + len,
            final(self).total == old(self).total,
    {
        self.downloaded = self.downloaded + len;
    }
}

/// Sum of a run of chunk lengths.
pub open spec fn stream_total(sizes: Seq<u64>) -> int
    decreases sizes.len(),
{
    if sizes.len() == 0 {
        0
    } else {
        sizes[0] + stream_total(sizes.drop_first())
    }
}

/// The progress counter after `start` bytes and then the chunks in `sizes`.
pub open spec fn downloaded_after(start: int, sizes: Seq<u64>) -> int {
    start + stream_total(sizes)
}

/// Extending a prefix of the stream by one chunk adds exactly that chunk's
/// length to the sum.
pub proof fn lemma_stream_total_take_succ(sizes: Seq<u64>, i: int)
    requires
        0 <= i < sizes.len(),
    ensures
        stream_total(sizes.take(i + 1)) == stream_total(sizes.take(i)) + sizes[i],
    decreases i,
{
    if i == 0 {
        assert(sizes.take(1) =~= seq![sizes[0]]);
        assert(sizes.take(1).drop_first() =~= Seq::<u64>::empty());
        assert(sizes.take(0) =~= Seq::<u64>::empty());
    } else {
        assert(sizes.take(i + 1).drop_first() =~= sizes.drop_first().take(i));
        assert(sizes.take(i).drop_first() =~= sizes.drop_first().take(i - 1));
        lemma_stream_total_take_succ(sizes.drop_first(), i - 1);
        assert(sizes.take(i + 1)[0] == sizes[0]);
        assert(sizes.take(i)[0] == sizes[0]);
    }
}

/// Law: across the lifetime of one download the progress counter is
/// non-decreasing — after any later prefix of the chunk stream it is at
/// least what it was after any earlier one.
pub proof fn lemma_progress_monotone(start: int, sizes: Seq<u64>, i: int, j: int)
    requires
        0 <= i <= j <= sizes.len(),
    ensures
        downloaded_after(start, sizes.take(i)) <= downloaded_after(start, sizes.take(j)),
    decreases j - i,
{
    if i < j {
        lemma_stream_total_take_succ(sizes, j - 1);
        lemma_progress_monotone(start, sizes, i, j - 1);
    }
}

/// True exactly when the response's content-type metadata marks an HTML
/// document, which the download endpoint only serves as an error page.
pub fn is_error_page(content_type: &Option<String>) -> (r: bool)
    ensures
        r <==> (content_type matches Some(ct) && ct@ == "text/html"@),
{
    match content_type {
        Some(ct) => {
            let html: String = "text/html".to_owned();
            *ct == html
        },
        None => false,
    }
}

/// Wraps an error page's body as the failure reported for a mis-served
/// download, keeping the body verbatim as the detail.
pub fn error_page_failure(body: String) -> (e: ClientError)
    ensures
        e == ClientError::ServerReportedError(body),
{
    ClientError::ServerReportedError(body)
}

/// The destination file's name, derived deterministically from the backup's
/// identifier.
pub fn backup_file_name(backup_uuid: &str) -> (name: String)
    ensures
        name@ == backup_uuid@ + ".tar.gz"@,
{
    backup_uuid.to_owned().concat(".tar.gz")
}

} // verus!
