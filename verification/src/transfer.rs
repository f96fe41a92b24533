//! One resumable transfer attempt: resume-offset bookkeeping, HTTP status
//! classification, the byte-range request header, and the per-chunk step
//! that reports progress and honours cancellation. The network read and the
//! file append are the caller's; the decisions and the arithmetic are here.

use vstd::prelude::*;
use crate::text::{dec_spec, u64_to_dec};

verus! {

/// Why a transfer attempt failed.
#[derive(Debug, Clone, Copy, PartialEq, Eq, Structural)]
pub enum TransferError {
    /// Connection or timeout failure before or while streaming.
    Network,
    /// A response status outside the success range.
    HttpStatus(u16),
    /// A local read or write failed.
    Io,
    /// The requested byte range was not satisfiable; the file is likely
    /// already complete, which the integrity check will confirm.
    RangeNotSatisfiable,
    /// The shared stop flag was observed set.
    Cancelled,
}

/// Classifies a response status for a transfer: 416 is the distinct
/// range-not-satisfiable error, everything outside 200..=299 is an HTTP
/// error, and 206 partial content counts as success.
pub fn classify_status(status: u16) -> (r: Result<(), TransferError>)
    ensures
        r == (if status == 416 {
            Result::<(), TransferError>::Err(TransferError::RangeNotSatisfiable)
        } else if 200 <= status && status <= 299 {
            Result::<(), TransferError>::Ok(())
        } else {
            Result::<(), TransferError>::Err(TransferError::HttpStatus(status))
        }),
{
    if status == 416 {
        Result::Err(TransferError::RangeNotSatisfiable)
    } else if 200 <= status && status <= 299 {
        Result::Ok(())
    } else {
        Result::Err(TransferError::HttpStatus(status))
    }
}

/// The value of the `Range` request header that resumes at `offset`.
pub fn range_header_value(offset: u64) -> (r: String)
    ensures
        r@ == "bytes="@ + dec_spec(offset as nat) + "-"@,
{
    let n = u64_to_dec(offset);
    String::from_str("bytes=").concat(n.as_str()).concat("-")
}

/// What the transfer loop does after one chunk was appended.
#[derive(Debug, Clone, Copy, PartialEq, Eq, Structural)]
pub enum ChunkStep {
    /// Read the next chunk.
    Continue,
    /// The stop flag was set: abort this attempt with `Cancelled`.
    CancelledStop,
}

/// Bookkeeping for one transfer attempt into one local file.
#[derive(Debug, Clone, Copy, PartialEq, Eq, Structural)]
pub struct TransferAttempt {
    /// Bytes already on disk when the attempt began; the attempt only ever
    /// appends after this point.
    pub resume_offset: u64,
    /// Bytes appended by this attempt so far.
    pub written: u64,
}

impl TransferAttempt {
    /// The current end of the file, in bytes.
    pub open spec fn position(&self) -> int {
        self.resume_offset + self.written
    }

    /// Begins an attempt, resuming after the bytes already on disk
    /// (zero when the file does not exist yet).
    pub fn start(existing_len: Option<u64>) -> (t: TransferAttempt)
        ensures
            t.resume_offset == (match existing_len {
                Option::Some(n) => n,
                Option::None => 0u64,
            }),
            t.written == 0,
    {
        let offset: u64 = match existing_len {
            Option::Some(n) => n,
            Option::None => 0,
        };
        TransferAttempt { resume_offset: offset, written: 0 }
    }

    /// Accounts for one chunk appended at the end of the file, then reports
    /// whether the attempt must stop because cancellation was requested.
    /// The attempt therefore overshoots a cancellation by at most one chunk.
    pub fn on_chunk(&mut self, chunk_len: u64, cancelled: bool) -> (s: ChunkStep)
        requires
            old(self).position() + chunk_len <= u64::MAX,
        ensures
            final(self).resume_offset == old(self).resume_offset,
            final(self).written == old(self).written + chunk_len,
            s == (if cancelled {
                ChunkStep::CancelledStop
            } else {
                ChunkStep::Continue
            }),
    {
        self.written = self.written + chunk_len;
        if cancelled {
            ChunkStep::CancelledStop
        } else {
            ChunkStep::Continue
        }
    }
}

/// The file contents after appending each chunk in order to `file`.
pub open spec fn apply_chunks(file: Seq<u8>, chunks: Seq<Seq<u8>>) -> Seq<u8>
    decreases chunks.len(),
{
    if chunks.len() == 0 {
        file
    } else {
        apply_chunks(file + chunks[0], chunks.skip(1))
    }
}

/// All chunks, concatenated in order.
pub open spec fn concat_chunks(chunks: Seq<Seq<u8>>) -> Seq<u8>
    decreases chunks.len(),
{
    if chunks.len() == 0 {
        Seq::empty()
    } else {
        chunks[0] + concat_chunks(chunks.skip(1))
    }
}

proof fn lemma_apply_chunks_is_concat(file: Seq<u8>, chunks: Seq<Seq<u8>>)
    ensures
        apply_chunks(file, chunks) == file + concat_chunks(chunks),
    decreases chunks.len(),
{
    if chunks.len() == 0 {
        assert(apply_chunks(file, chunks) =~= file + concat_chunks(chunks));
    } else {
        lemma_apply_chunks_is_concat(file + chunks[0], chunks.skip(1));
        assert(apply_chunks(file, chunks) =~= file + concat_chunks(chunks));
    }
}

/// Appending chunks never rewrites what was on disk: the bytes below the
/// resume offset are the same before and after the attempt.
pub proof fn lemma_resume_preserves_prefix(file: Seq<u8>, chunks: Seq<Seq<u8>>)
    ensures
        apply_chunks(file, chunks).take(file.len() as int) == file,
{
    lemma_apply_chunks_is_concat(file, chunks);
    assert(apply_chunks(file, chunks).take(file.len() as int) =~= file);
}

/// A resumed transfer ends with the same bytes as a fresh one. If the bytes
/// on disk are the first `n` bytes of the remote content and the server
/// streams the rest, the final file equals the content exactly, which is
/// also what a fresh transfer of the whole content produces.
pub proof fn lemma_resume_matches_fresh(
    content: Seq<u8>,
    n: int,
    resumed: Seq<Seq<u8>>,
    fresh: Seq<Seq<u8>>,
)
    requires
        0 <= n <= content.len(),
        concat_chunks(resumed) == content.skip(n),
        concat_chunks(fresh) == content,
    ensures
        apply_chunks(content.take(n), resumed) == content,
        apply_chunks(Seq::<u8>::empty(), fresh) == content,
        apply_chunks(content.take(n), resumed) == apply_chunks(Seq::<u8>::empty(), fresh),
{
    lemma_apply_chunks_is_concat(content.take(n), resumed);
    lemma_apply_chunks_is_concat(Seq::<u8>::empty(), fresh);
    assert(content.take(n) + content.skip(n) =~= content);
    assert(Seq::<u8>::empty() + content =~= content);
}

} // verus!
