//! Chunked upload planning: resume offset selection, the per-chunk step
//! machine polled by the I/O driver, progress throttling, and the laws that
//! relate them (monotone progress, resume reconstruction, cancellation that
//! keeps the partial file usable for a later resume).

use vstd::prelude::*;
use vstd::arithmetic::div_mod::{lemma_div_is_ordered, lemma_fundamental_div_mod, lemma_mod_bound};
use crate::transfer::TransferStatus;

verus! {

/// Upload chunk size in bytes: progress is reported and cancellation is
/// polled once per chunk of this size.
pub const UPLOAD_CHUNK_SIZE: u64 = 65536;

/// Progress propagation is throttled to at most once per this many
/// milliseconds of wall-clock time.
pub const PROGRESS_EMIT_INTERVAL_MS: u64 = 100;

/// The byte offset a resume-requested upload starts from: the remote size
/// when the remote file is non-empty and strictly smaller than the local
/// total, and zero otherwise (a remote at least as large as the local file
/// offers nothing useful to resume from).
pub open spec fn resume_offset_spec(total: u64, resume: bool, remote_size: u64) -> u64 {
    if resume && 0 < remote_size < total {
        remote_size
    } else {
        0
    }
}

/// Choose the byte offset an upload starts from.
pub fn resume_offset(total: u64, resume: bool, remote_size: u64) -> (r: u64)
    ensures
        r == resume_offset_spec(total, resume, remote_size),
        r <= total,
        resume && remote_size >= total ==> r == 0,
        !resume ==> r == 0,
{
    if resume && 0 < remote_size && remote_size < total {
        remote_size
    } else {
        0
    }
}

/// Length of the next chunk: a full chunk, or the remainder of the file.
pub open spec fn chunk_len_int(total: int, written: int, chunk: int) -> int {
    if total - written < chunk {
        total - written
    } else {
        chunk
    }
}

/// Length of the next chunk: a full chunk, or the remainder of the file.
pub open spec fn chunk_len_spec(total: u64, written: u64, chunk: u64) -> u64 {
    chunk_len_int(total as int, written as int, chunk as int) as u64
}

/// How many chunk writes an upload of `total` bytes starting at `start`
/// performs: the remaining bytes divided by the chunk size, rounded up.
pub open spec fn num_chunks(total: int, start: int, chunk: int) -> int {
    (total - start + chunk - 1) / chunk
}

/// Cumulative bytes written after `k` chunks, counted from the start of the
/// file: the resume offset plus `k` full chunks, capped at the total.
pub open spec fn written_after(total: int, start: int, chunk: int, k: int) -> int {
    if start + k * chunk < total {
        start + k * chunk
    } else {
        total
    }
}

/// The sequence of `transferred` values reported at the chunk boundaries of
/// a completed upload, in the order the chunk writes finish.
pub open spec fn progress_points(total: int, start: int, chunk: int) -> Seq<int> {
    Seq::new(num_chunks(total, start, chunk) as nat, |i: int| written_after(total, start, chunk, i + 1))
}

/// What the chunk loop does next, decided before every chunk write.
#[derive(Debug, PartialEq, Eq, Structural)]
pub enum UploadStep {
    /// Write the next chunk of this many bytes.
    Write(u64),
    /// All bytes are written: flush and complete.
    Done,
    /// The cancellation token was signalled: stop without erroring and
    /// leave the partially written remote file in place.
    Halted,
}

/// Decide the next action of the chunk loop. The cancellation flag is
/// consulted before every chunk write, and only there; once every byte is
/// written the upload completes.
pub fn upload_step(total: u64, written: u64, chunk_size: u64, cancelled: bool) -> (s: UploadStep)
    requires
        written <= total,
        chunk_size > 0,
    ensures
        written == total ==> s == UploadStep::Done,
        written < total && cancelled ==> s == UploadStep::Halted,
        written < total && !cancelled ==> s == UploadStep::Write(
            chunk_len_spec(total, written, chunk_size),
        ),
        s matches UploadStep::Write(n) ==> 0 < n <= chunk_size && written + n <= total,
{
    if written == total {
        UploadStep::Done
    } else if cancelled {
        UploadStep::Halted
    } else {
        let remaining = total - written;
        if remaining < chunk_size {
            UploadStep::Write(remaining)
        } else {
            UploadStep::Write(chunk_size)
        }
    }
}

/// The bytes of the next chunk: the slice of the local data from `written`
/// to `written` plus the next chunk length.
pub fn next_chunk(data: &Vec<u8>, written: usize, chunk_size: usize) -> (r: Vec<u8>)
    requires
        written < data@.len(),
        chunk_size > 0,
    ensures
        r@ == data@.subrange(
            written as int,
            written + chunk_len_int(data@.len() as int, written as int, chunk_size as int),
        ),
{
    let total: usize = data.len();
    let len: usize = if total - written < chunk_size {
        total - written
    } else {
        chunk_size
    };
    let end: usize = written + len;
    let mut r: Vec<u8> = Vec::new();
    let mut i: usize = written;
    while i < end
        invariant
            end == written + len,
            written + len <= data@.len(),
            written <= i <= end,
            r@ == data@.subrange(written as int, i as int),
        decreases end - i,
    {
        r.push(data[i]);
        proof {
            assert(data@.subrange(written as int, i + 1) =~= data@.subrange(
                written as int,
                i as int,
            ).push(data@[i as int]));
        }
        i = i + 1;
    }
    r
}

/// Progress monotonicity: across the chunk boundaries of an upload the
/// reported `transferred` values never decrease, and when the upload has
/// bytes to move the final value equals the total.
pub proof fn lemma_progress_monotone(total: int, start: int, chunk: int)
    ensures
        0 <= start <= total && chunk > 0 ==> forall|i: int, j: int|
            0 <= i <= j < progress_points(total, start, chunk).len()
                ==> progress_points(total, start, chunk)[i] <= progress_points(
                total,
                start,
                chunk,
            )[j],
        0 <= start < total && chunk > 0 ==> progress_points(total, start, chunk).len() > 0
            && progress_points(total, start, chunk).last() == total,
        start == total && chunk > 0 ==> progress_points(total, start, chunk).len() == 0,
{
    if 0 <= start <= total && chunk > 0 {
        let n = num_chunks(total, start, chunk);
        let rem = total - start;
        assert forall|i: int, j: int|
            0 <= i <= j < progress_points(total, start, chunk).len() implies progress_points(
            total,
            start,
            chunk,
        )[i] <= progress_points(total, start, chunk)[j] by {
            assert((i + 1) * chunk <= (j + 1) * chunk) by (nonlinear_arith)
                requires
                    i <= j,
                    chunk > 0,
            ;
        }
        if start < total {
            // n >= 1 because the remaining bytes plus chunk - 1 reach chunk.
            lemma_div_is_ordered(chunk, rem + chunk - 1, chunk);
            assert(chunk / chunk == 1) by {
                lemma_fundamental_div_mod(chunk, chunk);
                lemma_mod_bound(chunk, chunk);
            }
            assert(n >= 1);
            // n * chunk >= rem, so the last point is capped at total.
            lemma_fundamental_div_mod(rem + chunk - 1, chunk);
            lemma_mod_bound(rem + chunk - 1, chunk);
            assert(n * chunk >= rem);
            assert(written_after(total, start, chunk, n) == total);
        }
    }
    if start == total && chunk > 0 {
        vstd::arithmetic::div_mod::lemma_basic_div(chunk - 1, chunk);
        assert(num_chunks(total, start, chunk) == 0);
    }
}

/// Each chunk write advances the upload to the next progress point: after
/// `k` chunks the position is still short of the total, and writing the
/// next chunk of the planned length lands exactly on the `k+1`-th point.
pub proof fn lemma_chunk_step_advances(total: int, start: int, chunk: int, k: int)
    requires
        0 <= start <= total,
        chunk > 0,
        0 <= k < num_chunks(total, start, chunk),
    ensures
        written_after(total, start, chunk, k) < total,
        written_after(total, start, chunk, k + 1) == written_after(total, start, chunk, k)
            + chunk_len_int(total, written_after(total, start, chunk, k), chunk),
{
    let n = num_chunks(total, start, chunk);
    let rem = total - start;
    lemma_fundamental_div_mod(rem + chunk - 1, chunk);
    lemma_mod_bound(rem + chunk - 1, chunk);
    assert(chunk * n >= rem);
    assert(chunk * (n - 1) == chunk * n - chunk) by (nonlinear_arith);
    assert(chunk * (n - 1) < rem);
    assert(chunk * k <= chunk * (n - 1)) by (nonlinear_arith)
        requires
            k <= n - 1,
            chunk > 0,
    ;
    assert(k * chunk == chunk * k) by (nonlinear_arith);
    assert(start + k * chunk < total);
    assert((k + 1) * chunk == k * chunk + chunk) by (nonlinear_arith);
}

/// The remote file contents after `k` chunks of an upload that started at
/// offset `start` over a remote already holding the first `start` bytes.
pub open spec fn remote_after(data: Seq<u8>, start: int, chunk: int, k: int) -> Seq<u8> {
    data.take(written_after(data.len() as int, start, chunk, k))
}

/// Resume correctness: a resumed upload over a remote file that holds the
/// first `start` bytes of the local data writes exactly the bytes from
/// `start` onward, each chunk appending its slice of the local data, and
/// after the last chunk the remote file is byte-identical to the local
/// source.
pub proof fn lemma_resume_reconstructs(data: Seq<u8>, start: int, chunk: int)
    requires
        0 <= start <= data.len(),
        chunk > 0,
    ensures
        remote_after(data, start, chunk, 0) == data.take(start),
        forall|k: int|
            0 <= k < num_chunks(data.len() as int, start, chunk) ==> #[trigger] remote_after(
                data,
                start,
                chunk,
                k + 1,
            ) == remote_after(data, start, chunk, k) + data.subrange(
                written_after(data.len() as int, start, chunk, k),
                written_after(data.len() as int, start, chunk, k + 1),
            ),
        remote_after(data, start, chunk, num_chunks(data.len() as int, start, chunk)) == data,
{
    let total = data.len() as int;
    let n = num_chunks(total, start, chunk);
    assert(remote_after(data, start, chunk, 0) =~= data.take(start));
    assert forall|k: int| 0 <= k < n implies #[trigger] remote_after(data, start, chunk, k + 1)
        == remote_after(data, start, chunk, k) + data.subrange(
        written_after(total, start, chunk, k),
        written_after(total, start, chunk, k + 1),
    ) by {
        let a = written_after(total, start, chunk, k);
        let b = written_after(total, start, chunk, k + 1);
        assert(k * chunk <= (k + 1) * chunk) by (nonlinear_arith)
            requires
                chunk > 0,
        ;
        assert(k * chunk >= 0) by (nonlinear_arith)
            requires
                k >= 0,
                chunk > 0,
        ;
        assert(0 <= a <= b <= total);
        assert(data.take(b) =~= data.take(a) + data.subrange(a, b));
    }
    lemma_progress_monotone(total, start, chunk);
    if start < total {
        assert(written_after(total, start, chunk, n) == total);
    } else {
        assert(n == 0);
    }
    assert(remote_after(data, start, chunk, n) =~= data);
}

/// Cancellation leaves the file intact for resume: an upload halted after
/// `k` of its chunks leaves the remote file holding exactly the first
/// `written_after(.., k)` bytes of the local data, and a subsequent
/// resume-enabled upload of the same data starts from that offset and
/// reconstructs the local data in full.
pub proof fn lemma_cancel_then_resume(data: Seq<u8>, start: int, chunk: int, k: int)
    requires
        0 <= start < data.len(),
        data.len() <= u64::MAX,
        chunk > 0,
        0 <= k < num_chunks(data.len() as int, start, chunk),
        start + k * chunk < data.len(),
    ensures
        ({
            let w = written_after(data.len() as int, start, chunk, k);
            let r = resume_offset_spec(data.len() as u64, true, w as u64);
            &&& remote_after(data, start, chunk, k) == data.take(w)
            &&& (w > 0 ==> r == w)
            &&& remote_after(data, r as int, chunk, num_chunks(data.len() as int, r as int, chunk))
                == data
        }),
{
    let total = data.len() as int;
    let w = written_after(total, start, chunk, k);
    assert(k * chunk >= 0) by (nonlinear_arith)
        requires
            k >= 0,
            chunk > 0,
    ;
    assert(0 <= w < total);
    let r = resume_offset_spec(data.len() as u64, true, w as u64);
    lemma_resume_reconstructs(data, r as int, chunk);
}

/// Whether enough wall-clock time has passed since the last emitted progress
/// notification to propagate another one.
pub fn should_emit_progress(now_ms: u64, last_emit_ms: u64) -> (r: bool)
    requires
        last_emit_ms <= now_ms,
    ensures
        r == (now_ms - last_emit_ms >= PROGRESS_EMIT_INTERVAL_MS),
{
    now_ms - last_emit_ms >= PROGRESS_EMIT_INTERVAL_MS
}

/// Instantaneous speed in bytes per second: bytes moved since the start of
/// the upload divided by the elapsed seconds (computed in milliseconds),
/// saturated at the type's maximum, and zero before any time has passed.
pub fn transfer_speed(bytes_since_start: u64, elapsed_ms: u64) -> (r: u64)
    ensures
        elapsed_ms == 0 ==> r == 0,
        elapsed_ms > 0 ==> r as int == vstd::math::min(
            u64::MAX as int,
            bytes_since_start * 1000 / elapsed_ms as int,
        ),
{
    if elapsed_ms == 0 {
        return 0;
    }
    let q: u128 = (bytes_since_start as u128) * 1000 / (elapsed_ms as u128);
    if q > (u64::MAX as u128) {
        u64::MAX
    } else {
        q as u64
    }
}

/// The terminal status of an upload for each outcome of the chunk loop:
/// completion, cooperative cancellation, or an I/O error.
pub fn upload_outcome_status(completed: bool, io_error: bool) -> (s: TransferStatus)
    ensures
        io_error ==> s == TransferStatus::Failed,
        !io_error && completed ==> s == TransferStatus::Completed,
        !io_error && !completed ==> s == TransferStatus::Cancelled,
        s.is_terminal(),
{
    if io_error {
        TransferStatus::Failed
    } else if completed {
        TransferStatus::Completed
    } else {
        TransferStatus::Cancelled
    }
}

} // verus!
