//! Transfer manager and chunked-upload tests: progress monotonicity, resume
//! selection and reconstruction, cancellation, cleanup selectivity and the
//! chunk-boundary arithmetic.

use ops_console::transfer::{TransferDirection, TransferStatus, TransferTask};
use ops_console::transfer_manager::TransferManager;
use ops_console::upload::{
    next_chunk, resume_offset, should_emit_progress, transfer_speed, upload_outcome_status,
    upload_step, UploadStep, UPLOAD_CHUNK_SIZE,
};

fn sample_data(len: usize) -> Vec<u8> {
    let mut v = Vec::with_capacity(len);
    let mut i: usize = 0;
    while i < len {
        v.push((i % 251) as u8);
        i += 1;
    }
    v
}

/// Drive the chunk loop as the I/O driver does, from `start`, against a
/// remote file already holding `remote`; polls `cancel_after` to stop.
/// Returns (remote contents, progress samples, completed).
fn drive_upload(
    data: &Vec<u8>,
    start: u64,
    mut remote: Vec<u8>,
    cancel_after_chunks: Option<usize>,
) -> (Vec<u8>, Vec<u64>, bool) {
    let total = data.len() as u64;
    let mut written = start;
    let mut progress: Vec<u64> = Vec::new();
    let mut chunks_done: usize = 0;
    loop {
        let cancelled = match cancel_after_chunks {
            Some(n) => chunks_done >= n,
            None => false,
        };
        match upload_step(total, written, UPLOAD_CHUNK_SIZE, cancelled) {
            UploadStep::Done => return (remote, progress, true),
            UploadStep::Halted => return (remote, progress, false),
            UploadStep::Write(len) => {
                let chunk = next_chunk(data, written as usize, UPLOAD_CHUNK_SIZE as usize);
                assert_eq!(chunk.len() as u64, len);
                remote.extend_from_slice(&chunk);
                written += len;
                progress.push(written);
                chunks_done += 1;
            }
        }
    }
}

#[test]
fn upload_chunk_boundaries() {
    // A 200 KiB file with 64 KiB chunks crosses exactly 4 chunk boundaries:
    // 3 full chunks and 1 partial 8 KiB chunk.
    let data = sample_data(204800);
    let (remote, progress, completed) = drive_upload(&data, 0, Vec::new(), None);
    assert!(completed);
    assert_eq!(progress.len(), 4);
    assert_eq!(progress, vec![65536, 131072, 196608, 204800]);
    assert_eq!(remote, data);
    assert_eq!(upload_outcome_status(completed, false), TransferStatus::Completed);
}

#[test]
fn upload_progress_monotone() {
    let data = sample_data(204800);
    let (_, progress, completed) = drive_upload(&data, 0, Vec::new(), None);
    assert!(completed);
    let mut last: u64 = 0;
    for p in &progress {
        assert!(*p >= last);
        last = *p;
    }
    assert_eq!(last, 204800);
}

#[test]
fn resume_offsets() {
    // Resume only when the remote file is non-empty and strictly smaller.
    assert_eq!(resume_offset(100, true, 40), 40);
    assert_eq!(resume_offset(100, true, 0), 0);
    assert_eq!(resume_offset(100, true, 100), 0);
    assert_eq!(resume_offset(100, true, 150), 0);
    assert_eq!(resume_offset(100, false, 40), 0);
}

#[test]
fn resume_reconstructs_file() {
    // A remote file holding the first 70000 bytes; resuming writes exactly
    // the rest and the final remote file is byte-identical to the source.
    let data = sample_data(204800);
    let remote_size: u64 = 70000;
    let start = resume_offset(data.len() as u64, true, remote_size);
    assert_eq!(start, 70000);
    let partial = data[..remote_size as usize].to_vec();
    let (remote, _, completed) = drive_upload(&data, start, partial, None);
    assert!(completed);
    assert_eq!(remote, data);
}

#[test]
fn cancel_after_first_chunk_leaves_partial_file() {
    let data = sample_data(204800);
    let (remote, progress, completed) = drive_upload(&data, 0, Vec::new(), Some(1));
    assert!(!completed);
    // Exactly one chunk's worth of bytes was written before the token was seen.
    assert_eq!(remote.len() as u64, UPLOAD_CHUNK_SIZE);
    assert_eq!(progress, vec![65536]);
    assert_eq!(remote[..], data[..65536]);
    assert_eq!(upload_outcome_status(completed, false), TransferStatus::Cancelled);

    // The partial file stays in place, so a resume-enabled upload completes.
    let start = resume_offset(data.len() as u64, true, remote.len() as u64);
    assert_eq!(start, 65536);
    let (resumed, _, done) = drive_upload(&data, start, remote, None);
    assert!(done);
    assert_eq!(resumed, data);
}

#[test]
fn manager_task_lifecycle() {
    let mut m = TransferManager::new();
    let id = m.create_transfer_task(
        "sess-1",
        "/local/dir/report.bin",
        "/remote/report.bin",
        TransferDirection::Upload,
        204800,
    );
    assert_eq!(id.len(), 36);
    let tasks = m.get_transfers("sess-1");
    assert_eq!(tasks.len(), 1);
    assert_eq!(tasks[0].id, id);
    assert_eq!(tasks[0].filename, "report.bin");
    assert_eq!(tasks[0].status, TransferStatus::Pending);
    assert_eq!(tasks[0].transferred, 0);
    assert!(!m.is_cancelled(&id));

    m.update_transfer(&id, 65536, 1000, TransferStatus::InProgress);
    let tasks = m.get_transfers("sess-1");
    assert_eq!(tasks[0].transferred, 65536);
    assert_eq!(tasks[0].status, TransferStatus::InProgress);

    m.update_transfer(&id, 204800, 0, TransferStatus::Completed);
    m.remove_cancel_token(&id);
    let tasks = m.get_transfers("sess-1");
    assert_eq!(tasks[0].status, TransferStatus::Completed);
    assert_eq!(tasks[0].transferred, 204800);
}

#[test]
fn cancel_marks_task_and_signals_token() {
    let mut m = TransferManager::new();
    let id = m.create_transfer_task(
        "sess-1",
        "/l/a.bin",
        "/r/a.bin",
        TransferDirection::Upload,
        1000,
    );
    assert!(!m.is_cancelled(&id));
    m.cancel_transfer(&id);
    assert!(m.is_cancelled(&id));
    let tasks = m.get_transfers("sess-1");
    assert_eq!(tasks[0].status, TransferStatus::Cancelled);
    // Cancelling an unknown identifier changes nothing.
    m.cancel_transfer("no-such-task");
    assert_eq!(m.get_transfers("sess-1").len(), 1);
}

#[test]
fn cleanup_sweeps_completed_and_cancelled_only() {
    let mut m = TransferManager::new();
    let done = m.create_transfer_task("a", "/l/1", "/r/1", TransferDirection::Upload, 10);
    let gone = m.create_transfer_task("a", "/l/2", "/r/2", TransferDirection::Upload, 10);
    let failed = m.create_transfer_task("a", "/l/3", "/r/3", TransferDirection::Download, 10);
    let running = m.create_transfer_task("a", "/l/4", "/r/4", TransferDirection::Upload, 10);
    let pending = m.create_transfer_task("a", "/l/5", "/r/5", TransferDirection::Upload, 10);
    let other = m.create_transfer_task("b", "/l/6", "/r/6", TransferDirection::Upload, 10);

    m.update_transfer(&done, 10, 0, TransferStatus::Completed);
    m.update_transfer(&gone, 3, 0, TransferStatus::Cancelled);
    m.update_transfer(&failed, 2, 0, TransferStatus::Failed);
    m.update_transfer(&running, 5, 0, TransferStatus::InProgress);
    m.update_transfer(&other, 10, 0, TransferStatus::Completed);

    m.cleanup_transfers("a");

    let kept: Vec<String> = m.get_transfers("a").into_iter().map(|t| t.id).collect();
    assert_eq!(kept.len(), 3);
    assert!(kept.contains(&failed));
    assert!(kept.contains(&running));
    assert!(kept.contains(&pending));
    assert!(!kept.contains(&done));
    assert!(!kept.contains(&gone));

    // The completed task of the other session is untouched.
    let others = m.get_transfers("b");
    assert_eq!(others.len(), 1);
    assert_eq!(others[0].id, other);
    assert_eq!(others[0].status, TransferStatus::Completed);
}

#[test]
fn download_filename_comes_from_remote_path() {
    let mut m = TransferManager::new();
    let id = m.create_transfer_task(
        "s",
        "/tmp/saved",
        "/var/log/syslog.1",
        TransferDirection::Download,
        42,
    );
    let tasks = m.get_transfers("s");
    assert_eq!(tasks[0].id, id);
    assert_eq!(tasks[0].filename, "syslog.1");
    assert_eq!(tasks[0].direction, TransferDirection::Download);
}

#[test]
fn progress_percentage() {
    let mk = |transferred: u64, total: u64| TransferTask {
        id: String::from("t"),
        session_id: String::from("s"),
        filename: String::from("f"),
        local_path: String::from("/l"),
        remote_path: String::from("/r"),
        direction: TransferDirection::Upload,
        total,
        transferred,
        speed: 0,
        status: TransferStatus::InProgress,
        error: None,
    };
    assert_eq!(mk(0, 0).progress(), 0);
    assert_eq!(mk(0, 204800).progress(), 0);
    assert_eq!(mk(102400, 204800).progress(), 50);
    assert_eq!(mk(204800, 204800).progress(), 100);
    assert_eq!(mk(1, 3).progress(), 33);
}

#[test]
fn speed_and_throttle() {
    assert_eq!(transfer_speed(1000, 0), 0);
    assert_eq!(transfer_speed(100000, 1000), 100000);
    assert_eq!(transfer_speed(65536, 500), 131072);
    assert!(should_emit_progress(200, 100));
    assert!(!should_emit_progress(150, 100));
    assert!(should_emit_progress(100, 0));
}
