//! Transfer task model: direction, status, the tracked task record and the
//! progress event payload pushed to callers.

use vstd::prelude::*;

verus! {

/// Lifecycle states of a transfer task. `Pending` is set at creation before
/// any I/O, `InProgress` once the first byte-moving operation begins, and the
/// terminal states are final.
#[derive(Clone, Copy, Debug, PartialEq, Eq, Structural)]
pub enum TransferStatus {
    Pending,
    InProgress,
    Paused,
    Completed,
    Failed,
    Cancelled,
}

impl TransferStatus {
    /// Whether the status is one no task ever leaves.
    pub open spec fn is_terminal(self) -> bool {
        self == TransferStatus::Completed || self == TransferStatus::Failed || self
            == TransferStatus::Cancelled
    }
}

/// Direction of a transfer task.
#[derive(Clone, Copy, Debug, PartialEq, Eq, Structural)]
pub enum TransferDirection {
    Upload,
    Download,
}

/// One tracked upload or download operation.
#[derive(Debug)]
pub struct TransferTask {
    /// Unique task identifier, independent of the session identifier.
    pub id: String,
    /// Session this transfer belongs to.
    pub session_id: String,
    /// File name, derived from the relevant path's last component.
    pub filename: String,
    /// Local path of the transfer.
    pub local_path: String,
    /// Remote path of the transfer.
    pub remote_path: String,
    /// Direction of the transfer.
    pub direction: TransferDirection,
    /// Total size in bytes, fixed at creation.
    pub total: u64,
    /// Bytes moved so far.
    pub transferred: u64,
    /// Most recent speed sample in bytes per second.
    pub speed: u64,
    /// Current lifecycle state.
    pub status: TransferStatus,
    /// Error message when the task failed.
    pub error: Option<String>,
}

/// The progress percentage of a task: `transferred * 100 / total`, clamped
/// to the byte range, and zero for an empty transfer.
pub open spec fn progress_spec(transferred: u64, total: u64) -> int {
    if total == 0 {
        0
    } else if (transferred as int) * 100 / (total as int) > 255 {
        255
    } else {
        (transferred as int) * 100 / (total as int)
    }
}

impl TransferTask {
    /// Progress percentage; 0 to 100 whenever `transferred` has not
    /// transiently passed `total`.
    pub fn progress(&self) -> (r: u8)
        ensures
            r as int == progress_spec(self.transferred, self.total),
            self.transferred <= self.total ==> r <= 100,
    {
        if self.total == 0 {
            return 0;
        }
        let p: u128 = (self.transferred as u128) * 100 / (self.total as u128);
        proof {
            if self.transferred <= self.total {
                vstd::arithmetic::div_mod::lemma_div_is_ordered(
                    self.transferred * 100,
                    self.total * 100,
                    self.total as int,
                );
                assert(self.total * 100 as int / self.total as int == 100) by {
                    vstd::arithmetic::div_mod::lemma_div_multiples_vanish(
                        100,
                        self.total as int,
                    );
                }
            }
        }
        if p > 255 {
            255
        } else {
            p as u8
        }
    }

    /// A copy of the task, field for field.
    pub fn duplicate(&self) -> (r: TransferTask)
        ensures
            r == *self,
    {
        TransferTask {
            id: self.id.clone(),
            session_id: self.session_id.clone(),
            filename: self.filename.clone(),
            local_path: self.local_path.clone(),
            remote_path: self.remote_path.clone(),
            direction: self.direction,
            total: self.total,
            transferred: self.transferred,
            speed: self.speed,
            status: self.status,
            error: match &self.error {
                Some(m) => Some(m.clone()),
                None => None,
            },
        }
    }
}

/// Progress event payload pushed to the caller for one task.
#[derive(Debug)]
pub struct TransferProgress {
    /// Task the event describes.
    pub task_id: String,
    /// Bytes moved so far.
    pub transferred: u64,
    /// Total size in bytes.
    pub total: u64,
    /// Speed sample in bytes per second.
    pub speed: u64,
    /// Lifecycle state at the time of the event.
    pub status: TransferStatus,
}

} // verus!
