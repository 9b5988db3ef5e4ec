//! The transfer manager: the table of tracked transfer tasks and the table
//! of their cancellation flags, guarded separately in the running system so
//! that progress updates never block on cancellation checks.

use vstd::prelude::*;
use crate::ident::new_id;
use crate::seqs::{keys_unique, lemma_filter_keys_unique, lemma_filter_subset, lemma_filter_take_step};
use crate::text::{file_name_of, file_name_of_path, str_eq};
use crate::transfer::{TransferDirection, TransferStatus, TransferTask};

verus! {

/// Cancellation token of one in-flight task: a flag the chunk loop polls
/// before every chunk write.
#[derive(Debug)]
pub struct CancelToken {
    /// Task the token belongs to.
    pub task_id: String,
    /// Whether cancellation was signalled.
    pub cancelled: bool,
}

/// Key of a task record.
pub open spec fn task_key(t: TransferTask) -> Seq<char> {
    t.id@
}

/// Key of a cancellation token.
pub open spec fn token_key(c: CancelToken) -> Seq<char> {
    c.task_id@
}

/// Whether a task survives `cleanup_transfers` for `sid`: every task of
/// another session survives, and so does every task of `sid` that is not
/// `Completed` or `Cancelled`.
pub open spec fn survives_cleanup(t: TransferTask, sid: Seq<char>) -> bool {
    t.session_id@ != sid || !(t.status == TransferStatus::Completed || t.status
        == TransferStatus::Cancelled)
}

/// The task table after cleanup for `sid`, in retained order.
pub open spec fn cleanup_result(s: Seq<TransferTask>, sid: Seq<char>) -> Seq<TransferTask> {
    s.filter(|t: TransferTask| survives_cleanup(t, sid))
}

/// The tasks of one session, in table order.
pub open spec fn session_tasks(s: Seq<TransferTask>, sid: Seq<char>) -> Seq<TransferTask> {
    s.filter(|t: TransferTask| t.session_id@ == sid)
}

/// Tracks transfer tasks, their progress, and their cancellation flags.
pub struct TransferManager {
    tasks: Vec<TransferTask>,
    tokens: Vec<CancelToken>,
}

impl TransferManager {
    /// The task table, in insertion order.
    pub closed spec fn tasks_seq(self) -> Seq<TransferTask> {
        self.tasks@
    }

    /// The cancellation-token table, in insertion order.
    pub closed spec fn tokens_seq(self) -> Seq<CancelToken> {
        self.tokens@
    }

    /// Both tables are keyed by task identifier, each at most once.
    pub open spec fn wf(self) -> bool {
        keys_unique(self.tasks_seq(), |t: TransferTask| task_key(t)) && keys_unique(
            self.tokens_seq(),
            |c: CancelToken| token_key(c),
        )
    }

    /// Whether a task with this identifier is tracked.
    pub open spec fn has_task(self, id: Seq<char>) -> bool {
        exists|i: int| 0 <= i < self.tasks_seq().len() && self.tasks_seq()[i].id@ == id
    }

    /// Index of the task with this identifier.
    pub open spec fn task_index(self, id: Seq<char>) -> int {
        choose|i: int| 0 <= i < self.tasks_seq().len() && self.tasks_seq()[i].id@ == id
    }

    /// The task with this identifier.
    pub open spec fn task_at(self, id: Seq<char>) -> TransferTask {
        self.tasks_seq()[self.task_index(id)]
    }

    /// Whether the identifier has a tracked cancellation token.
    pub open spec fn has_token(self, id: Seq<char>) -> bool {
        exists|i: int| 0 <= i < self.tokens_seq().len() && self.tokens_seq()[i].task_id@ == id
    }

    /// Index of the token under the identifier.
    pub open spec fn token_index(self, id: Seq<char>) -> int {
        choose|i: int| 0 <= i < self.tokens_seq().len() && self.tokens_seq()[i].task_id@ == id
    }

    /// Whether cancellation was signalled under the identifier.
    pub open spec fn cancel_signalled(self, id: Seq<char>) -> bool {
        self.has_token(id) && self.tokens_seq()[self.token_index(id)].cancelled
    }

    /// An empty manager: no tasks, no tokens.
    pub fn new() -> (m: TransferManager)
        ensures
            m.wf(),
            m.tasks_seq() == Seq::<TransferTask>::empty(),
            m.tokens_seq() == Seq::<CancelToken>::empty(),
    {
        let m = TransferManager { tasks: Vec::new(), tokens: Vec::new() };
        proof {
            assert(m.tasks_seq() =~= Seq::<TransferTask>::empty());
            assert(m.tokens_seq() =~= Seq::<CancelToken>::empty());
        }
        m
    }

    fn find_task_index(&self, id: &str) -> (r: Option<usize>)
        ensures
            match r {
                Some(i) => i < self.tasks_seq().len() && self.tasks_seq()[i as int].id@ == id@,
                None => !self.has_task(id@),
            },
    {
        let mut i: usize = 0;
        while i < self.tasks.len()
            invariant
                i <= self.tasks_seq().len(),
                forall|j: int| 0 <= j < i ==> self.tasks_seq()[j].id@ != id@,
            decreases self.tasks_seq().len() - i,
        {
            if str_eq(self.tasks[i].id.as_str(), id) {
                return Some(i);
            }
            i = i + 1;
        }
        None
    }

    fn find_token_index(&self, id: &str) -> (r: Option<usize>)
        ensures
            match r {
                Some(i) => i < self.tokens_seq().len() && self.tokens_seq()[i as int].task_id@
                    == id@,
                None => !self.has_token(id@),
            },
    {
        let mut i: usize = 0;
        while i < self.tokens.len()
            invariant
                i <= self.tokens_seq().len(),
                forall|j: int| 0 <= j < i ==> self.tokens_seq()[j].task_id@ != id@,
            decreases self.tokens_seq().len() - i,
        {
            if str_eq(self.tokens[i].task_id.as_str(), id) {
                return Some(i);
            }
            i = i + 1;
        }
        None
    }

    /// Create a tracked task in state `Pending` with a fresh identifier and
    /// a fresh, unsignalled cancellation token, and return the identifier.
    /// The file name is the last component of the local path for an upload
    /// and of the remote path for a download.
    pub fn create_transfer_task(
        &mut self,
        session_id: &str,
        local_path: &str,
        remote_path: &str,
        direction: TransferDirection,
        total: u64,
    ) -> (task_id: String)
        requires
            old(self).wf(),
        ensures
            final(self).wf(),
            final(self).has_task(task_id@),
            final(self).has_token(task_id@),
            !final(self).cancel_signalled(task_id@),
            ({
                let t = final(self).task_at(task_id@);
                &&& t.id@ == task_id@
                &&& t.session_id@ == session_id@
                &&& t.filename@ == file_name_of(
                    if direction == TransferDirection::Upload {
                        local_path@
                    } else {
                        remote_path@
                    },
                )
                &&& t.local_path@ == local_path@
                &&& t.remote_path@ == remote_path@
                &&& t.direction == direction
                &&& t.total == total
                &&& t.transferred == 0
                &&& t.speed == 0
                &&& t.status == TransferStatus::Pending
                &&& t.error is None
            }),
            !old(self).has_task(task_id@) ==> final(self).tasks_seq() == old(self).tasks_seq().push(
                final(self).task_at(task_id@),
            ),
            forall|j: int|
                0 <= j < old(self).tasks_seq().len() && old(self).tasks_seq()[j].id@ != task_id@
                    ==> final(self).tasks_seq()[j] == old(self).tasks_seq()[j],
    {
        let task_id = new_id();
        let filename = if matches!(direction, TransferDirection::Upload) {
            file_name_of_path(local_path)
        } else {
            file_name_of_path(remote_path)
        };
        let task = TransferTask {
            id: task_id.clone(),
            session_id: String::from_str(session_id),
            filename,
            local_path: String::from_str(local_path),
            remote_path: String::from_str(remote_path),
            direction,
            total,
            transferred: 0,
            speed: 0,
            status: TransferStatus::Pending,
            error: None,
        };
        match self.find_task_index(task_id.as_str()) {
            Some(i) => {
                self.tasks[i] = task;
                proof {
                    let s = self.tasks_seq();
                    assert forall|k: int|
                        0 <= k < s.len() && s[k].id@ == task_id@ implies k == i as int by {}
                }
            },
            None => {
                self.tasks.push(task);
                proof {
                    let s = self.tasks_seq();
                    assert(s[s.len() - 1].id@ == task_id@);
                    assert forall|k: int|
                        0 <= k < s.len() && s[k].id@ == task_id@ implies k == s.len() - 1 by {}
                }
            },
        }
        let token = CancelToken { task_id: task_id.clone(), cancelled: false };
        match self.find_token_index(task_id.as_str()) {
            Some(i) => {
                self.tokens[i] = token;
                proof {
                    let s = self.tokens_seq();
                    assert forall|k: int|
                        0 <= k < s.len() && s[k].task_id@ == task_id@ implies k == i as int by {}
                }
            },
            None => {
                self.tokens.push(token);
                proof {
                    let s = self.tokens_seq();
                    assert(s[s.len() - 1].task_id@ == task_id@);
                    assert forall|k: int|
                        0 <= k < s.len() && s[k].task_id@ == task_id@ implies k == s.len() - 1 by {}
                }
            },
        }
        task_id
    }

    /// Signal the cancellation token of a task, when one is tracked, and
    /// mark the task `Cancelled`, when one is tracked. Both tables are
    /// otherwise untouched; the chunk loop sees the flag at its next poll.
    pub fn cancel_transfer(&mut self, task_id: &str)
        requires
            old(self).wf(),
        ensures
            final(self).wf(),
            final(self).tokens_seq().len() == old(self).tokens_seq().len(),
            forall|j: int|
                0 <= j < old(self).tokens_seq().len() ==> final(self).tokens_seq()[j].task_id
                    == old(self).tokens_seq()[j].task_id && final(self).tokens_seq()[j].cancelled
                    == (old(self).tokens_seq()[j].cancelled || old(self).tokens_seq()[j].task_id@
                    == task_id@),
            final(self).tasks_seq().len() == old(self).tasks_seq().len(),
            forall|j: int|
                0 <= j < old(self).tasks_seq().len() ==> final(self).tasks_seq()[j] == (
                if old(self).tasks_seq()[j].id@ == task_id@ {
                    TransferTask { status: TransferStatus::Cancelled, ..old(self).tasks_seq()[j] }
                } else {
                    old(self).tasks_seq()[j]
                }),
            old(self).has_token(task_id@) ==> final(self).cancel_signalled(task_id@),
            old(self).has_task(task_id@) ==> final(self).has_task(task_id@) && final(self).task_at(
                task_id@,
            ) == (TransferTask {
                status: TransferStatus::Cancelled,
                ..old(self).task_at(task_id@)
            }),
    {
        match self.find_token_index(task_id) {
            Some(i) => {
                let id = self.tokens[i].task_id.clone();
                self.tokens[i] = CancelToken { task_id: id, cancelled: true };
                proof {
                    let s = self.tokens_seq();
                    let o = old(self).tokens_seq();
                    assert(s[i as int].task_id@ == task_id@);
                    assert forall|k: int|
                        0 <= k < s.len() && s[k].task_id@ == task_id@ implies k == i as int by {
                        assert(s[k].task_id == o[k].task_id);
                    }
                    assert(self.token_index(task_id@) == i as int);
                }
            },
            None => {},
        }
        match self.find_task_index(task_id) {
            Some(i) => {
                let mut t = self.tasks[i].duplicate();
                t.status = TransferStatus::Cancelled;
                self.tasks[i] = t;
                proof {
                    let s = self.tasks_seq();
                    let o = old(self).tasks_seq();
                    assert(s[i as int].id@ == task_id@);
                    assert forall|k: int|
                        0 <= k < s.len() && s[k].id@ == task_id@ implies k == i as int by {
                        assert(s[k].id == o[k].id);
                    }
                    assert(self.task_index(task_id@) == i as int);
                    assert forall|k: int|
                        0 <= k < o.len() && o[k].id@ == task_id@ implies k == i as int by {}
                    assert(old(self).task_index(task_id@) == i as int);
                }
            },
            None => {},
        }
    }

    /// Whether cancellation was signalled under the identifier; false when
    /// no token is tracked.
    pub fn is_cancelled(&self, task_id: &str) -> (r: bool)
        requires
            self.wf(),
        ensures
            r == self.cancel_signalled(task_id@),
    {
        match self.find_token_index(task_id) {
            Some(i) => self.tokens[i].cancelled,
            None => false,
        }
    }

    /// Drop the cancellation token of a task once the task reached a
    /// terminal state. The task record itself stays until explicit cleanup.
    pub fn remove_cancel_token(&mut self, task_id: &str)
        requires
            old(self).wf(),
        ensures
            final(self).wf(),
            final(self).tasks_seq() == old(self).tasks_seq(),
            !final(self).has_token(task_id@),
            old(self).has_token(task_id@) ==> final(self).tokens_seq() == old(
                self,
            ).tokens_seq().remove(old(self).token_index(task_id@)),
            !old(self).has_token(task_id@) ==> final(self).tokens_seq() == old(self).tokens_seq(),
    {
        match self.find_token_index(task_id) {
            Some(i) => {
                proof {
                    let s = self.tokens_seq();
                    assert forall|k: int|
                        0 <= k < s.len() && s[k].task_id@ == task_id@ implies k == i as int by {}
                }
                self.tokens.remove(i);
                proof {
                    let s = self.tokens_seq();
                    let o = old(self).tokens_seq();
                    assert forall|k: int| 0 <= k < s.len() implies s[k].task_id@ != task_id@ by {
                        if k < i as int {
                            assert(s[k] == o[k]);
                        } else {
                            assert(s[k] == o[k + 1]);
                        }
                    }
                }
            },
            None => {},
        }
    }

    /// All tracked tasks of one session, in table order.
    pub fn get_transfers(&self, session_id: &str) -> (r: Vec<TransferTask>)
        ensures
            r@ == session_tasks(self.tasks_seq(), session_id@),
    {
        let ghost pred = |t: TransferTask| t.session_id@ == session_id@;
        let mut r: Vec<TransferTask> = Vec::new();
        proof {
            assert(self.tasks_seq().take(0).filter(pred) =~= Seq::<TransferTask>::empty());
        }
        let mut i: usize = 0;
        while i < self.tasks.len()
            invariant
                i <= self.tasks_seq().len(),
                pred == (|t: TransferTask| t.session_id@ == session_id@),
                r@ == self.tasks_seq().take(i as int).filter(pred),
            decreases self.tasks_seq().len() - i,
        {
            proof {
                lemma_filter_take_step(self.tasks_seq(), pred, i as int);
            }
            if str_eq(self.tasks[i].session_id.as_str(), session_id) {
                r.push(self.tasks[i].duplicate());
            }
            i = i + 1;
        }
        proof {
            assert(self.tasks_seq().take(self.tasks_seq().len() as int) =~= self.tasks_seq());
        }
        r
    }

    /// Record a progress sample on a tracked task: its `transferred`,
    /// `speed` and `status` are replaced, every other field and every other
    /// task is untouched. An unknown identifier changes nothing.
    pub fn update_transfer(
        &mut self,
        task_id: &str,
        transferred: u64,
        speed: u64,
        status: TransferStatus,
    )
        requires
            old(self).wf(),
        ensures
            final(self).wf(),
            final(self).tokens_seq() == old(self).tokens_seq(),
            final(self).tasks_seq().len() == old(self).tasks_seq().len(),
            forall|j: int|
                0 <= j < old(self).tasks_seq().len() ==> final(self).tasks_seq()[j] == (
                if old(self).tasks_seq()[j].id@ == task_id@ {
                    TransferTask {
                        transferred,
                        speed,
                        status,
                        ..old(self).tasks_seq()[j]
                    }
                } else {
                    old(self).tasks_seq()[j]
                }),
            old(self).has_task(task_id@) ==> final(self).has_task(task_id@) && final(self).task_at(
                task_id@,
            ) == (TransferTask {
                transferred,
                speed,
                status,
                ..old(self).task_at(task_id@)
            }),
    {
        match self.find_task_index(task_id) {
            Some(i) => {
                let mut t = self.tasks[i].duplicate();
                t.transferred = transferred;
                t.speed = speed;
                t.status = status;
                self.tasks[i] = t;
                proof {
                    let s = self.tasks_seq();
                    let o = old(self).tasks_seq();
                    assert(s[i as int].id@ == task_id@);
                    assert forall|k: int|
                        0 <= k < s.len() && s[k].id@ == task_id@ implies k == i as int by {
                        assert(s[k].id == o[k].id);
                    }
                    assert(self.task_index(task_id@) == i as int);
                    assert forall|k: int|
                        0 <= k < o.len() && o[k].id@ == task_id@ implies k == i as int by {}
                    assert(old(self).task_index(task_id@) == i as int);
                }
            },
            None => {},
        }
    }

    /// Remove every `Completed` and `Cancelled` task of one session, keeping
    /// the remaining tasks in table order. `Failed`, `InProgress` and
    /// `Pending` tasks are never swept, nor any task of another session;
    /// `Failed` entries deliberately persist for caller inspection.
    pub fn cleanup_transfers(&mut self, session_id: &str)
        requires
            old(self).wf(),
        ensures
            final(self).wf(),
            final(self).tokens_seq() == old(self).tokens_seq(),
            final(self).tasks_seq() == cleanup_result(old(self).tasks_seq(), session_id@),
    {
        let ghost pred = |t: TransferTask| survives_cleanup(t, session_id@);
        let mut kept: Vec<TransferTask> = Vec::new();
        proof {
            assert(self.tasks_seq().take(0).filter(pred) =~= Seq::<TransferTask>::empty());
        }
        let mut i: usize = 0;
        while i < self.tasks.len()
            invariant
                i <= self.tasks_seq().len(),
                pred == (|t: TransferTask| survives_cleanup(t, session_id@)),
                kept@ == self.tasks_seq().take(i as int).filter(pred),
            decreases self.tasks_seq().len() - i,
        {
            proof {
                lemma_filter_take_step(self.tasks_seq(), pred, i as int);
            }
            let t = &self.tasks[i];
            let matches_session = str_eq(t.session_id.as_str(), session_id);
            let swept_status = matches!(t.status, TransferStatus::Completed)
                || matches!(t.status, TransferStatus::Cancelled);
            if !(matches_session && swept_status) {
                kept.push(self.tasks[i].duplicate());
            }
            i = i + 1;
        }
        proof {
            assert(self.tasks_seq().take(self.tasks_seq().len() as int) =~= self.tasks_seq());
            lemma_filter_keys_unique(self.tasks_seq(), pred, |t: TransferTask| task_key(t));
        }
        self.tasks = kept;
    }
}

/// Cleanup selectivity: cleanup for a session sweeps exactly the
/// `Completed` and `Cancelled` tasks of that session. Every retained entry
/// survives by the selection rule, every task that the rule retains is
/// still present, and nothing new appears.
pub proof fn lemma_cleanup_selectivity(s: Seq<TransferTask>, sid: Seq<char>)
    ensures
        forall|k: int|
            0 <= k < cleanup_result(s, sid).len() ==> survives_cleanup(
                #[trigger] cleanup_result(s, sid)[k],
                sid,
            ),
        forall|i: int|
            0 <= i < s.len() && survives_cleanup(#[trigger] s[i], sid) ==> cleanup_result(
                s,
                sid,
            ).contains(s[i]),
        forall|k: int|
            0 <= k < cleanup_result(s, sid).len() ==> s.contains(
                #[trigger] cleanup_result(s, sid)[k],
            ),
{
    let pred = |t: TransferTask| survives_cleanup(t, sid);
    broadcast use vstd::seq_lib::group_filter_ensures;

    lemma_filter_subset(s, pred);
    assert forall|i: int|
        0 <= i < s.len() && survives_cleanup(#[trigger] s[i], sid) implies cleanup_result(
        s,
        sid,
    ).contains(s[i]) by {
        s.lemma_filter_contains(pred, i);
    }
}

} // verus!
