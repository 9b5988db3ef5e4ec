//! The SFTP session registry: SFTP sub-sessions layered on SSH sessions,
//! keyed by the same session identifier, each caching the remote home
//! directory resolved once at open time. Every file operation requires a
//! prior open and fails uniformly with a session-not-found condition when
//! none happened.

use vstd::prelude::*;
use crate::errors::OpsError;
use crate::seqs::keys_unique;
use crate::text::str_eq;

verus! {

/// The state kept for one SFTP sub-session: its identifier (shared with the
/// parent SSH session) and the cached current working directory, set once at
/// open time and not refreshed on navigation.
#[derive(Debug)]
pub struct SftpRecord {
    pub session_id: String,
    pub current_path: String,
}

/// Whether the table holds a wrapper for this identifier.
pub open spec fn has_sftp_id(s: Seq<SftpRecord>, id: Seq<char>) -> bool {
    exists|i: int| 0 <= i < s.len() && s[i].session_id@ == id
}

/// Index of the wrapper for this identifier.
pub open spec fn sftp_index(s: Seq<SftpRecord>, id: Seq<char>) -> int {
    choose|i: int| 0 <= i < s.len() && s[i].session_id@ == id
}

/// The wrapper for this identifier.
pub open spec fn sftp_at(s: Seq<SftpRecord>, id: Seq<char>) -> SftpRecord {
    s[sftp_index(s, id)]
}

/// Registry of open SFTP sub-sessions.
pub struct SftpRegistry {
    sessions: Vec<SftpRecord>,
}

impl SftpRegistry {
    /// The wrapper table, in insertion order.
    pub closed spec fn sessions_seq(self) -> Seq<SftpRecord> {
        self.sessions@
    }

    /// Each identifier keys at most one wrapper.
    pub open spec fn wf(self) -> bool {
        keys_unique(self.sessions_seq(), |r: SftpRecord| r.session_id@)
    }

    /// An empty registry.
    pub fn new() -> (r: SftpRegistry)
        ensures
            r.wf(),
            r.sessions_seq() == Seq::<SftpRecord>::empty(),
    {
        let r = SftpRegistry { sessions: Vec::new() };
        proof {
            assert(r.sessions_seq() =~= Seq::<SftpRecord>::empty());
        }
        r
    }

    fn find_index(&self, id: &str) -> (r: Option<usize>)
        ensures
            match r {
                Some(i) => i < self.sessions_seq().len() && self.sessions_seq()[i as int].session_id@
                    == id@,
                None => !has_sftp_id(self.sessions_seq(), id@),
            },
    {
        let mut i: usize = 0;
        while i < self.sessions.len()
            invariant
                i <= self.sessions_seq().len(),
                forall|j: int| 0 <= j < i ==> self.sessions_seq()[j].session_id@ != id@,
            decreases self.sessions_seq().len() - i,
        {
            if str_eq(self.sessions[i].session_id.as_str(), id) {
                return Some(i);
            }
            i = i + 1;
        }
        None
    }

    /// Whether an SFTP sub-session is open for this identifier.
    pub fn has_sftp_session(&self, session_id: &str) -> (r: bool)
        ensures
            r == has_sftp_id(self.sessions_seq(), session_id@),
    {
        match self.find_index(session_id) {
            Some(_) => true,
            None => false,
        }
    }

    /// Record an opened SFTP sub-session with its resolved home directory.
    /// Opening is idempotent per session: when a wrapper already exists for
    /// the identifier, nothing changes.
    pub fn open_session(&mut self, session_id: &str, home_dir: &str)
        requires
            old(self).wf(),
        ensures
            final(self).wf(),
            has_sftp_id(final(self).sessions_seq(), session_id@),
            has_sftp_id(old(self).sessions_seq(), session_id@) ==> final(self).sessions_seq()
                == old(self).sessions_seq(),
            !has_sftp_id(old(self).sessions_seq(), session_id@) ==> {
                &&& final(self).sessions_seq().len() == old(self).sessions_seq().len() + 1
                &&& final(self).sessions_seq() == old(self).sessions_seq().push(
                    final(self).sessions_seq().last(),
                )
                &&& final(self).sessions_seq().last().session_id@ == session_id@
                &&& final(self).sessions_seq().last().current_path@ == home_dir@
            },
    {
        match self.find_index(session_id) {
            Some(_) => {},
            None => {
                let rec = SftpRecord {
                    session_id: String::from_str(session_id),
                    current_path: String::from_str(home_dir),
                };
                self.sessions.push(rec);
                proof {
                    let s = self.sessions_seq();
                    assert(s.last().session_id@ == session_id@);
                    assert(s =~= old(self).sessions_seq().push(s.last()));
                }
            },
        }
    }

    /// Remove and drop the wrapper; removing an absent identifier changes
    /// nothing.
    pub fn close_session(&mut self, session_id: &str)
        requires
            old(self).wf(),
        ensures
            final(self).wf(),
            !has_sftp_id(final(self).sessions_seq(), session_id@),
            has_sftp_id(old(self).sessions_seq(), session_id@) ==> final(self).sessions_seq()
                == old(self).sessions_seq().remove(
                sftp_index(old(self).sessions_seq(), session_id@),
            ),
            !has_sftp_id(old(self).sessions_seq(), session_id@) ==> final(self).sessions_seq()
                == old(self).sessions_seq(),
    {
        match self.find_index(session_id) {
            Some(i) => {
                proof {
                    let s = self.sessions_seq();
                    assert forall|k: int|
                        0 <= k < s.len() && s[k].session_id@ == session_id@ implies k
                        == i as int by {}
                }
                self.sessions.remove(i);
                proof {
                    let s = self.sessions_seq();
                    let o = old(self).sessions_seq();
                    assert forall|k: int|
                        0 <= k < s.len() implies s[k].session_id@ != session_id@ by {
                        if k < i as int {
                            assert(s[k] == o[k]);
                        } else {
                            assert(s[k] == o[k + 1]);
                        }
                    }
                }
            },
            None => {},
        }
    }

    /// Check that an SFTP sub-session is open: the decision every file
    /// operation makes first. Fails with the uniform session-not-found
    /// condition exactly when `open` never happened for the identifier.
    pub fn require_open(&self, session_id: &str) -> (r: Result<(), OpsError>)
        ensures
            r is Ok <==> has_sftp_id(self.sessions_seq(), session_id@),
            r matches Err(e) ==> e matches OpsError::NotFound(m) && m@ == "SFTP session not found"@,
    {
        match self.find_index(session_id) {
            Some(_) => Ok(()),
            None => Err(OpsError::NotFound(String::from_str("SFTP session not found"))),
        }
    }

    /// The cached working directory of an open sub-session; the uniform
    /// session-not-found condition otherwise.
    pub fn get_current_path(&self, session_id: &str) -> (r: Result<String, OpsError>)
        requires
            self.wf(),
        ensures
            match r {
                Ok(p) => has_sftp_id(self.sessions_seq(), session_id@) && p@ == sftp_at(
                    self.sessions_seq(),
                    session_id@,
                ).current_path@,
                Err(e) => !has_sftp_id(self.sessions_seq(), session_id@) && (e matches
                    OpsError::NotFound(m) && m@ == "SFTP session not found"@),
            },
    {
        match self.find_index(session_id) {
            Some(i) => {
                proof {
                    let s = self.sessions_seq();
                    assert forall|k: int|
                        0 <= k < s.len() && s[k].session_id@ == session_id@ implies k
                        == i as int by {}
                }
                Ok(self.sessions[i].current_path.clone())
            },
            None => Err(OpsError::NotFound(String::from_str("SFTP session not found"))),
        }
    }
}

} // verus!
