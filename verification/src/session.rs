//! The SSH session registry: the table of live sessions, the connect and
//! reconnect decisions, the jump-host relay plan, and the accumulation of
//! one-shot command output. The transport itself (connecting, the
//! authentication handshake, channel I/O) is driven by the unverified shell,
//! which stores its handles beside this registry under the same identifiers.

use vstd::prelude::*;
use crate::bytes::append_bytes;
use crate::connection::{clone_opt, JumpHostConfig, SshAuthType};
use crate::errors::OpsError;
use crate::ident::new_id;
use crate::seqs::keys_unique;
use crate::ssh::{SessionStatus, SshConnectRequest, SshSessionInfo, TerminalSize};
use crate::text::{dec_str_of, str_eq, u64_to_string, utf8_lossy, utf8_lossy_of};

verus! {

/// The state the registry keeps for one session: its identity, status, the
/// endpoint, and the original connect parameters retained for reconnection.
/// The transport handle and interactive channel live with the I/O driver; a
/// session has them exactly while its status is `Connected`.
#[derive(Debug)]
pub struct SessionRecord {
    pub session_id: String,
    pub connection_id: String,
    pub status: SessionStatus,
    pub host: String,
    pub username: String,
    pub port: u16,
    pub connect_request: Option<SshConnectRequest>,
    pub terminal_size: TerminalSize,
}

impl SessionRecord {
    /// A new record for a connect request: a fresh identifier, status
    /// `Connecting`, and the request retained for reconnection.
    pub fn new(request: &SshConnectRequest) -> (r: SessionRecord)
        ensures
            r.session_id@.len() == 36,
            r.connection_id@ == request.connection_id@,
            r.status == SessionStatus::Connecting,
            r.host@ == request.host@,
            r.username@ == request.username@,
            r.port == request.port,
            r.connect_request == Some(*request),
            r.terminal_size == request.terminal_size,
    {
        SessionRecord {
            session_id: new_id(),
            connection_id: request.connection_id.clone(),
            status: SessionStatus::Connecting,
            host: request.host.clone(),
            username: request.username.clone(),
            port: request.port,
            connect_request: Some(request.duplicate()),
            terminal_size: request.terminal_size,
        }
    }

    /// The caller-visible view of the record.
    pub fn info(&self) -> (r: SshSessionInfo)
        ensures
            r.session_id@ == self.session_id@,
            r.connection_id@ == self.connection_id@,
            r.status == self.status,
            r.connected_at is None,
            r.host@ == self.host@,
            r.username@ == self.username@,
    {
        SshSessionInfo {
            session_id: self.session_id.clone(),
            connection_id: self.connection_id.clone(),
            status: self.status,
            connected_at: None,
            host: self.host.clone(),
            username: self.username.clone(),
        }
    }
}

/// Whether the table holds a session with this identifier.
pub open spec fn has_session_id(s: Seq<SessionRecord>, id: Seq<char>) -> bool {
    exists|i: int| 0 <= i < s.len() && s[i].session_id@ == id
}

/// Index of the session with this identifier.
pub open spec fn session_index(s: Seq<SessionRecord>, id: Seq<char>) -> int {
    choose|i: int| 0 <= i < s.len() && s[i].session_id@ == id
}

/// The session record with this identifier.
pub open spec fn session_at(s: Seq<SessionRecord>, id: Seq<char>) -> SessionRecord {
    s[session_index(s, id)]
}

/// Registry of live SSH sessions, keyed by session identifier.
pub struct SessionRegistry {
    sessions: Vec<SessionRecord>,
}

impl SessionRegistry {
    /// The session table, in insertion order.
    pub closed spec fn sessions_seq(self) -> Seq<SessionRecord> {
        self.sessions@
    }

    /// Each identifier keys at most one session.
    pub open spec fn wf(self) -> bool {
        keys_unique(self.sessions_seq(), |r: SessionRecord| r.session_id@)
    }

    /// An empty registry.
    pub fn new() -> (r: SessionRegistry)
        ensures
            r.wf(),
            r.sessions_seq() == Seq::<SessionRecord>::empty(),
    {
        let r = SessionRegistry { sessions: Vec::new() };
        proof {
            assert(r.sessions_seq() =~= Seq::<SessionRecord>::empty());
        }
        r
    }

    fn find_index(&self, id: &str) -> (r: Option<usize>)
        ensures
            match r {
                Some(i) => i < self.sessions_seq().len() && self.sessions_seq()[i as int].session_id@
                    == id@,
                None => !has_session_id(self.sessions_seq(), id@),
            },
    {
        let mut i: usize = 0;
        while i < self.sessions.len()
            invariant
                i <= self.sessions_seq().len(),
                forall|j: int| 0 <= j < i ==> self.sessions_seq()[j].session_id@ != id@,
            decreases self.sessions_seq().len() - i,
        {
            if str_eq(self.sessions[i].session_id.as_str(), id) {
                return Some(i);
            }
            i = i + 1;
        }
        None
    }

    /// Store a session record, replacing any record under the same
    /// identifier.
    pub fn insert_session(&mut self, record: SessionRecord)
        requires
            old(self).wf(),
        ensures
            final(self).wf(),
            has_session_id(final(self).sessions_seq(), record.session_id@),
            session_at(final(self).sessions_seq(), record.session_id@) == record,
            !has_session_id(old(self).sessions_seq(), record.session_id@)
                ==> final(self).sessions_seq() == old(self).sessions_seq().push(record),
            forall|j: int|
                0 <= j < old(self).sessions_seq().len() && old(self).sessions_seq()[j].session_id@
                    != record.session_id@
                    ==> final(self).sessions_seq()[j] == old(self).sessions_seq()[j],
    {
        let ghost id = record.session_id@;
        match self.find_index(record.session_id.as_str()) {
            Some(i) => {
                self.sessions[i] = record;
                proof {
                    let s = self.sessions_seq();
                    assert forall|k: int|
                        0 <= k < s.len() && s[k].session_id@ == id implies k == i as int by {}
                }
            },
            None => {
                self.sessions.push(record);
                proof {
                    let s = self.sessions_seq();
                    assert(s[s.len() - 1].session_id@ == id);
                    assert forall|k: int|
                        0 <= k < s.len() && s[k].session_id@ == id implies k == s.len() - 1 by {}
                }
            },
        }
    }

    /// Remove a session and return its record. Removing an absent identifier
    /// changes nothing and returns nothing: disconnect is idempotent at the
    /// boundary.
    pub fn remove_session(&mut self, session_id: &str) -> (r: Option<SessionRecord>)
        requires
            old(self).wf(),
        ensures
            final(self).wf(),
            !has_session_id(final(self).sessions_seq(), session_id@),
            match r {
                Some(rec) => has_session_id(old(self).sessions_seq(), session_id@) && rec
                    == session_at(old(self).sessions_seq(), session_id@)
                    && final(self).sessions_seq() == old(self).sessions_seq().remove(
                    session_index(old(self).sessions_seq(), session_id@),
                ),
                None => !has_session_id(old(self).sessions_seq(), session_id@)
                    && final(self).sessions_seq() == old(self).sessions_seq(),
            },
    {
        match self.find_index(session_id) {
            Some(i) => {
                proof {
                    let s = self.sessions_seq();
                    assert forall|k: int|
                        0 <= k < s.len() && s[k].session_id@ == session_id@ implies k
                        == i as int by {}
                }
                let rec = self.sessions.remove(i);
                proof {
                    let s = self.sessions_seq();
                    let o = old(self).sessions_seq();
                    assert forall|k: int|
                        0 <= k < s.len() implies s[k].session_id@ != session_id@ by {
                        if k < i as int {
                            assert(s[k] == o[k]);
                        } else {
                            assert(s[k] == o[k + 1]);
                        }
                    }
                }
                Some(rec)
            },
            None => None,
        }
    }

    /// Whether a session with this identifier exists and is `Connected`.
    pub fn is_connected(&self, session_id: &str) -> (r: bool)
        requires
            self.wf(),
        ensures
            r == (has_session_id(self.sessions_seq(), session_id@) && session_at(
                self.sessions_seq(),
                session_id@,
            ).status == SessionStatus::Connected),
    {
        match self.find_index(session_id) {
            Some(i) => {
                proof {
                    let s = self.sessions_seq();
                    assert forall|k: int|
                        0 <= k < s.len() && s[k].session_id@ == session_id@ implies k
                        == i as int by {}
                }
                matches!(self.sessions[i].status, SessionStatus::Connected)
            },
            None => false,
        }
    }

    /// The caller-visible view of one session.
    pub fn get_session_info(&self, session_id: &str) -> (r: Option<SshSessionInfo>)
        requires
            self.wf(),
        ensures
            match r {
                Some(info) => has_session_id(self.sessions_seq(), session_id@) && {
                    let rec = session_at(self.sessions_seq(), session_id@);
                    &&& info.session_id@ == rec.session_id@
                    &&& info.connection_id@ == rec.connection_id@
                    &&& info.status == rec.status
                    &&& info.connected_at is None
                    &&& info.host@ == rec.host@
                    &&& info.username@ == rec.username@
                },
                None => !has_session_id(self.sessions_seq(), session_id@),
            },
    {
        match self.find_index(session_id) {
            Some(i) => {
                proof {
                    let s = self.sessions_seq();
                    assert forall|k: int|
                        0 <= k < s.len() && s[k].session_id@ == session_id@ implies k
                        == i as int by {}
                }
                Some(self.sessions[i].info())
            },
            None => None,
        }
    }

    /// The caller-visible views of all sessions, in table order.
    pub fn get_all_sessions(&self) -> (r: Vec<SshSessionInfo>)
        ensures
            r@.len() == self.sessions_seq().len(),
            forall|j: int|
                0 <= j < r@.len() ==> {
                    let rec = self.sessions_seq()[j];
                    &&& (#[trigger] r@[j]).session_id@ == rec.session_id@
                    &&& r@[j].connection_id@ == rec.connection_id@
                    &&& r@[j].status == rec.status
                    &&& r@[j].host@ == rec.host@
                    &&& r@[j].username@ == rec.username@
                },
    {
        let mut r: Vec<SshSessionInfo> = Vec::new();
        let mut i: usize = 0;
        while i < self.sessions.len()
            invariant
                i <= self.sessions_seq().len(),
                r@.len() == i,
                forall|j: int|
                    0 <= j < i ==> {
                        let rec = self.sessions_seq()[j];
                        &&& (#[trigger] r@[j]).session_id@ == rec.session_id@
                        &&& r@[j].connection_id@ == rec.connection_id@
                        &&& r@[j].status == rec.status
                        &&& r@[j].host@ == rec.host@
                        &&& r@[j].username@ == rec.username@
                    },
            decreases self.sessions_seq().len() - i,
        {
            r.push(self.sessions[i].info());
            i = i + 1;
        }
        r
    }

    /// Set the status of a session; an unknown identifier changes nothing.
    pub fn set_status(&mut self, session_id: &str, status: SessionStatus)
        requires
            old(self).wf(),
        ensures
            final(self).wf(),
            final(self).sessions_seq().len() == old(self).sessions_seq().len(),
            forall|j: int|
                0 <= j < old(self).sessions_seq().len() ==> final(self).sessions_seq()[j] == (
                if old(self).sessions_seq()[j].session_id@ == session_id@ {
                    SessionRecord { status, ..old(self).sessions_seq()[j] }
                } else {
                    old(self).sessions_seq()[j]
                }),
    {
        match self.find_index(session_id) {
            Some(i) => {
                let rec = &self.sessions[i];
                let updated = SessionRecord {
                    session_id: rec.session_id.clone(),
                    connection_id: rec.connection_id.clone(),
                    status,
                    host: rec.host.clone(),
                    username: rec.username.clone(),
                    port: rec.port,
                    connect_request: match &rec.connect_request {
                        Some(q) => Some(q.duplicate()),
                        None => None,
                    },
                    terminal_size: rec.terminal_size,
                };
                self.sessions[i] = updated;
            },
            None => {},
        }
    }

    /// Check that a session exists: the decision every per-session operation
    /// (sending data, resizing, opening a channel) makes before touching the
    /// transport.
    pub fn require_session(&self, session_id: &str) -> (r: Result<(), OpsError>)
        requires
            self.wf(),
        ensures
            r is Ok <==> has_session_id(self.sessions_seq(), session_id@),
            r matches Err(e) ==> e matches OpsError::NotFound(m) && m@ == "Session not found"@,
    {
        match self.find_index(session_id) {
            Some(_) => Ok(()),
            None => Err(OpsError::NotFound(String::from_str("Session not found"))),
        }
    }

    /// Check that a session exists and is connected: the decision made
    /// before opening a second channel for command execution or SFTP.
    pub fn require_connected(&self, session_id: &str) -> (r: Result<(), OpsError>)
        requires
            self.wf(),
        ensures
            r is Ok <==> (has_session_id(self.sessions_seq(), session_id@) && session_at(
                self.sessions_seq(),
                session_id@,
            ).status == SessionStatus::Connected),
            !has_session_id(self.sessions_seq(), session_id@) ==> (r matches Err(e) && e matches
                OpsError::NotFound(m) && m@ == "Session not found"@),
            has_session_id(self.sessions_seq(), session_id@) && session_at(
                self.sessions_seq(),
                session_id@,
            ).status != SessionStatus::Connected ==> (r matches Err(e) && e matches
                OpsError::TransportFailed(m) && m@ == "Session not connected"@),
    {
        match self.find_index(session_id) {
            Some(i) => {
                proof {
                    let s = self.sessions_seq();
                    assert forall|k: int|
                        0 <= k < s.len() && s[k].session_id@ == session_id@ implies k
                        == i as int by {}
                }
                if matches!(self.sessions[i].status, SessionStatus::Connected) {
                    Ok(())
                } else {
                    Err(OpsError::TransportFailed(String::from_str("Session not connected")))
                }
            },
            None => Err(OpsError::NotFound(String::from_str("Session not found"))),
        }
    }

    /// The reconnect decision: look up the stored connect parameters of the
    /// session, remove the old entry, and hand the parameters back for a
    /// fresh connect under a new identifier. Fails without touching the
    /// table when the session is unknown or retained no parameters.
    pub fn take_reconnect_params(&mut self, session_id: &str) -> (r: Result<
        SshConnectRequest,
        OpsError,
    >)
        requires
            old(self).wf(),
        ensures
            final(self).wf(),
            match r {
                Ok(req) => {
                    &&& has_session_id(old(self).sessions_seq(), session_id@)
                    &&& session_at(old(self).sessions_seq(), session_id@).connect_request == Some(
                        req,
                    )
                    &&& final(self).sessions_seq() == old(self).sessions_seq().remove(
                        session_index(old(self).sessions_seq(), session_id@),
                    )
                },
                Err(e) => final(self).sessions_seq() == old(self).sessions_seq() && (
                if !has_session_id(old(self).sessions_seq(), session_id@) {
                    e matches OpsError::NotFound(m) && m@ == "Session not found"@
                } else {
                    session_at(old(self).sessions_seq(), session_id@).connect_request is None
                        && (e matches OpsError::InvalidInput(m) && m@
                        == "No connection info stored for reconnection"@)
                }),
            },
    {
        match self.find_index(session_id) {
            Some(i) => {
                proof {
                    let s = self.sessions_seq();
                    assert forall|k: int|
                        0 <= k < s.len() && s[k].session_id@ == session_id@ implies k
                        == i as int by {}
                }
                let req = match &self.sessions[i].connect_request {
                    Some(q) => q.duplicate(),
                    None => {
                        return Err(
                            OpsError::InvalidInput(
                                String::from_str("No connection info stored for reconnection"),
                            ),
                        );
                    },
                };
                self.sessions.remove(i);
                Ok(req)
            },
            None => Err(OpsError::NotFound(String::from_str("Session not found"))),
        }
    }
}

/// Session isolation: removing session `a` neither removes nor alters any
/// other session `b`; `b`'s presence and full record, its connectivity
/// state included, are what they were.
pub proof fn lemma_session_isolation(s: Seq<SessionRecord>, a: Seq<char>, b: Seq<char>)
    requires
        keys_unique(s, |r: SessionRecord| r.session_id@),
        has_session_id(s, a),
        a != b,
    ensures
        has_session_id(s.remove(session_index(s, a)), b) == has_session_id(s, b),
        has_session_id(s, b) ==> session_at(s.remove(session_index(s, a)), b) == session_at(s, b),
{
    let i = session_index(s, a);
    let t = s.remove(i);
    if has_session_id(s, b) {
        let j = session_index(s, b);
        assert(s[j].session_id@ == b);
        assert(j != i);
        if j < i {
            assert(t[j] == s[j]);
            assert(has_session_id(t, b));
        } else {
            assert(t[j - 1] == s[j]);
            assert(has_session_id(t, b));
        }
        let k = session_index(t, b);
        assert(t[k].session_id@ == b);
        let orig = if k < i {
            k
        } else {
            k + 1
        };
        assert(t[k] == s[orig]);
        assert forall|m: int| 0 <= m < s.len() && s[m].session_id@ == b implies m == j by {}
        assert(session_at(t, b) == session_at(s, b));
    }
    if has_session_id(t, b) {
        let k = session_index(t, b);
        let orig = if k < i {
            k
        } else {
            k + 1
        };
        assert(t[k] == s[orig]);
        assert(has_session_id(s, b));
    }
}

/// Credentials selected for a connect attempt, by authentication mode.
#[derive(Debug)]
pub enum AuthMethod {
    /// Password authentication with the given password.
    UsePassword(String),
    /// Public-key authentication with the given key text and optional
    /// passphrase.
    UseKey { private_key: String, passphrase: Option<String> },
}

/// The connect decision on the caller's request: which credentials the
/// transport will authenticate with. Fails exactly when the credential
/// required by the requested mode is absent, or the mode is unknown.
pub fn connect_credentials(request: &SshConnectRequest) -> (r: Result<AuthMethod, OpsError>)
    ensures
        request.auth_type@ == "password"@ && request.password is Some ==> (r matches Ok(
            AuthMethod::UsePassword(p),
        ) && p == request.password.unwrap()),
        request.auth_type@ == "password"@ && request.password is None ==> (r matches Err(
            OpsError::InvalidInput(m),
        ) && m@ == "Password is required"@),
        request.auth_type@ == "key"@ && request.private_key is Some ==> (r matches Ok(
            AuthMethod::UseKey { private_key, passphrase },
        ) && private_key == request.private_key.unwrap() && passphrase == request.passphrase),
        request.auth_type@ == "key"@ && request.private_key is None ==> (r matches Err(
            OpsError::InvalidInput(m),
        ) && m@ == "Private key is required"@),
        request.auth_type@ != "password"@ && request.auth_type@ != "key"@ ==> (r matches Err(
            OpsError::InvalidInput(m),
        ) && m@ == "Unsupported authentication type"@),
{
    proof {
        // The two mode names differ in length, so the branches are disjoint.
        reveal_strlit("password");
        reveal_strlit("key");
        assert("password"@.len() == 8);
        assert("key"@.len() == 3);
    }
    if str_eq(request.auth_type.as_str(), "password") {
        match &request.password {
            Some(p) => Ok(AuthMethod::UsePassword(p.clone())),
            None => Err(OpsError::InvalidInput(String::from_str("Password is required"))),
        }
    } else if str_eq(request.auth_type.as_str(), "key") {
        match &request.private_key {
            Some(k) => Ok(
                AuthMethod::UseKey {
                    private_key: k.clone(),
                    passphrase: clone_opt(&request.passphrase),
                },
            ),
            None => Err(OpsError::InvalidInput(String::from_str("Private key is required"))),
        }
    } else {
        Err(OpsError::InvalidInput(String::from_str("Unsupported authentication type")))
    }
}

/// The jump-host authentication decision: which credentials the bastion is
/// authenticated with. Interactive bastion authentication is unsupported
/// and fails fast; otherwise this fails exactly when the credential required
/// by the bastion's mode is absent.
pub fn jump_host_credentials(jump: &JumpHostConfig) -> (r: Result<AuthMethod, OpsError>)
    ensures
        jump.auth_type == SshAuthType::Password && jump.password is Some ==> (r matches Ok(
            AuthMethod::UsePassword(p),
        ) && p == jump.password.unwrap()),
        jump.auth_type == SshAuthType::Password && jump.password is None ==> (r matches Err(
            OpsError::InvalidInput(m),
        ) && m@ == "Jump host password is required"@),
        jump.auth_type == SshAuthType::Key && jump.private_key is Some ==> (r matches Ok(
            AuthMethod::UseKey { private_key, passphrase },
        ) && private_key == jump.private_key.unwrap() && passphrase == jump.passphrase),
        jump.auth_type == SshAuthType::Key && jump.private_key is None ==> (r matches Err(
            OpsError::InvalidInput(m),
        ) && m@ == "Jump host private key is required"@),
        jump.auth_type == SshAuthType::Interactive ==> (r matches Err(OpsError::InvalidInput(m))
            && m@ == "Interactive auth not supported for jump host"@),
{
    match jump.auth_type {
        SshAuthType::Password => match &jump.password {
            Some(p) => Ok(AuthMethod::UsePassword(p.clone())),
            None => Err(OpsError::InvalidInput(String::from_str("Jump host password is required"))),
        },
        SshAuthType::Key => match &jump.private_key {
            Some(k) => Ok(
                AuthMethod::UseKey {
                    private_key: k.clone(),
                    passphrase: clone_opt(&jump.passphrase),
                },
            ),
            None => Err(
                OpsError::InvalidInput(String::from_str("Jump host private key is required")),
            ),
        },
        SshAuthType::Interactive => Err(
            OpsError::InvalidInput(String::from_str("Interactive auth not supported for jump host")),
        ),
    }
}

/// The command executed on the bastion to relay the terminal to the target
/// host. The relay deliberately shells out to the bastion's own `ssh`
/// client instead of bridging channel over channel; this binds the design
/// to bastions that have an `ssh` client installed.
pub fn jump_ssh_command(port: u16, username: &str, host: &str) -> (r: String)
    ensures
        r@ == "ssh -o StrictHostKeyChecking=no -p "@ + dec_str_of(port as nat) + " "@ + username@
            + "@"@ + host@,
{
    let mut r = String::from_str("ssh -o StrictHostKeyChecking=no -p ");
    let p = u64_to_string(port as u64);
    r.append(p.as_str());
    r.append(" ");
    r.append(username);
    r.append("@");
    r.append(host);
    r
}

/// One message observed on a command-execution channel.
#[derive(Debug)]
pub enum ChannelEvent {
    /// Ordinary output data.
    Data(Vec<u8>),
    /// Extended (error-stream) output data.
    ExtendedData(Vec<u8>),
    /// End of file from the remote side.
    Eof,
    /// Channel closed by the remote side.
    Closed,
    /// The message stream ended.
    Ended,
    /// Any other channel message, which command execution ignores.
    Other,
}

/// Fold one channel message into the accumulated command output: data of
/// both streams is appended in receipt order, end-of-file, close and stream
/// end each stop the drain, and anything else is ignored.
pub fn exec_output_step(output: &mut Vec<u8>, event: &ChannelEvent) -> (stop: bool)
    ensures
        match event {
            ChannelEvent::Data(d) => final(output)@ == old(output)@ + d@ && !stop,
            ChannelEvent::ExtendedData(d) => final(output)@ == old(output)@ + d@ && !stop,
            ChannelEvent::Eof => final(output)@ == old(output)@ && stop,
            ChannelEvent::Closed => final(output)@ == old(output)@ && stop,
            ChannelEvent::Ended => final(output)@ == old(output)@ && stop,
            ChannelEvent::Other => final(output)@ == old(output)@ && !stop,
        },
{
    match event {
        ChannelEvent::Data(d) => {
            append_bytes(output, d);
            false
        },
        ChannelEvent::ExtendedData(d) => {
            append_bytes(output, d);
            false
        },
        ChannelEvent::Eof => true,
        ChannelEvent::Closed => true,
        ChannelEvent::Ended => true,
        ChannelEvent::Other => false,
    }
}

/// The merged text of the drained command output.
pub fn exec_output_text(output: &Vec<u8>) -> (r: String)
    ensures
        r@ == utf8_lossy_of(output@),
{
    utf8_lossy(output.as_slice())
}

} // verus!
