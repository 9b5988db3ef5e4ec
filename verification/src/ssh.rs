//! SSH session models: status, session information, terminal dimensions,
//! the connect request and the pushed events.

use vstd::prelude::*;
use crate::connection::{clone_opt, JumpHostConfig};

verus! {

/// Lifecycle state of one SSH session.
#[derive(Clone, Copy, Debug, PartialEq, Eq, Structural)]
pub enum SessionStatus {
    Connecting,
    Connected,
    Disconnected,
    Error,
}

/// Caller-visible information about one SSH session.
#[derive(Debug)]
pub struct SshSessionInfo {
    pub session_id: String,
    pub connection_id: String,
    pub status: SessionStatus,
    pub connected_at: Option<String>,
    pub host: String,
    pub username: String,
}

/// Terminal dimensions in character cells.
#[derive(Clone, Copy, Debug, PartialEq, Eq, Structural)]
pub struct TerminalSize {
    pub cols: u32,
    pub rows: u32,
}

impl Default for TerminalSize {
    /// The conventional 80 by 24 terminal.
    fn default() -> (r: TerminalSize)
        ensures
            r.cols == 80,
            r.rows == 24,
    {
        TerminalSize { cols: 80, rows: 24 }
    }
}

/// Connect request from the caller.
#[derive(Debug)]
pub struct SshConnectRequest {
    pub connection_id: String,
    pub host: String,
    pub port: u16,
    pub username: String,
    pub auth_type: String,
    pub password: Option<String>,
    pub private_key: Option<String>,
    pub passphrase: Option<String>,
    pub jump_host: Option<JumpHostConfig>,
    pub terminal_size: TerminalSize,
}

impl SshConnectRequest {
    /// A copy of the request, field for field.
    pub fn duplicate(&self) -> (r: SshConnectRequest)
        ensures
            r == *self,
    {
        SshConnectRequest {
            connection_id: self.connection_id.clone(),
            host: self.host.clone(),
            port: self.port,
            username: self.username.clone(),
            auth_type: self.auth_type.clone(),
            password: clone_opt(&self.password),
            private_key: clone_opt(&self.private_key),
            passphrase: clone_opt(&self.passphrase),
            jump_host: match &self.jump_host {
                Some(j) => Some(j.duplicate()),
                None => None,
            },
            terminal_size: self.terminal_size,
        }
    }
}

/// Inbound data pushed to the caller for one session.
#[derive(Debug)]
pub struct SshDataEvent {
    pub session_id: String,
    pub data: Vec<u8>,
}

/// Connection-status change pushed to the caller for one session.
#[derive(Debug)]
pub struct SshStatusEvent {
    pub session_id: String,
    pub status: SessionStatus,
    pub message: Option<String>,
}

} // verus!
