//! Session registry tests: the connect and reconnect decisions, session
//! isolation, the jump-host plan and command-output accumulation.

use ops_console::connection::{JumpHostConfig, SshAuthType};
use ops_console::errors::OpsError;
use ops_console::session::{
    connect_credentials, exec_output_step, exec_output_text, jump_host_credentials,
    jump_ssh_command, AuthMethod, ChannelEvent, SessionRecord, SessionRegistry,
};
use ops_console::ssh::{SessionStatus, SshConnectRequest, TerminalSize};
use ops_console::text::host_port_string;

fn request(auth_type: &str) -> SshConnectRequest {
    SshConnectRequest {
        connection_id: String::from("conn-1"),
        host: String::from("198.51.100.7"),
        port: 22,
        username: String::from("ops"),
        auth_type: String::from(auth_type),
        password: Some(String::from("pw")),
        private_key: None,
        passphrase: None,
        jump_host: None,
        terminal_size: TerminalSize::default(),
    }
}

#[test]
fn connect_then_disconnect_flow() {
    // Connect with password to a reachable host, observe connectivity, then
    // disconnect and observe it gone.
    let mut reg = SessionRegistry::new();
    let req = request("password");
    assert!(matches!(connect_credentials(&req), Ok(AuthMethod::UsePassword(_))));

    let mut record = SessionRecord::new(&req);
    assert_eq!(record.status, SessionStatus::Connecting);
    let id = record.session_id.clone();
    // The transport connected, authenticated, and opened its shell.
    record.status = SessionStatus::Connected;
    reg.insert_session(record);

    assert!(reg.is_connected(&id));
    let info = reg.get_session_info(&id).unwrap();
    assert_eq!(info.host, "198.51.100.7");
    assert_eq!(info.status, SessionStatus::Connected);

    let removed = reg.remove_session(&id);
    assert!(removed.is_some());
    assert!(!reg.is_connected(&id));
    assert!(reg.get_session_info(&id).is_none());

    // Disconnect is idempotent: removing again is not an error.
    assert!(reg.remove_session(&id).is_none());
}

#[test]
fn disconnect_leaves_other_sessions_alone() {
    let mut reg = SessionRegistry::new();
    let mut a = SessionRecord::new(&request("password"));
    a.status = SessionStatus::Connected;
    let id_a = a.session_id.clone();
    let mut b = SessionRecord::new(&request("password"));
    b.status = SessionStatus::Connected;
    let id_b = b.session_id.clone();
    reg.insert_session(a);
    reg.insert_session(b);

    reg.remove_session(&id_a);

    assert!(!reg.is_connected(&id_a));
    assert!(reg.is_connected(&id_b));
    let info = reg.get_session_info(&id_b).unwrap();
    assert_eq!(info.session_id, id_b);
    assert_eq!(info.status, SessionStatus::Connected);
    assert_eq!(reg.get_all_sessions().len(), 1);
}

#[test]
fn reconnect_takes_stored_parameters() {
    let mut reg = SessionRegistry::new();
    let record = SessionRecord::new(&request("password"));
    let id = record.session_id.clone();
    reg.insert_session(record);

    let req = reg.take_reconnect_params(&id).unwrap();
    assert_eq!(req.host, "198.51.100.7");
    assert_eq!(req.auth_type, "password");
    // The old entry is gone; a fresh connect gets a new identifier.
    assert!(reg.get_session_info(&id).is_none());

    let err = reg.take_reconnect_params(&id).unwrap_err();
    assert!(matches!(&err, OpsError::NotFound(_)));
    assert_eq!(err.message(), "Session not found");
}

#[test]
fn reconnect_without_stored_parameters_fails() {
    let mut reg = SessionRegistry::new();
    let mut record = SessionRecord::new(&request("password"));
    let id = record.session_id.clone();
    record.connect_request = None;
    reg.insert_session(record);

    let err = reg.take_reconnect_params(&id).unwrap_err();
    assert!(matches!(&err, OpsError::InvalidInput(_)));
    assert_eq!(err.message(), "No connection info stored for reconnection");
    // The entry stays when the decision fails.
    assert!(reg.get_session_info(&id).is_some());
}

#[test]
fn credentials_required_per_auth_mode() {
    let mut req = request("password");
    req.password = None;
    let err = connect_credentials(&req).unwrap_err();
    assert_eq!(err.message(), "Password is required");

    let mut req = request("key");
    req.private_key = None;
    let err = connect_credentials(&req).unwrap_err();
    assert_eq!(err.message(), "Private key is required");

    let mut req = request("key");
    req.private_key = Some(String::from("PEM"));
    req.passphrase = Some(String::from("pp"));
    match connect_credentials(&req).unwrap() {
        AuthMethod::UseKey { private_key, passphrase } => {
            assert_eq!(private_key, "PEM");
            assert_eq!(passphrase.as_deref(), Some("pp"));
        }
        _ => panic!("expected key credentials"),
    }

    let req = request("agent");
    let err = connect_credentials(&req).unwrap_err();
    assert_eq!(err.message(), "Unsupported authentication type");
}

#[test]
fn jump_host_auth_decisions() {
    let jump = |auth_type: SshAuthType| JumpHostConfig {
        host: String::from("bastion"),
        port: 2222,
        username: String::from("root"),
        auth_type,
        password: None,
        private_key: None,
        passphrase: None,
    };

    let err = jump_host_credentials(&jump(SshAuthType::Password)).unwrap_err();
    assert_eq!(err.message(), "Jump host password is required");

    let err = jump_host_credentials(&jump(SshAuthType::Key)).unwrap_err();
    assert_eq!(err.message(), "Jump host private key is required");

    // Interactive bastion authentication fails fast.
    let err = jump_host_credentials(&jump(SshAuthType::Interactive)).unwrap_err();
    assert_eq!(err.message(), "Interactive auth not supported for jump host");

    let mut j = jump(SshAuthType::Password);
    j.password = Some(String::from("bpw"));
    assert!(matches!(jump_host_credentials(&j), Ok(AuthMethod::UsePassword(_))));
}

#[test]
fn jump_relay_command_text() {
    let cmd = jump_ssh_command(2222, "deploy", "10.0.0.5");
    assert_eq!(cmd, "ssh -o StrictHostKeyChecking=no -p 2222 deploy@10.0.0.5");
}

#[test]
fn transport_address_text() {
    assert_eq!(host_port_string("198.51.100.7", 22), "198.51.100.7:22");
    assert_eq!(host_port_string("bastion", 65535), "bastion:65535");
}

#[test]
fn require_session_and_connected() {
    let mut reg = SessionRegistry::new();
    let err = reg.require_session("missing").unwrap_err();
    assert_eq!(err.message(), "Session not found");

    let record = SessionRecord::new(&request("password"));
    let id = record.session_id.clone();
    reg.insert_session(record);
    assert!(reg.require_session(&id).is_ok());

    // Present but still connecting: the channel operations refuse it.
    let err = reg.require_connected(&id).unwrap_err();
    assert_eq!(err.message(), "Session not connected");

    reg.set_status(&id, SessionStatus::Connected);
    assert!(reg.require_connected(&id).is_ok());
}

#[test]
fn exec_output_accumulates_until_close() {
    let mut out: Vec<u8> = Vec::new();
    assert!(!exec_output_step(&mut out, &ChannelEvent::Data(vec![104, 105])));
    assert!(!exec_output_step(&mut out, &ChannelEvent::ExtendedData(vec![33])));
    assert!(!exec_output_step(&mut out, &ChannelEvent::Other));
    assert!(exec_output_step(&mut out, &ChannelEvent::Eof));
    assert_eq!(exec_output_text(&out), "hi!");

    let mut out2: Vec<u8> = Vec::new();
    assert!(exec_output_step(&mut out2, &ChannelEvent::Closed));
    assert!(exec_output_step(&mut out2, &ChannelEvent::Ended));
    assert_eq!(exec_output_text(&out2), "");
}

#[test]
fn error_messages_flatten() {
    assert_eq!(OpsError::Cancelled.message(), "transfer cancelled");
    assert_eq!(OpsError::AuthFailed(String::from("rejected")).message(), "rejected");
    assert_eq!(OpsError::TransportFailed(String::from("refused")).message(), "refused");
    assert_eq!(OpsError::ProtocolFailed(String::from("eof")).message(), "eof");
}
