//! Session and transfer core of a desktop operations console backend.
//!
//! The library models the state that the backend keeps for many concurrent
//! SSH terminal sessions, the SFTP sub-sessions layered on top of them, and
//! the chunked file-transfer tasks with progress reporting, cancellation and
//! resume. Registries, status transitions, transfer planning, listing order
//! and metadata formatting are verified; the network and file I/O around
//! them is driven by an unverified shell that calls into this crate.

pub mod bytes;
pub mod connection;
pub mod crypto;
pub mod database;
pub mod errors;
pub mod seqs;
pub mod sftp;
pub mod sftp_registry;
pub mod session;
pub mod ssh;
pub mod text;
pub mod ident;
pub mod listing;
pub mod transfer;
pub mod transport;
pub mod transfer_manager;
pub mod upload;

pub use errors::OpsError;
