//! Lifecycle management for a locally installed speech-recognition server.
//!
//! The heart of the crate is a verified model of the server's lifecycle:
//! provisioning the installation directory, running the platform start/stop
//! scripts, polling the health endpoint, and publishing status snapshots to
//! observers.  All decisions are made by pure, verified step functions; the
//! surrounding process, filesystem and network work is performed by a thin
//! unverified driver that feeds events back into the state machines.

pub mod clock;
pub mod config;
pub mod confmerge;
pub mod endpoint;
pub mod history;
pub mod hotkeys;
pub mod ids;
pub mod lifecycle;
pub mod notes;
pub mod oauth;
pub mod ops;
pub mod probe;
pub mod provision;
pub mod status;
pub mod text;
