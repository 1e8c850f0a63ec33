//! Supervisor for a sidecar backend process.
//!
//! A desktop shell launches a bundled backend executable whose network port
//! is not known in advance. The backend announces its port by printing a
//! line `PORT:<decimal>` among the first lines of its standard output. This
//! crate holds the verified core of that arrangement: the bounded handshake
//! that discovers the port, the supervisor state that records the running
//! backend, the build-mode policy that decides whether to launch at all,
//! and the decision logic of the file-save and folder-open commands. The
//! unverified shell around it performs the actual process, dialog and file
//! work and feeds the outcomes back in as plain values.

pub mod commands;
pub mod environment;
pub mod errors;
pub mod handshake;
pub mod supervisor;
pub mod text;
