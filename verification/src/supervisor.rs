//! The sidecar supervisor: the state that records the running backend and
//! the decisions of the start and query operations.
//!
//! The unverified shell performs the outside work of a production start —
//! resolving the bundled binary's path, spawning it, and reading its output
//! through the handshake — and reports how far it got as a
//! [`LaunchOutcome`]; the supervisor turns that outcome into the state
//! transition and the reply.

use vstd::prelude::*;

use crate::environment::DEVELOPMENT_PORT;
use crate::errors::{QueryError, StartError};
use crate::text::{decimal_chars, u16_decimal};

verus! {

/// How far a production launch attempt got, as reported by the shell.
pub enum LaunchOutcome {
    /// The host's resource-location service produced no path to the
    /// binary; carries that service's error text.
    ResolutionFailed(String),
    /// Process creation failed; carries the OS error text.
    SpawnFailed(String),
    /// The child was spawned; the handshake then found this port, or none.
    Launched(Option<u16>),
}

/// The backend URL for a discovered port.
pub open spec fn url_chars(port: u16) -> Seq<char> {
    "http://localhost:"@ + decimal_chars(port as nat)
}

/// The status text for a discovered port.
pub open spec fn status_chars(port: u16) -> Seq<char> {
    "Backend status: Running on "@ + url_chars(port)
}

/// The reply to a successful production start.
pub open spec fn started_message_chars(port: u16) -> Seq<char> {
    "Backend started on port "@ + decimal_chars(port as nat)
}

/// The reply to a development-mode start.
pub open spec fn development_message_chars() -> Seq<char> {
    "Development mode - backend should be started manually on port 8080"@
}

/// What the supervisor knows of the backend: the discovered port, if any,
/// and whether a child process handle is held.
///
/// One instance exists per running application, owned by the composition
/// root; the shell serializes access to it across command invocations. The
/// port, once set, is never reset. A repeated start is deliberately not
/// guarded against: a second successful production start overwrites the
/// stored handle and port.
pub struct SidecarState {
    /// The discovered (or development-default) port, once a start succeeded.
    pub port: Option<u16>,
    /// Whether a spawned child's handle is held by the shell.
    pub child_running: bool,
}

impl SidecarState {
    /// The unstarted state: no port, no child.
    pub fn new() -> (r: Self)
        ensures
            r.port is None,
            !r.child_running,
    {
        SidecarState { port: None, child_running: false }
    }

    /// Development-mode start: the backend is managed externally on the
    /// fixed development port. Nothing is spawned — the signature offers no
    /// way to report a launch — the port is recorded, and the reply says a
    /// manual start is expected. This never fails.
    pub fn start_development(&mut self) -> (msg: String)
        ensures
            final(self).port == Some(DEVELOPMENT_PORT),
            final(self).child_running == old(self).child_running,
            msg@ == development_message_chars(),
    {
        self.port = Some(DEVELOPMENT_PORT);
        "Development mode - backend should be started manually on port 8080".to_owned()
    }

    /// Production-mode start: record what the shell's launch attempt came
    /// to. Only a launch whose handshake discovered a valid port changes
    /// the state; every failure leaves it exactly as it was, and the
    /// failure's own error text is carried in the reply. A reported port of
    /// zero is refused like a failed handshake: zero is only the
    /// auto-assign request, never a stored or reported port.
    pub fn start_production(&mut self, launch: LaunchOutcome) -> (r: Result<String, StartError>)
        ensures
            // A port, once recorded, is never reset, only overwritten; and
            // a recorded port is never zero.
            old(self).port is Some ==> final(self).port is Some,
            r is Ok ==> final(self).port is Some && final(self).port != Some(0u16),
            match launch {
                LaunchOutcome::ResolutionFailed(d) => r == Err::<String, StartError>(
                    StartError::ResourceResolution(d),
                ) && *final(self) == *old(self),
                LaunchOutcome::SpawnFailed(d) => r == Err::<String, StartError>(
                    StartError::Spawn(d),
                ) && *final(self) == *old(self),
                LaunchOutcome::Launched(found) => match found {
                    None => r == Err::<String, StartError>(StartError::PortNotFound) && *final(self)
                        == *old(self),
                    Some(p) => if p == 0 {
                        r == Err::<String, StartError>(StartError::PortNotFound) && *final(self)
                            == *old(self)
                    } else {
                        (r matches Ok(m) && m@ == started_message_chars(p))
                            && final(self).port == Some(p) && final(self).child_running
                    },
                },
            },
    {
        match launch {
            LaunchOutcome::ResolutionFailed(d) => Err(StartError::ResourceResolution(d)),
            LaunchOutcome::SpawnFailed(d) => Err(StartError::Spawn(d)),
            LaunchOutcome::Launched(None) => Err(StartError::PortNotFound),
            LaunchOutcome::Launched(Some(p)) => {
                if p == 0 {
                    Err(StartError::PortNotFound)
                } else {
                    self.port = Some(p);
                    self.child_running = true;
                    Ok("Backend started on port ".to_owned().concat(u16_decimal(p).as_str()))
                }
            },
        }
    }

    /// The backend's address, `http://localhost:<port>`, once a start has
    /// recorded a port; `NotStarted` before that.
    pub fn get_url(&self) -> (r: Result<String, QueryError>)
        ensures
            match self.port {
                Some(p) => r matches Ok(u) && u@ == url_chars(p),
                None => r == Err::<String, QueryError>(QueryError::NotStarted),
            },
    {
        match self.port {
            Some(p) => Ok("http://localhost:".to_owned().concat(u16_decimal(p).as_str())),
            None => Err(QueryError::NotStarted),
        }
    }

    /// A best-effort status line derived from the stored port. It performs
    /// no health check: it only reports the URL it believes is correct.
    pub fn get_status(&self) -> (r: Result<String, QueryError>)
        ensures
            match self.port {
                Some(p) => r matches Ok(s) && s@ == status_chars(p),
                None => r == Err::<String, QueryError>(QueryError::NotStarted),
            },
    {
        match self.get_url() {
            Ok(url) => Ok("Backend status: Running on ".to_owned().concat(url.as_str())),
            Err(e) => Err(e),
        }
    }
}

} // verus!
