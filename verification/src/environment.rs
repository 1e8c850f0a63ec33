//! Build-mode selection: whether the supervisor launches the sidecar itself
//! (production) or assumes an externally managed backend on a fixed port
//! (development).

use vstd::prelude::*;

verus! {

/// The build-time mode the shell was compiled for.
#[derive(Clone, Copy, PartialEq, Eq, Structural, Debug)]
pub enum Mode {
    Development,
    Production,
}

/// Port the backend is expected on when it is managed externally
/// (development mode).
pub const DEVELOPMENT_PORT: u16 = 8080;

/// Delay, in milliseconds, between application launch and the automatic
/// start attempt in production mode; it lets the host window finish
/// initializing and is not a synchronization primitive.
pub const AUTO_START_DELAY_MS: u64 = 500;

/// Port value passed to the sidecar to request automatic port assignment;
/// never stored or reported as a discovered port.
pub const PORT_AUTO_ASSIGN: u16 = 0;

/// Whether the shell schedules an automatic start attempt shortly after
/// launch: only in production mode. A failure of that attempt is reported
/// and otherwise swallowed; the application keeps running without a
/// backend.
pub fn should_auto_start(mode: Mode) -> (r: bool)
    ensures
        r == (mode is Production),
{
    match mode {
        Mode::Development => false,
        Mode::Production => true,
    }
}

/// Directory under the application's resource directory that holds the
/// bundled sidecar binary.
pub fn sidecar_resource_subdir() -> (d: &'static str)
    ensures
        d@ == "binaries"@,
{
    "binaries"
}

/// File name of the bundled sidecar binary (the host environment resolves
/// any platform suffix).
pub fn sidecar_binary_name() -> (n: &'static str)
    ensures
        n@ == "cribl-hc-backend"@,
{
    "cribl-hc-backend"
}

/// Command-line flag through which the sidecar is asked to bind a port;
/// it is passed [`PORT_AUTO_ASSIGN`] to request automatic assignment.
pub fn sidecar_port_flag() -> (f: &'static str)
    ensures
        f@ == "--port"@,
{
    "--port"
}

} // verus!
