//! Which backend stands behind a handle.

use vstd::prelude::*;
use vstd::string::*;
use crate::text::{chars_of, spells};

verus! {

/// The backend that a handle is made for.
#[derive(Debug, PartialEq, Eq)]
pub enum Backend {
    /// The unit in memory.
    Simulated,
    /// The unit on the serial device with this path.
    Serial(String),
    /// The unit on the serial device that the platform has by default.
    DefaultSerial,
}

/// The serial device of a unit where nothing else is said, on Unix.
pub const DEFAULT_TTY_UNIX: &'static str = "/dev/ttyUSB0";

/// The serial device of a unit where nothing else is said, on Windows.
pub const DEFAULT_TTY_WINDOWS: &'static str = "COM3";

/// The word that selects the simulated unit.
pub open spec fn simulator_word() -> Seq<char> {
    "virtual"@
}

/// The backend for what the caller named: without a path the platform's
/// default serial device; with the simulator's word the simulated unit; with
/// any other path the serial device of that path.
pub fn select_backend(path: Option<&str>) -> (backend: Backend)
    ensures
        match path {
            None => backend is DefaultSerial,
            Some(p) => if p@ == simulator_word() {
                backend is Simulated
            } else {
                backend is Serial && backend->Serial_0@ == p@
            },
        },
{
    match path {
        None => Backend::DefaultSerial,
        Some(p) => {
            let text = chars_of(p);
            if spells(&text, "virtual") {
                Backend::Simulated
            } else {
                Backend::Serial(String::from_str(p))
            }
        },
    }
}

} // verus!
