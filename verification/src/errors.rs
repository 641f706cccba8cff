//! Error taxonomy of the client core.

use vstd::prelude::*;

verus! {

/// The failure classes the core distinguishes.
///
/// - `Configuration`: a connection setting is absent or malformed; fatal at
///   startup, never retried.
/// - `Transport`: the socket could not be opened, written or read; recovery
///   is the caller's or the watchdog's choice.
/// - `MalformedResponse`: an inbound line did not parse into the expected
///   shape; surfaced, not retried.
/// - `UnknownDevice`: a symbolic light id outside the two known fixtures; a
///   caller-facing validation failure.
#[derive(Clone, Copy, PartialEq, Eq, Structural, Debug)]
pub enum ClientError {
    Configuration,
    Transport,
    MalformedResponse,
    UnknownDevice,
}

} // verus!
