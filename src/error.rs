//! The failures that a request to a remote player can meet.

use vstd::prelude::*;

verus! {

/// Why a request to a remote player failed. None of them is retried here:
/// each goes back to the caller.
#[derive(Debug, Clone, Copy, PartialEq, Eq, Structural)]
pub enum Error {
    /// The bus or the connection failed.
    Transport,
    /// The remote object does not implement the interface that was asked for.
    InterfaceUnavailable,
    /// A value on the wire does not have the shape that its descriptor declares.
    Parse,
    /// The remote refused a write or a call.
    WriteRejected,
}

} // verus!
