//! The events a running sidecar's output channel delivers, and the action
//! the relay takes for each of them.

use vstd::prelude::*;

verus! {

/// One event from the multiplexed output channel of a running sidecar.
/// Chunks of one stream arrive in the order the child wrote them; no order
/// is guaranteed between the two streams.
#[derive(Debug, PartialEq, Eq)]
pub enum SidecarEvent {
    /// A chunk of bytes the child wrote to its standard output.
    Stdout(Vec<u8>),
    /// A chunk of bytes the child wrote to its standard error.
    Stderr(Vec<u8>),
    /// An error reported by the channel itself; the child may still be
    /// running, and the relay keeps going.
    ChannelError(String),
    /// Any other event kind, such as process termination: ignored.
    Other,
}

/// What the relay does with one event.
#[derive(Debug, PartialEq, Eq)]
pub enum LogAction {
    /// Write this one line to the informational sink.
    InfoLine(String),
    /// Write this one line to the error sink.
    ErrorLine(String),
    /// Write nothing.
    Skip,
}

} // verus!
