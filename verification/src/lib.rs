//! Verified core of a sidecar launcher: a desktop shell starts a bundled
//! background executable and relays its output streams to the host's log
//! sinks. The decisions — which binary to start with which arguments, what
//! to do when the spawn fails, and which line each output event turns into —
//! live here with contracts; the host glue that performs the actual process
//! and console I/O sits outside the library.

pub mod decode;
pub mod event;
pub mod launch;
pub mod relay;
