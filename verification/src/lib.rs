//! A TCP-ping library: the decision logic of a tool that repeatedly opens a
//! TCP connection to one target, measures the handshake, and reports each
//! attempt.  The library resolves the target host (classifying IP literals so
//! that no name lookup is needed for them), plans how each fresh socket is
//! bound to a local interface, and drives the attempt-counting probe loop.
//! All socket, timer and console work stays outside, in the binary that wraps
//! this crate; the binary hands plain values in and takes plain values back.

pub mod binder;
pub mod ip;
pub mod payload;
pub mod probe;
pub mod resolve;
