//! Verified core of a stream tunnel server: frame codec, stream
//! classification, DNS-over-HTTPS command processing, and the relay pump
//! step logic. Transport, tunnel-device and HTTP plumbing live outside the
//! library and call into it with plain values.

use vstd::prelude::*;

pub mod classify;
pub mod doh;
pub mod frame;
pub mod relay;

verus! {

/// Most bytes a sniffing session reads from a stream before classifying
/// its payload.
pub const CLASSIFY_READ_LIMIT: usize = 65536;

/// Most bytes a client reads back for one lookup reply.
pub const DOH_REPLY_READ_LIMIT: usize = 262144;

/// Size of the buffer a downlink pump offers the interface for one packet
/// read: the interface's native packet size.
pub const INTERFACE_BUF_LEN: usize = 2000;

/// Hook for process-wide networking setup. The endpoint and the virtual
/// interface are opened and owned by their respective callers.
pub fn init_networking() {
}

} // verus!
