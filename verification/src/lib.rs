//! Connection-liveness prober: the verified decision core of a periodic
//! keepalive task that opens a transient connection, sends a probe, and
//! races an acknowledgment against a timeout.

pub mod cycle;
pub mod protocol;
pub mod schedule;
pub mod trace;
