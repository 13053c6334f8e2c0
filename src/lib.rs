//! Session-lifecycle core of a remote-rendering driver: the decisions of the
//! event loop, the desync-recovery heuristic, the frame-pacing query and the
//! haptics forwarder, as verified functions over plain values.
//!
//! Floating-point payloads travel as their IEEE-754 single-precision bit
//! patterns (`u32`); durations and instants are counted in nanoseconds.
pub mod float_bits;
pub mod desync;
pub mod event;
pub mod event_loop;
pub mod haptics;
pub mod pacing;
pub mod session;
