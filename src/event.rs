//! What a session reports, and what the loop asks of the host and of the
//! session cell in reply.
use vstd::prelude::*;

verus! {

/// Field-of-view angles of one eye, as single-precision bit patterns.
#[derive(Clone, Copy, Debug, PartialEq, Eq, Structural)]
pub struct FovAngles {
    pub left: u32,
    pub right: u32,
    pub up: u32,
    pub down: u32,
}

/// Per-eye view configuration: the field of view of each eye and the `x`
/// coordinate of each eye's local view transform (bit patterns), left eye first.
#[derive(Clone, Copy, Debug, PartialEq, Eq, Structural)]
pub struct ViewsConfig {
    pub left_fov: FovAngles,
    pub right_fov: FovAngles,
    pub left_eye_x: u32,
    pub right_eye_x: u32,
}

/// A lifecycle event polled from the session.
#[derive(Clone, Copy, Debug, PartialEq, Eq, Structural)]
pub enum Event {
    ClientConnected,
    ClientDisconnected,
    /// `gauge_value` is the bit pattern of a charge level in `[0, 1]`.
    Battery { device_id: u64, gauge_value: u32, is_plugged: bool },
    /// Play-space bounds in meters, as bit patterns.
    PlayspaceSync { x: u32, y: u32 },
    ViewsConfig(ViewsConfig),
    RequestIdr,
    /// Measured render-to-display latency, in nanoseconds.
    GameRenderLatencyFeedback { latency_ns: u64 },
    ShutdownPending,
    RestartPending,
}

/// One effect requested by the event loop, carried out in order by the
/// driver that runs it.
#[derive(Clone, Copy, Debug, PartialEq, Eq, Structural)]
pub enum Action {
    /// Connect the host-side bridge.
    InitBridge,
    /// Disconnect the host-side bridge.
    ShutdownBridge,
    /// Tell the current session, if any, to accept connections.
    StartConnection,
    InitializeStreaming,
    DeinitializeStreaming,
    RequestDriverResync,
    SetBattery { device_id: u64, gauge_value: u32, is_plugged: bool },
    SetChaperoneArea { width: u32, height: u32 },
    /// Both eyes' fields of view, and the ipd as `ipd_minuend - ipd_subtrahend`
    /// in single precision.
    SetViewsConfig {
        left_fov: FovAngles,
        right_fov: FovAngles,
        ipd_minuend: u32,
        ipd_subtrahend: u32,
    },
    RequestIdr,
    /// Remove the session from the shared cell and drop it.
    TakeContext,
    /// Remove the session from the shared cell and run its restart hook.
    RestartContext,
    /// Ask the host runtime to shut down.
    ShutdownRuntime,
}

} // verus!
