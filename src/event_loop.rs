//! The decisions of the event-dispatch loop, one poll at a time.
use vstd::prelude::*;
use crate::desync::DesyncTracker;
use crate::event::{Action, Event, FovAngles, ViewsConfig};
use crate::float_bits::TWO_BITS;

verus! {

/// How long the loop sleeps after a poll that found no event.
pub const IDLE_SLEEP_MS: u64 = 5;

/// What one poll of the shared session cell found.
#[derive(Clone, Copy, Debug, PartialEq, Eq, Structural)]
pub enum Poll {
    /// The cell holds no session: the loop is over.
    NoContext,
    /// A session is there but had nothing to report.
    Idle,
    /// A session reported this event.
    Event(Event),
}

/// What the loop does after a poll.
#[derive(Debug, PartialEq, Eq)]
pub enum Step {
    /// Sleep this many milliseconds, holding no lock, then poll again.
    Sleep(u64),
    /// Carry out these actions in order, then poll again.
    Dispatch(Vec<Action>),
    /// Carry out these actions in order and leave the loop.
    Finish(Vec<Action>),
}

/// The view configuration forwarded to the host: fields of view unchanged,
/// ipd as the right eye's `x` minus the left eye's.
pub open spec fn views_action(c: ViewsConfig) -> Action {
    Action::SetViewsConfig {
        left_fov: c.left_fov,
        right_fov: c.right_fov,
        ipd_minuend: c.right_eye_x,
        ipd_subtrahend: c.left_eye_x,
    }
}

/// The actions for `e`, where `resync` says whether the desync heuristic
/// fired on it.
pub open spec fn actions_for(e: Event, resync: bool) -> Seq<Action> {
    match e {
        Event::ClientConnected => seq![Action::InitializeStreaming, Action::RequestDriverResync],
        Event::ClientDisconnected => seq![Action::DeinitializeStreaming],
        Event::Battery { device_id, gauge_value, is_plugged } => seq![
            Action::SetBattery { device_id, gauge_value, is_plugged },
        ],
        Event::PlayspaceSync { x, y } => seq![Action::SetChaperoneArea { width: x, height: y }],
        Event::ViewsConfig(c) => seq![views_action(c)],
        Event::RequestIdr => seq![Action::RequestIdr],
        Event::GameRenderLatencyFeedback { .. } => if resync {
            seq![Action::RequestDriverResync]
        } else {
            seq![]
        },
        Event::ShutdownPending => seq![Action::TakeContext, Action::ShutdownRuntime],
        Event::RestartPending => seq![Action::RestartContext, Action::ShutdownRuntime],
    }
}

/// The actions that start the loop: connect the bridge, set a default 2 m by
/// 2 m play space if asked to, and let the session accept connections.
pub open spec fn startup_spec(set_default_chaperone: bool) -> Seq<Action> {
    if set_default_chaperone {
        seq![
            Action::InitBridge,
            Action::SetChaperoneArea { width: TWO_BITS, height: TWO_BITS },
            Action::StartConnection,
        ]
    } else {
        seq![Action::InitBridge, Action::StartConnection]
    }
}

/// State of the event-dispatch loop.
#[derive(Clone, Copy, Debug, PartialEq, Eq, Structural)]
pub struct EventLoop {
    pub desync: DesyncTracker,
}

impl EventLoop {
    /// The tracker after handling `e` at `now_ns`.
    pub open spec fn after_event(self, e: Event, now_ns: u64) -> EventLoop {
        match e {
            Event::GameRenderLatencyFeedback { latency_ns } => EventLoop {
                desync: self.desync.after_sample(latency_ns, now_ns),
            },
            _ => self,
        }
    }

    /// The actions for `e` handled at `now_ns`.
    pub open spec fn reaction(self, e: Event, now_ns: u64) -> Seq<Action> {
        match e {
            Event::GameRenderLatencyFeedback { latency_ns } => actions_for(
                e,
                self.desync.calls_for_resync(latency_ns, now_ns),
            ),
            _ => actions_for(e, false),
        }
    }

    /// A loop started at `now_ns`; `desync_recovery` says whether latency
    /// feedback is acted on where it runs.
    pub fn new(now_ns: u64, desync_recovery: bool) -> (r: EventLoop)
        ensures
            r.desync.last_resync_ns == now_ns,
            r.desync.recovery_enabled == desync_recovery,
    {
        EventLoop { desync: DesyncTracker::new(now_ns, desync_recovery) }
    }

    /// The actions to carry out before the first poll.
    pub fn startup(set_default_chaperone: bool) -> (r: Vec<Action>)
        ensures
            r@ == startup_spec(set_default_chaperone),
    {
        let mut r = Vec::new();
        r.push(Action::InitBridge);
        if set_default_chaperone {
            r.push(Action::SetChaperoneArea { width: TWO_BITS, height: TWO_BITS });
        }
        r.push(Action::StartConnection);
        r
    }

    /// Handles one event taken from the session at `now_ns`.
    pub fn handle_event(&mut self, e: Event, now_ns: u64) -> (r: Vec<Action>)
        ensures
            r@ == old(self).reaction(e, now_ns),
            *final(self) == old(self).after_event(e, now_ns),
    {
        match e {
            Event::ClientConnected => vec![Action::InitializeStreaming, Action::RequestDriverResync],
            Event::ClientDisconnected => vec![Action::DeinitializeStreaming],
            Event::Battery { device_id, gauge_value, is_plugged } => vec![
                Action::SetBattery { device_id, gauge_value, is_plugged },
            ],
            Event::PlayspaceSync { x, y } => vec![Action::SetChaperoneArea { width: x, height: y }],
            Event::ViewsConfig(c) => vec![
                Action::SetViewsConfig {
                    left_fov: c.left_fov,
                    right_fov: c.right_fov,
                    ipd_minuend: c.right_eye_x,
                    ipd_subtrahend: c.left_eye_x,
                },
            ],
            Event::RequestIdr => vec![Action::RequestIdr],
            Event::GameRenderLatencyFeedback { latency_ns } => {
                if self.desync.on_latency_sample(latency_ns, now_ns) {
                    vec![Action::RequestDriverResync]
                } else {
                    Vec::new()
                }
            },
            Event::ShutdownPending => vec![Action::TakeContext, Action::ShutdownRuntime],
            Event::RestartPending => vec![Action::RestartContext, Action::ShutdownRuntime],
        }
    }

    /// Decides what follows a poll made at `now_ns`.
    pub fn step(&mut self, poll: Poll, now_ns: u64) -> (r: Step)
        ensures
            match poll {
                Poll::NoContext => r matches Step::Finish(a) && a@ == seq![Action::ShutdownBridge]
                    && *final(self) == *old(self),
                Poll::Idle => r == Step::Sleep(IDLE_SLEEP_MS) && *final(self) == *old(self),
                Poll::Event(e) => r matches Step::Dispatch(a) && a@ == old(self).reaction(e, now_ns)
                    && *final(self) == old(self).after_event(e, now_ns),
            },
    {
        match poll {
            Poll::NoContext => Step::Finish(vec![Action::ShutdownBridge]),
            Poll::Idle => Step::Sleep(IDLE_SLEEP_MS),
            Poll::Event(e) => Step::Dispatch(self.handle_event(e, now_ns)),
        }
    }
}


/// A battery report yields exactly one host call, with the device, gauge and
/// plugged flag unchanged, whatever the loop's state.
pub proof fn lemma_battery_forwarded(l: EventLoop, device_id: u64, gauge_value: u32, is_plugged: bool, now_ns: u64)
    ensures
        l.reaction(Event::Battery { device_id, gauge_value, is_plugged }, now_ns) == seq![
            Action::SetBattery { device_id, gauge_value, is_plugged },
        ],
{
}

/// A view configuration passes each eye's field of view through unchanged and
/// sends the ipd as the right eye's `x` minus the left eye's.
pub proof fn lemma_views_config_forwarded(l: EventLoop, c: ViewsConfig, now_ns: u64)
    ensures
        l.reaction(Event::ViewsConfig(c), now_ns) == seq![
            Action::SetViewsConfig {
                left_fov: c.left_fov,
                right_fov: c.right_fov,
                ipd_minuend: c.right_eye_x,
                ipd_subtrahend: c.left_eye_x,
            },
        ],
{
}

/// A pending shutdown empties the session cell and then shuts the host down,
/// leaving the loop's state alone; the next poll finds no session, and with
/// no session a poll ends the loop.
pub proof fn lemma_shutdown_terminal(l: EventLoop, now_ns: u64)
    ensures
        l.reaction(Event::ShutdownPending, now_ns) == seq![Action::TakeContext, Action::ShutdownRuntime],
        l.after_event(Event::ShutdownPending, now_ns) == l,
{
}

/// A pending restart hands the session to its restart hook before the host is
/// asked to shut down, in that order and with nothing in between.
pub proof fn lemma_restart_before_shutdown(l: EventLoop, now_ns: u64)
    ensures
        l.reaction(Event::RestartPending, now_ns) == seq![Action::RestartContext, Action::ShutdownRuntime],
        l.after_event(Event::RestartPending, now_ns) == l,
{
}

/// A client connection starts streaming and then asks for one resync; a
/// disconnection stops streaming; a play-space report sets the chaperone to
/// its bounds.
pub proof fn lemma_connection_events(l: EventLoop, x: u32, y: u32, now_ns: u64)
    ensures
        l.reaction(Event::ClientConnected, now_ns) == seq![
            Action::InitializeStreaming,
            Action::RequestDriverResync,
        ],
        l.reaction(Event::ClientDisconnected, now_ns) == seq![Action::DeinitializeStreaming],
        l.reaction(Event::PlayspaceSync { x, y }, now_ns) == seq![
            Action::SetChaperoneArea { width: x, height: y },
        ],
{
}

} // verus!
