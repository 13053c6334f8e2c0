use openvr_session::desync::{COOLDOWN_NS, LATENCY_THRESHOLD_NS};
use openvr_session::event::{Action, Event, FovAngles, ViewsConfig};
use openvr_session::event_loop::{EventLoop, Poll, Step, IDLE_SLEEP_MS};
use openvr_session::float_bits::TWO_BITS;

const MS: u64 = 1_000_000;

fn bits(x: f32) -> u32 {
    x.to_bits()
}

fn fov(l: f32, r: f32, u: f32, d: f32) -> FovAngles {
    FovAngles { left: bits(l), right: bits(r), up: bits(u), down: bits(d) }
}

#[test]
fn client_connected_inits_streaming_then_resyncs() {
    let mut l = EventLoop::new(0, true);
    let a = l.handle_event(Event::ClientConnected, 10 * MS);
    assert_eq!(a, vec![Action::InitializeStreaming, Action::RequestDriverResync]);
}

#[test]
fn client_disconnected_deinits_streaming_once() {
    let mut l = EventLoop::new(0, true);
    let a = l.handle_event(Event::ClientDisconnected, 10 * MS);
    assert_eq!(a, vec![Action::DeinitializeStreaming]);
}

#[test]
fn playspace_sync_sets_chaperone_area() {
    let mut l = EventLoop::new(0, true);
    let a = l.handle_event(Event::PlayspaceSync { x: bits(2.0), y: bits(3.0) }, 0);
    assert_eq!(a, vec![Action::SetChaperoneArea { width: bits(2.0), height: bits(3.0) }]);
}

#[test]
fn battery_is_forwarded_unchanged() {
    let mut l = EventLoop::new(0, true);
    for (g, p) in [(0.0f32, false), (0.5, true), (1.0, true), (0.37, false)] {
        let a = l.handle_event(Event::Battery { device_id: 42, gauge_value: bits(g), is_plugged: p }, 0);
        assert_eq!(a, vec![Action::SetBattery { device_id: 42, gauge_value: bits(g), is_plugged: p }]);
        match a[0] {
            Action::SetBattery { gauge_value, .. } => assert_eq!(f32::from_bits(gauge_value), g),
            _ => panic!("unexpected action"),
        }
    }
}

#[test]
fn views_config_keeps_fov_and_derives_ipd() {
    let mut l = EventLoop::new(0, true);
    let c = ViewsConfig {
        left_fov: fov(-0.9, 0.8, 0.7, -0.6),
        right_fov: fov(-0.8, 0.9, 0.75, -0.65),
        left_eye_x: bits(-0.032),
        right_eye_x: bits(0.031),
    };
    let a = l.handle_event(Event::ViewsConfig(c), 0);
    assert_eq!(a.len(), 1);
    match a[0] {
        Action::SetViewsConfig { left_fov, right_fov, ipd_minuend, ipd_subtrahend } => {
            assert_eq!(left_fov, c.left_fov);
            assert_eq!(right_fov, c.right_fov);
            let ipd = f32::from_bits(ipd_minuend) - f32::from_bits(ipd_subtrahend);
            assert_eq!(ipd, 0.031f32 - (-0.032f32));
        }
        _ => panic!("unexpected action"),
    }
}

#[test]
fn request_idr_requests_keyframe() {
    let mut l = EventLoop::new(0, true);
    assert_eq!(l.handle_event(Event::RequestIdr, 0), vec![Action::RequestIdr]);
}

#[test]
fn latency_samples_within_cooldown_resync_once() {
    let mut l = EventLoop::new(0, true);
    let start = 1_000 * MS;
    let a = l.handle_event(Event::GameRenderLatencyFeedback { latency_ns: 300 * MS }, start);
    let b = l.handle_event(Event::GameRenderLatencyFeedback { latency_ns: 300 * MS }, start + 50 * MS);
    assert_eq!(a, vec![Action::RequestDriverResync]);
    assert_eq!(b, vec![]);
    assert_eq!(l.desync.last_resync_ns, start);
}

#[test]
fn latency_samples_past_cooldown_resync_twice() {
    let mut l = EventLoop::new(0, true);
    let start = 1_000 * MS;
    let a = l.handle_event(Event::GameRenderLatencyFeedback { latency_ns: 300 * MS }, start);
    let b = l.handle_event(Event::GameRenderLatencyFeedback { latency_ns: 300 * MS }, start + 200 * MS);
    assert_eq!(a, vec![Action::RequestDriverResync]);
    assert_eq!(b, vec![Action::RequestDriverResync]);
    assert_eq!(l.desync.last_resync_ns, start + 200 * MS);
}

#[test]
fn latency_at_threshold_does_not_resync() {
    let mut l = EventLoop::new(0, true);
    let a = l.handle_event(Event::GameRenderLatencyFeedback { latency_ns: LATENCY_THRESHOLD_NS }, 1_000 * MS);
    assert_eq!(a, vec![]);
    assert_eq!(l.desync.last_resync_ns, 0);
}

#[test]
fn resync_needs_strictly_more_than_cooldown() {
    let mut l = EventLoop::new(0, true);
    let a = l.handle_event(Event::GameRenderLatencyFeedback { latency_ns: 300 * MS }, COOLDOWN_NS);
    assert_eq!(a, vec![]);
    let b = l.handle_event(Event::GameRenderLatencyFeedback { latency_ns: 300 * MS }, COOLDOWN_NS + 1);
    assert_eq!(b, vec![Action::RequestDriverResync]);
}

#[test]
fn latency_feedback_ignored_without_recovery() {
    let mut l = EventLoop::new(0, false);
    let a = l.handle_event(Event::GameRenderLatencyFeedback { latency_ns: 900 * MS }, 5_000 * MS);
    assert_eq!(a, vec![]);
}

#[test]
fn clock_going_backwards_counts_as_no_time() {
    let mut l = EventLoop::new(5_000 * MS, true);
    let a = l.handle_event(Event::GameRenderLatencyFeedback { latency_ns: 900 * MS }, 1_000 * MS);
    assert_eq!(a, vec![]);
}

#[test]
fn shutdown_takes_context_then_shuts_down_host() {
    let mut l = EventLoop::new(0, true);
    let before = l;
    let a = l.handle_event(Event::ShutdownPending, 0);
    assert_eq!(a, vec![Action::TakeContext, Action::ShutdownRuntime]);
    assert_eq!(l, before);
}

#[test]
fn restart_runs_hook_before_host_shutdown() {
    let mut l = EventLoop::new(0, true);
    let a = l.handle_event(Event::RestartPending, 0);
    assert_eq!(a, vec![Action::RestartContext, Action::ShutdownRuntime]);
}

#[test]
fn poll_outcomes_decide_next_step() {
    let mut l = EventLoop::new(0, true);
    assert_eq!(l.step(Poll::Idle, 0), Step::Sleep(IDLE_SLEEP_MS));
    assert_eq!(IDLE_SLEEP_MS, 5);
    assert_eq!(l.step(Poll::NoContext, 0), Step::Finish(vec![Action::ShutdownBridge]));
    assert_eq!(
        l.step(Poll::Event(Event::ClientDisconnected), 0),
        Step::Dispatch(vec![Action::DeinitializeStreaming])
    );
}

#[test]
fn startup_actions() {
    assert_eq!(TWO_BITS, 2.0f32.to_bits());
    assert_eq!(
        EventLoop::startup(true),
        vec![
            Action::InitBridge,
            Action::SetChaperoneArea { width: bits(2.0), height: bits(2.0) },
            Action::StartConnection,
        ]
    );
    assert_eq!(EventLoop::startup(false), vec![Action::InitBridge, Action::StartConnection]);
}
