//! How long a host thread waits for the next frame boundary.
use vstd::prelude::*;

verus! {

/// The sleep before the next vsync. The session is asked, through
/// `until_next_vsync`, only when the "optimize render latency" setting is on;
/// otherwise there is no sleep. The caller sleeps, never this function.
pub fn vsync_sleep<F: FnOnce() -> Option<u64>>(optimize_render_latency: bool, until_next_vsync: F) -> (r: Option<u64>)
    requires
        optimize_render_latency ==> until_next_vsync.requires(()),
    ensures
        optimize_render_latency ==> until_next_vsync.ensures((), r),
        !optimize_render_latency ==> r is None,
{
    if optimize_render_latency {
        until_next_vsync()
    } else {
        None
    }
}

} // verus!
