//! Desync detection: a render-latency sample that is too high asks the host
//! for a resync, at most once per cooldown period.
use vstd::prelude::*;

verus! {

/// Latency above which a sample counts as a desync (0.25 s).
pub const LATENCY_THRESHOLD_NS: u64 = 250_000_000;

/// Time that must have passed since the last resync before another (0.1 s).
pub const COOLDOWN_NS: u64 = 100_000_000;

/// `a - b`, or zero where `b` is later than `a`.
pub open spec fn saturating_elapsed(now_ns: u64, since_ns: u64) -> u64 {
    if now_ns >= since_ns {
        (now_ns - since_ns) as u64
    } else {
        0
    }
}

/// State of the heuristic: when the last resync was issued, and whether the
/// platform makes latency feedback meaningful at all.
#[derive(Clone, Copy, Debug, PartialEq, Eq, Structural)]
pub struct DesyncTracker {
    pub last_resync_ns: u64,
    pub recovery_enabled: bool,
}

impl DesyncTracker {
    /// A sample of `latency_ns` taken at `now_ns` calls for a resync.
    pub open spec fn calls_for_resync(self, latency_ns: u64, now_ns: u64) -> bool {
        &&& self.recovery_enabled
        &&& latency_ns > LATENCY_THRESHOLD_NS
        &&& saturating_elapsed(now_ns, self.last_resync_ns) > COOLDOWN_NS
    }

    /// The tracker after a sample: the cooldown clock restarts at `now_ns`
    /// exactly when a resync is issued.
    pub open spec fn after_sample(self, latency_ns: u64, now_ns: u64) -> DesyncTracker {
        if self.calls_for_resync(latency_ns, now_ns) {
            DesyncTracker { last_resync_ns: now_ns, ..self }
        } else {
            self
        }
    }

    /// A tracker whose cooldown starts at `now_ns`.
    pub fn new(now_ns: u64, recovery_enabled: bool) -> (r: DesyncTracker)
        ensures
            r.last_resync_ns == now_ns,
            r.recovery_enabled == recovery_enabled,
    {
        DesyncTracker { last_resync_ns: now_ns, recovery_enabled }
    }

    /// Takes one latency sample; returns whether a resync is to be issued.
    pub fn on_latency_sample(&mut self, latency_ns: u64, now_ns: u64) -> (resync: bool)
        ensures
            resync == old(self).calls_for_resync(latency_ns, now_ns),
            *final(self) == old(self).after_sample(latency_ns, now_ns),
    {
        if self.recovery_enabled && latency_ns > LATENCY_THRESHOLD_NS {
            let elapsed = now_ns.saturating_sub(self.last_resync_ns);
            if elapsed > COOLDOWN_NS {
                self.last_resync_ns = now_ns;
                return true;
            }
        }
        false
    }
}

/// A resync is issued for a sample if and only if recovery is enabled, the
/// latency is above the threshold and more than the cooldown has passed since
/// the last resync; issuing one restarts the cooldown clock at the sample's time.
pub proof fn lemma_resync_iff(t: DesyncTracker, latency_ns: u64, now_ns: u64)
    ensures
        t.calls_for_resync(latency_ns, now_ns) <==> (t.recovery_enabled && latency_ns
            > LATENCY_THRESHOLD_NS && saturating_elapsed(now_ns, t.last_resync_ns) > COOLDOWN_NS),
        t.calls_for_resync(latency_ns, now_ns) ==> t.after_sample(
            latency_ns,
            now_ns,
        ).last_resync_ns == now_ns,
        !t.calls_for_resync(latency_ns, now_ns) ==> t.after_sample(latency_ns, now_ns) == t,
{
}

/// After a resync at `first_ns`, a later high-latency sample at `second_ns`
/// issues another exactly when more than the cooldown lies between them.
pub proof fn lemma_cooldown_between_samples(
    t: DesyncTracker,
    first_latency_ns: u64,
    first_ns: u64,
    second_latency_ns: u64,
    second_ns: u64,
)
    requires
        t.calls_for_resync(first_latency_ns, first_ns),
        first_ns <= second_ns,
        second_latency_ns > LATENCY_THRESHOLD_NS,
    ensures
        t.after_sample(first_latency_ns, first_ns).calls_for_resync(second_latency_ns, second_ns)
            <==> second_ns - first_ns > COOLDOWN_NS,
{
}

/// A latency sample: the measured latency and when it was taken, both in
/// nanoseconds.
pub struct LatencySample {
    pub latency_ns: u64,
    pub at_ns: u64,
}

/// The tracker after taking the samples of `s` in order.
pub open spec fn run_samples(t: DesyncTracker, s: Seq<LatencySample>) -> DesyncTracker
    decreases s.len(),
{
    if s.len() == 0 {
        t
    } else {
        run_samples(t, s.drop_last()).after_sample(s.last().latency_ns, s.last().at_ns)
    }
}

/// Whether the `i`-th sample of `s` issues a resync, the samples before it
/// having been taken in order.
pub open spec fn resync_issued(t: DesyncTracker, s: Seq<LatencySample>, i: int) -> bool {
    run_samples(t, s.take(i)).calls_for_resync(s[i].latency_ns, s[i].at_ns)
}

/// When the last resync among the first `i` samples was issued, or the
/// tracker's own start where none was.
pub open spec fn last_resync_before(t: DesyncTracker, s: Seq<LatencySample>, i: int) -> u64
    decreases i,
{
    if i <= 0 {
        t.last_resync_ns
    } else if resync_issued(t, s, i - 1) {
        s[i - 1].at_ns
    } else {
        last_resync_before(t, s, i - 1)
    }
}

proof fn lemma_run_clock(t: DesyncTracker, s: Seq<LatencySample>, i: int)
    requires
        0 <= i <= s.len(),
    ensures
        run_samples(t, s.take(i)).last_resync_ns == last_resync_before(t, s, i),
        run_samples(t, s.take(i)).recovery_enabled == t.recovery_enabled,
    decreases i,
{
    if i > 0 {
        lemma_run_clock(t, s, i - 1);
        assert(s.take(i).drop_last() =~= s.take(i - 1));
        assert(s.take(i).last() == s[i - 1]);
    }
}

/// Over any sequence of samples, one issues a resync if and only if recovery
/// is enabled, its latency is above the threshold, and more than the cooldown
/// has passed since the last resync issued before it (or since the tracker's
/// start, where none was).
pub proof fn lemma_samples_resync_iff(t: DesyncTracker, s: Seq<LatencySample>, i: int)
    requires
        0 <= i < s.len(),
    ensures
        resync_issued(t, s, i) <==> (t.recovery_enabled && s[i].latency_ns > LATENCY_THRESHOLD_NS
            && saturating_elapsed(s[i].at_ns, last_resync_before(t, s, i)) > COOLDOWN_NS),
{
    lemma_run_clock(t, s, i);
}

} // verus!
