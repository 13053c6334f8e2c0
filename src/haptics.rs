//! Haptic commands handed to the session.
use vstd::prelude::*;
use crate::float_bits::{clamp_non_negative, clamp_non_negative_spec, is_negative, is_non_negative, ZERO_BITS};

verus! {

/// A haptic pulse for one device. `duration_s`, `frequency` and `amplitude`
/// are single-precision bit patterns; `duration_s` is never negative.
#[derive(Clone, Copy, Debug, PartialEq, Eq, Structural)]
pub struct Haptics {
    pub device_id: u64,
    pub duration_s: u32,
    pub frequency: u32,
    pub amplitude: u32,
}

impl Haptics {
    pub open spec fn wf(self) -> bool {
        is_non_negative(self.duration_s)
    }
}

/// Builds the record forwarded to the session from a caller's raw request:
/// the duration is clamped to be non-negative, the rest is kept as given.
pub fn haptics_request(device_id: u64, duration_s: u32, frequency: u32, amplitude: u32) -> (r: Haptics)
    ensures
        r == (Haptics {
            device_id,
            duration_s: clamp_non_negative_spec(duration_s),
            frequency,
            amplitude,
        }),
        r.wf(),
{
    Haptics { device_id, duration_s: clamp_non_negative(duration_s), frequency, amplitude }
}

/// A negative requested duration is forwarded as exactly zero, a non-negative
/// one unchanged.
pub proof fn lemma_haptics_duration_clamped(duration_s: u32)
    ensures
        is_negative(duration_s) ==> clamp_non_negative_spec(duration_s) == ZERO_BITS,
        is_non_negative(duration_s) ==> clamp_non_negative_spec(duration_s) == duration_s,
{
}

} // verus!
