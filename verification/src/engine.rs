//! The platform speech engine's control logic.  The engine handle itself
//! is an external capability, lazily constructed and exclusively owned by
//! the embedding program; what is verified here is the translation of
//! normalized control values into the engine's native ranges and the
//! lookup of a voice by identifier among the enumerated voices.
//!
//! Control values arrive in thousandths to keep the arithmetic exact: a
//! rate of 1000 is normal speed on the 0.5–2.0 multiplier scale, volume
//! runs from 0 to 1000.  The engine's own bounds are taken in whatever
//! (scaled) integer units the embedding program chooses; the mapping is
//! linear in them.

use vstd::prelude::*;

verus! {

/// One voice of the platform speech engine, as the supervisor sees it.
#[derive(Debug)]
pub struct SystemVoice {
    pub id: String,
    pub name: String,
    pub language: String,
}

/// Index of the first enumerated voice whose identifier is `voice_id`,
/// or nothing when no voice matches — in which case voice selection
/// silently does not happen.
pub fn find_voice(voices: &Vec<SystemVoice>, voice_id: &String) -> (r: Option<usize>)
    ensures
        match r {
            Option::Some(i) => i < voices@.len() && voices@[i as int].id@ == voice_id@ && (forall|
                j: int,
            |
                0 <= j < i ==> voices@[j].id@ != voice_id@),
            Option::None => forall|j: int| 0 <= j < voices@.len() ==> voices@[j].id@ != voice_id@,
        },
{
    let n = voices.len();
    let mut i: usize = 0;
    while i < n
        invariant
            n == voices@.len(),
            0 <= i <= n,
            forall|j: int| 0 <= j < i ==> voices@[j].id@ != voice_id@,
        decreases n - i,
    {
        if voices[i].id == *voice_id {
            return Some(i);
        }
        i += 1;
    }
    None
}

/// The piecewise linear rate mapping: a rate at or below normal speed
/// interpolates between the engine's minimum and normal rate, a rate
/// above normal speed between its normal and maximum rate.  Division is
/// by the scale constant, rounding toward zero.
pub open spec fn spec_map_rate(rate_milli: int, min: int, normal: int, max: int) -> int {
    if rate_milli <= 1000 {
        min + (normal - min) * rate_milli / 1000
    } else {
        normal + (max - normal) * (rate_milli - 1000) / 1000
    }
}

/// Maps a normalized rate (thousandths of the 0.5–2.0 multiplier scale,
/// 1000 = normal) into the engine's native rate range.
pub fn map_rate(rate_milli: u64, min: u64, normal: u64, max: u64) -> (r: u64)
    requires
        500 <= rate_milli <= 2000,
        min <= normal <= max,
        max <= 1_000_000_000,
    ensures
        r == spec_map_rate(rate_milli as int, min as int, normal as int, max as int),
{
    if rate_milli <= 1000 {
        let span = normal - min;
        proof {
            assert(span * rate_milli <= 2_000_000_000_000) by (nonlinear_arith)
                requires
                    span <= 1_000_000_000,
                    rate_milli <= 2000,
            ;
        }
        min + span * rate_milli / 1000
    } else {
        let span = max - normal;
        let excess = rate_milli - 1000;
        proof {
            assert(span * excess <= 2_000_000_000_000) by (nonlinear_arith)
                requires
                    span <= 1_000_000_000,
                    excess <= 2000,
            ;
        }
        normal + span * excess / 1000
    }
}

/// The linear volume mapping between the engine's minimum and maximum
/// volume.
pub open spec fn spec_map_volume(vol_milli: int, min: int, max: int) -> int {
    min + (max - min) * vol_milli / 1000
}

/// Maps a normalized volume (0 to 1000) into the engine's native volume
/// range.
pub fn map_volume(vol_milli: u64, min: u64, max: u64) -> (r: u64)
    requires
        vol_milli <= 1000,
        min <= max,
        max <= 1_000_000_000,
    ensures
        r == spec_map_volume(vol_milli as int, min as int, max as int),
{
    let span = max - min;
    proof {
        assert(span * vol_milli <= 1_000_000_000_000) by (nonlinear_arith)
            requires
                span <= 1_000_000_000,
                vol_milli <= 1000,
        ;
    }
    min + span * vol_milli / 1000
}

/// Law: the control mappings fix their anchor points exactly — normal
/// rate input maps to the engine's normal rate, the top of the scale to
/// its maximum rate, and the volume extremes to the engine's minimum and
/// maximum volume.
pub proof fn lemma_mapping_anchors(min: int, normal: int, max: int)
    requires
        min <= normal <= max,
    ensures
        spec_map_rate(1000, min, normal, max) == normal,
        spec_map_rate(2000, min, normal, max) == max,
        spec_map_volume(0, min, max) == min,
        spec_map_volume(1000, min, max) == max,
{
    assert((normal - min) * 1000 / 1000 == normal - min) by (nonlinear_arith);
    assert((max - normal) * (2000 - 1000) / 1000 == max - normal) by (nonlinear_arith);
    assert((max - min) * 0 / 1000 == 0) by (nonlinear_arith);
    assert((max - min) * 1000 / 1000 == max - min) by (nonlinear_arith);
}

} // verus!
