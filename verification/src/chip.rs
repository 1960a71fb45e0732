//! The emulated control chips: the ULA of the 16k/48k models and the
//! 128k variant's differences.

pub mod ula;
pub mod ula128;

use vstd::prelude::*;

verus! {

/// How many nanoseconds one frame of `frame_ts_count` T-states lasts at
/// the given CPU clock.
pub fn nanos_from_frame_tc_cpu_hz(frame_ts_count: u32, cpu_hz: u32) -> (r: u64)
    requires
        cpu_hz > 0,
    ensures
        r as int == frame_ts_count as int * 1_000_000_000 / (cpu_hz as int),
{
    proof {
        assert(frame_ts_count as int * 1_000_000_000 <= 0xffffffff * 1_000_000_000)
            by (nonlinear_arith)
            requires
                frame_ts_count <= 0xffffffff,
        ;
    }
    (frame_ts_count as u64) * 1_000_000_000u64 / (cpu_hz as u64)
}

} // verus!
