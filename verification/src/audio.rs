//! Audio rendering interfaces: the band-limited step sink, amplitude level
//! tables, and the renderer of timestamped per-frame change logs.

pub mod ay;

use vstd::prelude::*;

use crate::clock::{FTs, VideoTs, VideoTsData1, VideoTsData2, VideoTsData3};
use crate::video::{fts_of, VideoFrame};

verus! {

/// Extra T-states a [`Blep`] sink should reserve past the frame end.
pub const MARGIN_TSTATES: FTs = 64;

/// A band-limited step sink: takes `(channel, time, amplitude delta)`
/// triples and reconstructs an anti-aliased audio stream from them.
pub trait Blep {
    /// Reserves room for one frame of `frame_ts` T-states (plus a margin)
    /// sampled at `sample_rate`, with `ts_per_second` T-states per second.
    fn ensure_frame_time(&mut self, sample_rate: u32, ts_per_second: u32, frame_ts: FTs, margin_ts: FTs);

    /// Adds a single amplitude step at the given frame T-state.
    fn add_step(&mut self, channel: usize, time: FTs, delta: i32);
}

/// A 16-entry amplitude table: maps a 4-bit level to a sample amplitude.
pub trait AmpLevels {
    /// The amplitude of each level.
    spec fn spec_amp_level(level: u32) -> i32;

    /// Exec twin of [`AmpLevels::spec_amp_level`]; amplitudes are never
    /// negative, so two of them are always less than one step apart.
    fn amp_level(level: u32) -> (r: i32)
        ensures
            r == Self::spec_amp_level(level),
            0 <= r,
    ;
}

/// The AY-3-891x amplitude curve quantized to the full `i32` range.
#[derive(Clone, Copy, Default, PartialEq, Eq, Structural, Debug)]
pub struct AyAmpLevels;

impl AmpLevels for AyAmpLevels {
    open spec fn spec_amp_level(level: u32) -> i32 {
        match level & 15 {
            0 => 0x00000000,
            1 => 0x01000431,
            2 => 0x016a0db9,
            3 => 0x01ffffff,
            4 => 0x02d41313,
            5 => 0x03ffffff,
            6 => 0x05a82627,
            7 => 0x07ffffff,
            8 => 0x0b504c4f,
            9 => 0x0fffffff,
            10 => 0x16a0a0ff,
            11 => 0x1fffffff,
            12 => 0x2d41397f,
            13 => 0x3fffffff,
            14 => 0x5a827b7f,
            _ => 0x7fffffff,
        }
    }

    fn amp_level(level: u32) -> (r: i32) {
        let l = level & 15;
        proof {
            assert(level & 15 < 16u32) by (bit_vector);
        }
        match l {
            0 => 0x00000000,
            1 => 0x01000431,
            2 => 0x016a0db9,
            3 => 0x01ffffff,
            4 => 0x02d41313,
            5 => 0x03ffffff,
            6 => 0x05a82627,
            7 => 0x07ffffff,
            8 => 0x0b504c4f,
            9 => 0x0fffffff,
            10 => 0x16a0a0ff,
            11 => 0x1fffffff,
            12 => 0x2d41397f,
            13 => 0x3fffffff,
            14 => 0x5a827b7f,
            _ => 0x7fffffff,
        }
    }
}

/// The AY-3-891x amplitude curve quantized to the 16-bit sample range.
#[derive(Clone, Copy, Default, PartialEq, Eq, Structural, Debug)]
pub struct AyAmpLevels16;

impl AmpLevels for AyAmpLevels16 {
    open spec fn spec_amp_level(level: u32) -> i32 {
        match level & 15 {
            0 => 0x0000,
            1 => 0x0100,
            2 => 0x016a,
            3 => 0x01ff,
            4 => 0x02d4,
            5 => 0x03ff,
            6 => 0x05a8,
            7 => 0x07ff,
            8 => 0x0b50,
            9 => 0x0fff,
            10 => 0x16a0,
            11 => 0x1fff,
            12 => 0x2d40,
            13 => 0x3fff,
            14 => 0x5a81,
            _ => 0x7fff,
        }
    }

    fn amp_level(level: u32) -> (r: i32) {
        let l = level & 15;
        proof {
            assert(level & 15 < 16u32) by (bit_vector);
        }
        match l {
            0 => 0x0000,
            1 => 0x0100,
            2 => 0x016a,
            3 => 0x01ff,
            4 => 0x02d4,
            5 => 0x03ff,
            6 => 0x05a8,
            7 => 0x07ff,
            8 => 0x0b50,
            9 => 0x0fff,
            10 => 0x16a0,
            11 => 0x1fff,
            12 => 0x2d40,
            13 => 0x3fff,
            14 => 0x5a81,
            _ => 0x7fff,
        }
    }
}

/// A packed `(video timestamp, payload)` log entry.
pub trait PackedTsData: Sized + Copy {
    /// The timestamp part.
    spec fn spec_vts(self) -> VideoTs;

    /// The payload part.
    spec fn spec_data(self) -> u8;

    /// Exec twin of [`PackedTsData::spec_vts`].
    fn vts_part(self) -> (r: VideoTs)
        ensures
            r == self.spec_vts(),
    ;

    /// Exec twin of [`PackedTsData::spec_data`].
    fn data_part(self) -> (r: u8)
        ensures
            r == self.spec_data(),
    ;
}

impl PackedTsData for VideoTsData3 {
    open spec fn spec_vts(self) -> VideoTs {
        self.vts
    }

    open spec fn spec_data(self) -> u8 {
        self.data
    }

    fn vts_part(self) -> (r: VideoTs) {
        self.vts
    }

    fn data_part(self) -> (r: u8) {
        self.data
    }
}

impl PackedTsData for VideoTsData2 {
    open spec fn spec_vts(self) -> VideoTs {
        self.vts
    }

    open spec fn spec_data(self) -> u8 {
        self.data
    }

    fn vts_part(self) -> (r: VideoTs) {
        self.vts
    }

    fn data_part(self) -> (r: u8) {
        self.data
    }
}

impl PackedTsData for VideoTsData1 {
    open spec fn spec_vts(self) -> VideoTs {
        self.vts
    }

    open spec fn spec_data(self) -> u8 {
        self.data
    }

    fn vts_part(self) -> (r: VideoTs) {
        self.vts
    }

    fn data_part(self) -> (r: u8) {
        self.data
    }
}

/// The amplitude steps one frame's change log produces, walking from
/// entry `i` with the running amplitude `last_vol`: every entry before
/// the cut whose amplitude differs from the running one contributes its
/// flat T-state and the amplitude delta. With `end_ts` given, entries
/// at or past it are left for the next frame.
pub open spec fn spec_frame_steps<V: VideoFrame, T: PackedTsData, L: AmpLevels>(
    s: Seq<T>,
    i: int,
    last_vol: i32,
    end_ts: Option<VideoTs>,
) -> Seq<(FTs, i32)>
    decreases s.len() - i,
    when 0 <= i
{
    if i < s.len() && (end_ts is None || (end_ts matches Some(e) && crate::clock::vts_lt(
        s[i].spec_vts(),
        e,
    ))) {
        let vol = L::spec_amp_level(s[i].spec_data() as u32);
        if vol != last_vol {
            seq![
                (
                    fts_of(V::spec_hts_end() - V::spec_hts_start(), s[i].spec_vts()) as FTs,
                    (vol - last_vol) as i32,
                ),
            ] + spec_frame_steps::<V, T, L>(s, i + 1, vol, end_ts)
        } else {
            spec_frame_steps::<V, T, L>(s, i + 1, last_vol, end_ts)
        }
    } else {
        Seq::empty()
    }
}

/// Computes exactly the amplitude steps of one frame's change log:
/// starting from the level of `prev_data`, one `(T-state, delta)` pair
/// for each change before the cut whose level differs from the one in
/// force before it.
pub fn frame_audio_steps<V: VideoFrame, T: PackedTsData, L: AmpLevels>(
    prev_data: u8,
    end_ts: Option<VideoTs>,
    changes: &Vec<T>,
) -> (r: Vec<(FTs, i32)>)
    ensures
        r@ == spec_frame_steps::<V, T, L>(
            changes@,
            0,
            L::spec_amp_level(prev_data as u32),
            end_ts,
        ),
{
    let mut r: Vec<(FTs, i32)> = Vec::new();
    let mut last_vol: i32 = L::amp_level(prev_data as u32);
    let ghost v0 = last_vol;
    let n = changes.len();
    let mut idx: usize = 0;
    while idx < n
        invariant
            n == changes@.len(),
            idx <= n,
            0 <= last_vol,
            v0 == L::spec_amp_level(prev_data as u32),
            spec_frame_steps::<V, T, L>(changes@, 0, v0, end_ts) == r@ + spec_frame_steps::<
                V,
                T,
                L,
            >(changes@, idx as int, last_vol, end_ts),
        decreases n - idx,
    {
        let change = changes[idx];
        let vts = change.vts_part();
        if let Some(end) = end_ts {
            if !crate::clock::vts_less(vts, end) {
                proof {
                    assert(spec_frame_steps::<V, T, L>(changes@, idx as int, last_vol, end_ts)
                        =~= Seq::<(FTs, i32)>::empty());
                    assert(r@ + Seq::<(FTs, i32)>::empty() =~= r@);
                    assert(v0 == L::spec_amp_level(prev_data as u32));
                    assert(r@ == spec_frame_steps::<V, T, L>(changes@, 0, v0, end_ts));
                }
                return r;
            }
        }
        let vol = L::amp_level(change.data_part() as u32);
        if vol != last_vol {
            let time = V::vts_to_tstates(vts);
            let ghost pre = r@;
            proof {
                assert(spec_frame_steps::<V, T, L>(changes@, idx as int, last_vol, end_ts)
                    == seq![(time, (vol - last_vol) as i32)] + spec_frame_steps::<V, T, L>(
                    changes@,
                    idx as int + 1,
                    vol,
                    end_ts,
                ));
            }
            r.push((time, vol - last_vol));
            proof {
                assert(r@ =~= pre + seq![(time, (vol - last_vol) as i32)]);
                assert(pre + seq![(time, (vol - last_vol) as i32)] + spec_frame_steps::<V, T, L>(
                    changes@,
                    idx as int + 1,
                    vol,
                    end_ts,
                ) =~= pre + (seq![(time, (vol - last_vol) as i32)] + spec_frame_steps::<V, T, L>(
                    changes@,
                    idx as int + 1,
                    vol,
                    end_ts,
                )));
            }
            last_vol = vol;
        } else {
            proof {
                assert(spec_frame_steps::<V, T, L>(changes@, idx as int, last_vol, end_ts)
                    == spec_frame_steps::<V, T, L>(changes@, idx as int + 1, last_vol, end_ts));
            }
        }
        idx = idx + 1;
    }
    proof {
        assert(spec_frame_steps::<V, T, L>(changes@, n as int, last_vol, end_ts) =~= Seq::<
            (FTs, i32),
        >::empty());
        assert(r@ + Seq::<(FTs, i32)>::empty() =~= r@);
    }
    r
}

/// Renders one frame's change log into a [`Blep`] channel: computes the
/// steps with [`frame_audio_steps`] (exactly specified there) and hands
/// each one, in order, to the sink.
pub fn render_audio_frame_vts<V: VideoFrame, T: PackedTsData, L: AmpLevels, A: Blep>(
    prev_data: u8,
    end_ts: Option<VideoTs>,
    changes: &Vec<T>,
    blep: &mut A,
    channel: usize,
)
{
    let steps = frame_audio_steps::<V, T, L>(prev_data, end_ts, changes);
    let n = steps.len();
    let mut i: usize = 0;
    while i < n
        invariant
            n == steps@.len(),
            i <= n,
        decreases n - i,
    {
        let (time, delta) = steps[i];
        blep.add_step(channel, time, delta);
        i = i + 1;
    }
}

} // verus!
