//! The audio side of the ULA: the EAR/MIC output log, the EAR input
//! log with its playback position, the frame-end log compaction, and
//! the audio-frame renderers.

use vstd::prelude::*;

use crate::audio::{AmpLevels, Blep, MARGIN_TSTATES, PackedTsData, render_audio_frame_vts};
use crate::bus::ay::AyAudioVBusDevice;
use crate::clock::{FTs, Ts, VideoTs, VideoTsData1, VideoTsData2, vts_le, vts_lt};
use crate::video::{fts_of, VideoFrame};
use super::{CPU_HZ, log_increasing, Ula};

verus! {

/// How many of the entries from `lo` on carry a timestamp at or before
/// `ts`; in an ordered log these entries form a prefix.
pub open spec fn spec_count_le(s: Seq<VideoTsData1>, lo: int, ts: VideoTs) -> int
    decreases s.len() - lo,
    when 0 <= lo
{
    if lo < s.len() && vts_le(s[lo].vts, ts) {
        1 + spec_count_le(s, lo + 1, ts)
    } else {
        0
    }
}

/// The count of qualifying entries never exceeds what is left of the
/// log.
pub proof fn lemma_count_le_bound(s: Seq<VideoTsData1>, lo: int, ts: VideoTs)
    requires
        0 <= lo <= s.len(),
    ensures
        0 <= spec_count_le(s, lo, ts) <= s.len() - lo,
    decreases s.len() - lo,
{
    if lo < s.len() && vts_le(s[lo].vts, ts) {
        lemma_count_le_bound(s, lo + 1, ts);
    }
}

/// The EAR input level in force at `ts`: the latest logged change at
/// or before it (searching from `lo`), the frame-start level `prev`
/// when none is reached yet, or, with the log drained, the level the
/// last EAR/MIC output implies (its bit 1, the `issue 3` wiring).
pub open spec fn spec_ear_level(
    s: Seq<VideoTsData1>,
    lo: int,
    ts: VideoTs,
    prev: u8,
    last_earmic: u8,
) -> u8 {
    let count = spec_count_le(s, lo, ts);
    if count > 0 {
        s[lo + count - 1].data
    } else if lo >= s.len() {
        (last_earmic >> 1) & 1
    } else {
        prev
    }
}

/// `x - y`, saturating at the representable minimum.
pub open spec fn spec_sat_sub_fts(x: int, y: int) -> int {
    if x - y >= i32::MIN {
        x - y
    } else {
        i32::MIN as int
    }
}

fn sat_sub_fts(x: FTs, y: FTs) -> (r: FTs)
    requires
        y >= 0,
    ensures
        r as int == spec_sat_sub_fts(x as int, y as int),
{
    if x >= i32::MIN + y {
        x - y
    } else {
        i32::MIN
    }
}

/// The first entry from `i` on whose MIC bit differs from `last`, or
/// the log's length when none is left.
pub open spec fn spec_mic_scan(s: Seq<VideoTsData2>, i: int, last: u8) -> int
    decreases s.len() - i,
    when 0 <= i
{
    if i < s.len() {
        if (last ^ s[i].data) & 1 == 1 {
            i
        } else {
            spec_mic_scan(s, i + 1, last)
        }
    } else {
        i
    }
}

/// `MIC` output as a pulse iterator: walks the EAR/MIC log and yields
/// the T-state spans between changes of the MIC bit.
#[derive(Debug)]
pub struct MicPulseIter {
    /// The EAR/MIC change log being walked.
    pub changes: Vec<VideoTsData2>,
    /// The next entry to look at.
    pub index: usize,
    /// The T-state of the last pulse edge.
    pub last_pulse_ts: FTs,
    /// The MIC level at the last pulse edge.
    pub last_data: u8,
}

impl MicPulseIter {
    /// The log is strictly ordered and everything left to walk lies
    /// strictly after the last pulse edge.
    pub open spec fn wf<V: VideoFrame>(self) -> bool {
        &&& log_increasing(self.changes@)
        &&& self.index <= self.changes@.len()
        &&& (forall|k: int|
            0 <= k < self.changes@.len() ==> V::spec_hts_start() <= (
            #[trigger] self.changes@[k]).vts.hc < V::spec_hts_end())
        &&& (forall|k: int|
            self.index <= k < self.changes@.len() ==> fts_of(
                V::spec_hts_end() - V::spec_hts_start(),
                (#[trigger] self.changes@[k]).vts,
            ) > self.last_pulse_ts)
        &&& (forall|k: int|
            self.index <= k < self.changes@.len() ==> fts_of(
                V::spec_hts_end() - V::spec_hts_start(),
                (#[trigger] self.changes@[k]).vts,
            ) > i32::MIN)
    }

    pub fn new(last_pulse_ts: FTs, last_data: u8, changes: Vec<VideoTsData2>) -> (r: Self)
        ensures
            r == (MicPulseIter { changes, index: 0usize, last_pulse_ts, last_data }),
    {
        MicPulseIter { changes, index: 0, last_pulse_ts, last_data }
    }

    /// The next MIC pulse: scans to the next change of the MIC bit and
    /// yields the positive T-state distance from the previous edge,
    /// clamped to `u32::MAX` where it cannot be represented.
    pub fn next<V: VideoFrame>(&mut self) -> (r: Option<u32>)
        requires
            old(self).wf::<V>(),
        ensures
            final(self).wf::<V>(),
            final(self).changes == old(self).changes,
            ({
                let s = old(self).changes@;
                let t = spec_mic_scan(s, old(self).index as int, old(self).last_data);
                let c = V::spec_hts_end() - V::spec_hts_start();
                &&& (t >= s.len() ==> r is None && final(self).index == s.len() && final(self).last_pulse_ts == old(self).last_pulse_ts && final(self).last_data == old(self).last_data)
                &&& (t < s.len() ==> ({
                    let delta = fts_of(c, s[t].vts) - old(self).last_pulse_ts;
                    &&& final(self).index == t + 1
                    &&& final(self).last_data == s[t].data
                    &&& final(self).last_pulse_ts == fts_of(c, s[t].vts)
                    &&& r == Some(
                        (if delta <= i32::MAX {
                            delta
                        } else {
                            u32::MAX as int
                        }) as u32,
                    )
                }))
            }),
            r is Some ==> r.unwrap() > 0,
            r is None ==> final(self).index == final(self).changes@.len(),
    {
        proof {
            V::wf();
        }
        while self.index < self.changes.len()
            invariant
                self.wf::<V>(),
                self.changes == old(self).changes,
                self.last_data == old(self).last_data,
                self.last_pulse_ts == old(self).last_pulse_ts,
                old(self).index <= self.index,
                spec_mic_scan(self.changes@, self.index as int, self.last_data) == spec_mic_scan(
                    old(self).changes@,
                    old(self).index as int,
                    old(self).last_data,
                ),
            decreases self.changes@.len() - self.index,
        {
            let entry = self.changes[self.index];
            self.index = self.index + 1;
            if (self.last_data ^ entry.data) & 1 == 1 {
                let ts = V::vts_to_tstates(entry.vts);
                proof {
                    crate::video::lemma_fts_range::<V>(entry.vts);
                    assert(spec_mic_scan(
                        old(self).changes@,
                        old(self).index as int,
                        old(self).last_data,
                    ) == self.index - 1);
                }
                let delta64: i64 = ts as i64 - self.last_pulse_ts as i64;
                self.last_pulse_ts = ts;
                self.last_data = entry.data;
                proof {
                    let s = self.changes@;
                    let ip = self.index - 1;
                    assert(entry == s[ip]);
                    assert forall|k: int|
                        self.index <= k < s.len() implies fts_of(
                        V::spec_hts_end() - V::spec_hts_start(),
                        (#[trigger] s[k]).vts,
                    ) > self.last_pulse_ts by {
                        assert(vts_lt(s[ip].spec_vts(), s[k].spec_vts()));
                        crate::video::lemma_fts_lt_of_vts_lt::<V>(s[ip].vts, s[k].vts);
                    }
                }
                if delta64 <= i32::MAX as i64 {
                    return Some(delta64 as u32);
                }
                return Some(u32::MAX);
            }
        }
        None
    }
}

impl<B, V: VideoFrame> Ula<B, V> {
    /// The EAR input level in force at `ts`: the data of the latest
    /// logged change at or before it, the frame-start level when none
    /// has been reached yet, or, with the log fully drained, the level
    /// implied by the last EAR/MIC output (the `issue 3` wiring).
    /// Advances the playback position to the change found.
    pub fn read_ear_in(&mut self, ts: VideoTs) -> (r: u8)
        requires
            old(self).wf(),
        ensures
            final(self).wf(),
            *final(self) == (Ula { ear_in_last_index: final(self).ear_in_last_index, ..*old(self) }),
            ({
                let s = old(self).ear_in_changes@;
                let lo = old(self).ear_in_last_index as int;
                let count = spec_count_le(s, lo, ts);
                &&& r == spec_ear_level(s, lo, ts, old(self).prev_ear_in, old(self).last_earmic_data)
                &&& (count > 0 ==> final(self).ear_in_last_index == lo + count - 1)
                &&& (count == 0 ==> final(self).ear_in_last_index == lo)
                &&& (forall|k: int| lo + count <= k < s.len() ==> vts_lt(ts, (#[trigger] s[k]).vts))
                &&& (forall|k: int| lo <= k < lo + count ==> vts_le((#[trigger] s[k]).vts, ts))
            }),
            r < 2,
    {
        let n = self.ear_in_changes.len();
        let lo = self.ear_in_last_index;
        let mut i = lo;
        while i < n && crate::clock::vts_leq(self.ear_in_changes[i].vts, ts)
            invariant
                self.wf(),
                n == self.ear_in_changes@.len(),
                lo == self.ear_in_last_index,
                lo <= i <= n,
                spec_count_le(self.ear_in_changes@, lo as int, ts) == (i - lo) + spec_count_le(
                    self.ear_in_changes@,
                    i as int,
                    ts,
                ),
                forall|j: int| lo <= j < i ==> vts_le((#[trigger] self.ear_in_changes@[j]).vts, ts),
            decreases n - i,
        {
            i = i + 1;
        }
        proof {
            assert(spec_count_le(self.ear_in_changes@, i as int, ts) == 0);
            let s = self.ear_in_changes@;
            assert forall|k: int| i <= k < n implies vts_lt(ts, (#[trigger] s[k]).vts) by {
                assert(!vts_le(s[i as int].vts, ts));
                if k > i {
                    assert(vts_lt(s[i as int].spec_vts(), s[k].spec_vts()));
                }
            }
        }
        if i > lo {
            self.ear_in_last_index = i - 1;
            let r = self.ear_in_changes[i - 1].data;
            proof {
                assert(self.ear_in_changes@[i - 1].data < 2);
            }
            r
        } else if lo >= n {
            let d = self.last_earmic_data;
            proof {
                assert((d >> 1) & 1 < 2) by (bit_vector);
            }
            (d >> 1) & 1
        } else {
            self.prev_ear_in
        }
    }

    /// Appends an EAR input change `delta_fts` T-states past the last
    /// logged change (or past the current position when none is
    /// logged). A zero delta instead rewrites the last logged level or,
    /// with an empty log, the remembered output level.
    pub fn set_ear_in(&mut self, ear_in: bool, delta_fts: u32)
        requires
            old(self).wf(),
            delta_fts > 0 ==> ({
                let c = V::spec_hts_end() - V::spec_hts_start();
                let base = if old(self).ear_in_changes@.len() > 0 {
                    old(self).ear_in_changes@.last().vts
                } else {
                    old(self).tsc
                };
                fts_of(c, base) + delta_fts <= crate::video::max_flat_ts(
                    V::spec_hts_start(),
                    c,
                ) && base.vc >= 0
            }),
        ensures
            final(self).wf(),
            delta_fts == 0 && old(self).ear_in_changes@.len() > 0 ==> final(self).ear_in_changes@
                == old(self).ear_in_changes@.update(
                old(self).ear_in_changes@.len() - 1,
                VideoTsData1 {
                    vts: old(self).ear_in_changes@.last().vts,
                    data: (if ear_in {
                        1u8
                    } else {
                        0u8
                    }) & 1,
                },
            ) && *final(self) == (Ula { ear_in_changes: final(self).ear_in_changes, ..*old(self) }),
            delta_fts == 0 && old(self).ear_in_changes@.len() == 0 ==> *final(self) == (Ula {
                prev_earmic_data: if ear_in {
                    1u8
                } else {
                    0u8
                },
                ..*old(self)
            }),
            delta_fts > 0 ==> final(self).ear_in_changes@.len() == old(self).ear_in_changes@.len()
                + 1 && (forall|k: int|
                0 <= k < old(self).ear_in_changes@.len() ==> final(self).ear_in_changes@[k] == old(self).ear_in_changes@[k]) && *final(self) == (Ula {
                ear_in_changes: final(self).ear_in_changes,
                ..*old(self)
            }),
    {
        if delta_fts == 0 {
            let n = self.ear_in_changes.len();
            if n > 0 {
                let vts = self.ear_in_changes[n - 1].vts;
                let data: u8 = if ear_in {
                    1
                } else {
                    0
                };
                self.ear_in_changes[n - 1] = VideoTsData1::new(vts, data);
                proof {
                    let s = self.ear_in_changes@;
                    let olds = old(self).ear_in_changes@;
                    assert forall|i: int, j: int| 0 <= i < j < s.len() implies vts_lt(
                        s[i].spec_vts(),
                        s[j].spec_vts(),
                    ) by {
                        assert(vts_lt(olds[i].spec_vts(), olds[j].spec_vts()));
                    }
                }
            } else {
                self.prev_earmic_data = if ear_in {
                    1
                } else {
                    0
                };
            }
        } else {
            proof {
                V::wf();
                crate::video::lemma_fts_range::<V>(old(self).tsc);
            }
            let n = self.ear_in_changes.len();
            let base = if n > 0 {
                self.ear_in_changes[n - 1].vts
            } else {
                self.tsc
            };
            let vts = V::vts_add_ts(base, delta_fts);
            let data: u8 = if ear_in {
                1
            } else {
                0
            };
            let entry = VideoTsData1::new(vts, data);
            proof {
                let c = V::spec_hts_end() - V::spec_hts_start();
                crate::video::lemma_vts_lt_of_fts_lt::<V>(base, vts);
                let s = old(self).ear_in_changes@;
                assert forall|i: int, j: int|
                    0 <= i < j < s.push(entry).len() implies vts_lt(
                    s.push(entry)[i].spec_vts(),
                    s.push(entry)[j].spec_vts(),
                ) by {
                    if j < s.len() {
                    } else {
                        if i < s.len() - 1 {
                            assert(vts_lt(s[i].spec_vts(), s[s.len() - 1].spec_vts()));
                            crate::video::lemma_fts_lt_of_vts_lt::<V>(s[i].vts, s[s.len() - 1].vts);
                        }
                    }
                }
            }
            self.ear_in_changes.push(entry);
        }
    }

    /// Drops any pending EAR input changes and fixes the input level.
    pub fn purge_ear_in_changes(&mut self, ear_in: bool)
        requires
            old(self).wf(),
        ensures
            final(self).wf(),
            final(self).ear_in_changes@.len() == 0,
            final(self).prev_ear_in == if ear_in {
                1u8
            } else {
                0u8
            },
            *final(self) == (Ula {
                ear_in_changes: final(self).ear_in_changes,
                prev_ear_in: final(self).prev_ear_in,
                ear_in_last_index: 0usize,
                ..*old(self)
            }),
    {
        self.ear_in_changes.clear();
        self.prev_ear_in = if ear_in {
            1
        } else {
            0
        };
        self.ear_in_last_index = 0;
    }

    /// The buffered MIC output of the last frame, as a pulse iterator.
    pub fn mic_out_iter_pulses(&self) -> (r: MicPulseIter)
        requires
            self.wf(),
        ensures
            r.wf::<V>(),
            r.changes@ == self.earmic_out_changes@,
            r.index == 0,
            r.last_pulse_ts == self.prev_earmic_ts,
            r.last_data == self.prev_earmic_data,
    {
        let mut changes: Vec<VideoTsData2> = Vec::new();
        let n = self.earmic_out_changes.len();
        let mut i: usize = 0;
        while i < n
            invariant
                self.wf(),
                i <= n,
                n == self.earmic_out_changes@.len(),
                changes@.len() == i,
                forall|j: int| 0 <= j < i ==> changes@[j] == self.earmic_out_changes@[j],
            decreases n - i,
        {
            changes.push(self.earmic_out_changes[i]);
            i = i + 1;
        }
        proof {
            assert(changes@ =~= self.earmic_out_changes@);
            assert forall|k: int| 0 <= k < changes@.len() implies fts_of(
                V::spec_hts_end() - V::spec_hts_start(),
                (#[trigger] changes@[k]).vts,
            ) > i32::MIN by {
                V::wf();
                crate::video::lemma_fts_range::<V>(changes@[k].vts);
            }
        }
        MicPulseIter::new(self.prev_earmic_ts, self.prev_earmic_data, changes)
    }

    /// Compacts the audio logs at frame end: the EAR/MIC output log is
    /// drained (remembering its last timestamp one frame back), the EAR
    /// input level at the frame end becomes the next frame's starting
    /// level, and of the EAR input entries not yet consumed by playback
    /// exactly those past the frame end are kept, shifted one frame
    /// back: afterwards the log holds only entries whose scan line is
    /// non-negative, each exactly `VSL_COUNT` lines below where it was.
    /// (Entries before the playback position were consumed by earlier
    /// reads, all at or before the frame end.)
    pub fn cleanup_audio_frame_data(&mut self)
        requires
            old(self).wf(),
            old(self).tsc.vc as int >= V::spec_vsl_count(),
        ensures
            final(self).wf(),
            final(self).earmic_out_changes@.len() == 0,
            final(self).prev_earmic_data == old(self).last_earmic_data,
            final(self).ear_in_last_index == 0,
            final(self).prev_earmic_ts == spec_sat_sub_fts(
                if old(self).earmic_out_changes@.len() > 0 {
                    fts_of(
                        V::spec_hts_end() - V::spec_hts_start(),
                        old(self).earmic_out_changes@.last().vts,
                    )
                } else {
                    old(self).prev_earmic_ts as int
                },
                V::spec_vsl_count() * (V::spec_hts_end() - V::spec_hts_start()),
            ),
            ({
                let olds = old(self).ear_in_changes@;
                let news = final(self).ear_in_changes@;
                let lo = old(self).ear_in_last_index as int;
                let cut = olds.len() - news.len();
                &&& news.len() <= olds.len()
                &&& lo <= cut <= olds.len()
                &&& (forall|k: int| lo <= k < cut ==> vts_le((#[trigger] olds[k]).vts, old(self).tsc))
                &&& (forall|k: int|
                    cut <= k < olds.len() ==> vts_lt(old(self).tsc, (#[trigger] olds[k]).vts))
                &&& (forall|k: int|
                    0 <= k < news.len() ==> (#[trigger] news[k]).vts.vc == olds[cut + k].vts.vc
                        - V::spec_vsl_count() && news[k].vts.hc == olds[cut + k].vts.hc
                        && news[k].data == olds[cut + k].data)
                &&& (forall|k: int| 0 <= k < news.len() ==> (#[trigger] news[k]).vts.vc >= 0)
                &&& (forall|k: int|
                    0 <= k < news.len() && (olds[cut + k].vts.vc as int) < 2 * V::spec_vsl_count()
                        ==> ((#[trigger] news[k]).vts.vc as int) < V::spec_vsl_count())
            }),
            final(self).prev_ear_in == spec_ear_level(
                old(self).ear_in_changes@,
                old(self).ear_in_last_index as int,
                old(self).tsc,
                old(self).prev_ear_in,
                old(self).last_earmic_data,
            ),
            *final(self) == (Ula {
                prev_earmic_ts: final(self).prev_earmic_ts,
                earmic_out_changes: final(self).earmic_out_changes,
                prev_earmic_data: final(self).prev_earmic_data,
                prev_ear_in: final(self).prev_ear_in,
                ear_in_changes: final(self).ear_in_changes,
                ear_in_last_index: 0usize,
                ..*old(self)
            }),
    {
        proof {
            V::wf();
        }
        let c = V::hts_count();
        let ft = V::frame_tstates_count();
        let n_earmic = self.earmic_out_changes.len();
        let last_ts = if n_earmic > 0 {
            V::vts_to_tstates(self.earmic_out_changes[n_earmic - 1].vts)
        } else {
            self.prev_earmic_ts
        };
        self.prev_earmic_ts = sat_sub_fts(last_ts, ft);
        self.earmic_out_changes.clear();
        self.prev_earmic_data = self.last_earmic_data;
        let tsc = self.tsc;
        let ear = self.read_ear_in(tsc);
        self.prev_ear_in = ear;
        let n = self.ear_in_changes.len();
        let idx = self.ear_in_last_index;
        let cut = if idx < n && crate::clock::vts_leq(self.ear_in_changes[idx].vts, tsc) {
            idx + 1
        } else {
            idx
        };
        proof {
            let s = old(self).ear_in_changes@;
            let lo = old(self).ear_in_last_index as int;
            let count = spec_count_le(s, lo, tsc);
            lemma_count_le_bound(s, lo, tsc);
            if count > 0 {
                let k0 = lo + count - 1;
                assert(lo <= k0 < lo + count);
                assert(vts_le(s[k0].vts, tsc));
                assert(cut == lo + count);
            } else {
                if idx < n {
                    assert(!vts_le(s[lo].vts, tsc)) by {
                        assert(vts_lt(tsc, s[lo].vts));
                    }
                }
                assert(cut == lo);
            }
            assert forall|k: int| cut <= k < n implies vts_lt(
                tsc,
                (#[trigger] self.ear_in_changes@[k]).vts,
            ) by {
                assert(vts_lt(tsc, s[k].vts));
            }
        }
        let vsl = V::vsl_count();
        let mut kept: Vec<VideoTsData1> = Vec::new();
        let mut i = cut;
        while i < n
            invariant
                self.wf(),
                cut <= i <= n,
                n == self.ear_in_changes@.len(),
                V::spec_vsl_count() == vsl,
                tsc.vc as int >= V::spec_vsl_count(),
                kept@.len() == i - cut,
                forall|k: int|
                    cut <= k < n ==> vts_lt(tsc, (#[trigger] self.ear_in_changes@[k]).vts),
                forall|k: int|
                    0 <= k < kept@.len() ==> (#[trigger] kept@[k]).vts.vc
                        == self.ear_in_changes@[cut + k].vts.vc - V::spec_vsl_count()
                        && kept@[k].vts.hc == self.ear_in_changes@[cut + k].vts.hc && kept@[k].data
                        == self.ear_in_changes@[cut + k].data,
                forall|k: int| 0 <= k < kept@.len() ==> (#[trigger] kept@[k]).vts.vc >= 0,
            decreases n - i,
        {
            let e = self.ear_in_changes[i];
            proof {
                V::wf();
                assert(e == self.ear_in_changes@[i as int]);
                assert(vts_lt(tsc, e.vts));
                assert(e.vts.vc >= vsl);
            }
            let vts = VideoTs { vc: e.vts.vc - vsl, hc: e.vts.hc };
            kept.push(VideoTsData1 { vts, data: e.data });
            i = i + 1;
        }
        proof {
            let news = kept@;
            assert forall|a: int, b: int| 0 <= a < b < news.len() implies vts_lt(
                news[a].spec_vts(),
                news[b].spec_vts(),
            ) by {
                assert(vts_lt(
                    self.ear_in_changes@[cut + a].spec_vts(),
                    self.ear_in_changes@[cut + b].spec_vts(),
                ));
            }
            assert forall|k: int| 0 <= k < news.len() implies (#[trigger] news[k]).data < 2 by {
                assert(self.ear_in_changes@[cut + k].data < 2);
            }
        }
        self.ear_in_changes = kept;
        self.ear_in_last_index = 0;
    }

    /// Renders the EAR/MIC output of the last frame: the sink is handed
    /// exactly the steps [`crate::audio::frame_audio_steps`] computes
    /// for the EAR/MIC log from the frame-start level.
    pub fn render_earmic_out_audio_frame<L: AmpLevels, A: Blep>(&self, blep: &mut A, channel: usize)
    {
        render_audio_frame_vts::<V, VideoTsData2, L, A>(
            self.prev_earmic_data,
            None,
            &self.earmic_out_changes,
            blep,
            channel,
        );
    }

    /// Renders the EAR input of the last frame: the sink is handed
    /// exactly the steps [`crate::audio::frame_audio_steps`] computes
    /// for the EAR input log up to the frame end.
    pub fn render_ear_in_audio_frame<L: AmpLevels, A: Blep>(&self, blep: &mut A, channel: usize) {
        render_audio_frame_vts::<V, VideoTsData1, L, A>(
            self.prev_ear_in,
            Some(self.tsc),
            &self.ear_in_changes,
            blep,
            channel,
        );
    }

    /// Prepares the sink for one frame of audio at `sample_rate`.
    pub fn ensure_audio_frame_time<A: Blep>(&self, blep: &mut A, sample_rate: u32) {
        proof {
            V::wf();
        }
        blep.ensure_frame_time(sample_rate, CPU_HZ, V::frame_tstates_count(), MARGIN_TSTATES);
    }

    /// The frame T-state audio of this frame ends at; the frame must
    /// have finished executing.
    pub fn get_audio_frame_end_time(&self) -> (r: FTs)
        requires
            self.tsc.vc as int >= V::spec_vsl_count(),
        ensures
            r as int == fts_of(V::spec_hts_end() - V::spec_hts_start(), self.tsc),
    {
        V::vts_to_tstates(self.tsc)
    }
}

/// The sum of the first `k` T-state deltas.
pub open spec fn spec_deltas_sum(s: Seq<u32>, k: int) -> int
    decreases k,
    when k >= 0
{
    if k <= 0 {
        0
    } else {
        spec_deltas_sum(s, k - 1) + s[k - 1]
    }
}

/// Prefix sums of the deltas never exceed later ones.
pub proof fn lemma_deltas_sum_le(s: Seq<u32>, a: int, b: int)
    requires
        0 <= a <= b,
    ensures
        spec_deltas_sum(s, a) <= spec_deltas_sum(s, b),
    decreases b - a,
{
    if a < b {
        lemma_deltas_sum_le(s, a, b - 1);
    }
}

/// The scan line past which [`Ula::feed_ear_in`] stops taking changes:
/// the frame threshold in scan lines when it is given and fits, or a
/// whole-frame multiple just under the representable maximum.
pub open spec fn spec_feed_max_vc(mf: Option<usize>, vsl: int) -> int {
    let fallback: int = 0x7fff - vsl - ((0x7fff as int) % vsl) + 1;
    match mf {
        Some(m) => if m * vsl + 1 <= 0x7fff {
            m * vsl + 1
        } else {
            fallback
        },
        None => fallback,
    }
}

impl<B, V: VideoFrame> Ula<B, V> {
    /// Appends a run of EAR input changes, each the given count of
    /// T-states after the one before it, toggling the level each time;
    /// stops early once a change lands at or past the frame threshold.
    /// The run must stay within the representable timestamps (the
    /// machine limit), and the starting position lies at or after the
    /// frame start, as every appended or current position does.
    pub fn feed_ear_in(&mut self, fts_deltas: &Vec<u32>, max_frames_threshold: Option<usize>)
        requires
            old(self).wf(),
            forall|k: int| 0 <= k < fts_deltas@.len() ==> #[trigger] fts_deltas@[k] > 0,
            ({
                let c = V::spec_hts_end() - V::spec_hts_start();
                let base = fts_of(
                    c,
                    if old(self).ear_in_changes@.len() > 0 {
                        old(self).ear_in_changes@.last().vts
                    } else {
                        old(self).tsc
                    },
                );
                -0x100 <= base && base + spec_deltas_sum(fts_deltas@, fts_deltas@.len() as int)
                    <= crate::video::max_flat_ts(V::spec_hts_start(), c)
            }),
        ensures
            final(self).wf(),
            *final(self) == (Ula { ear_in_changes: final(self).ear_in_changes, ..*old(self) }),
            final(self).ear_in_changes@.len() >= old(self).ear_in_changes@.len(),
            final(self).ear_in_changes@.len() <= old(self).ear_in_changes@.len()
                + fts_deltas@.len(),
            forall|k: int|
                0 <= k < old(self).ear_in_changes@.len() ==> final(self).ear_in_changes@[k] == old(self).ear_in_changes@[k],
            ({
                let c = V::spec_hts_end() - V::spec_hts_start();
                let olds = old(self).ear_in_changes@;
                let news = final(self).ear_in_changes@;
                let start = if olds.len() > 0 {
                    olds.last().vts
                } else {
                    old(self).tsc
                };
                let ear0 = if olds.len() > 0 {
                    olds.last().data
                } else {
                    old(self).prev_ear_in
                };
                forall|j: int|
                    olds.len() <= j < news.len() ==> fts_of(c, (#[trigger] news[j]).vts) == fts_of(
                        c,
                        start,
                    ) + spec_deltas_sum(fts_deltas@, j - olds.len() + 1) && news[j].data == (ear0
                        + j - olds.len() + 1) % 2
            }),
            ({
                let news = final(self).ear_in_changes@;
                let m = news.len() - old(self).ear_in_changes@.len();
                let max_vc = spec_feed_max_vc(max_frames_threshold, V::spec_vsl_count());
                m == fts_deltas@.len() || (m < fts_deltas@.len() && news.last().vts.vc >= max_vc)
            }),
    {
        proof {
            V::wf();
        }
        let c = V::hts_count();
        let vsl = V::vsl_count();
        let n0 = self.ear_in_changes.len();
        let mut vts: VideoTs;
        let mut ear: u8;
        if n0 > 0 {
            let last = self.ear_in_changes[n0 - 1];
            vts = last.vts;
            ear = last.data;
        } else {
            vts = self.tsc;
            ear = self.prev_ear_in;
        }
        let fallback: Ts = i16::MAX - vsl - i16::MAX % vsl + 1;
        let max_vc: Ts = match max_frames_threshold {
            Some(mf) => {
                proof {
                    let m = mf as int;
                    let v = vsl as int;
                    assert(mf > 0x7fff ==> m * v + 1 > 0x7fff) by (nonlinear_arith)
                        requires
                            v >= 1,
                            m == mf as int,
                            v == vsl as int,
                    ;
                    assert(mf <= 0x7fff ==> 0 <= m * v <= 0x7fff * 320) by (nonlinear_arith)
                        requires
                            1 <= v <= 320,
                            0 <= m,
                            m == mf as int,
                            v == vsl as int,
                    ;
                }
                if mf <= 0x7fff {
                    let mvc = (mf as i32) * (vsl as i32) + 1;
                    if mvc <= i16::MAX as i32 {
                        mvc as Ts
                    } else {
                        fallback
                    }
                } else {
                    fallback
                }
            },
            None => fallback,
        };
        proof {
            assert(max_vc as int == spec_feed_max_vc(max_frames_threshold, V::spec_vsl_count()));
        }
        let n = fts_deltas.len();
        let ghost start = vts;
        let ghost ear0 = ear;
        let mut idx: usize = 0;
        let mut stopped = false;
        while idx < n && !stopped
            invariant
                self.wf(),
                V::spec_hts_start() <= vts.hc < V::spec_hts_end(),
                idx <= n,
                n == fts_deltas@.len(),
                c as int == V::spec_hts_end() - V::spec_hts_start(),
                forall|k: int| 0 <= k < n ==> #[trigger] fts_deltas@[k] > 0,
                -0x100 <= fts_of(c as int, start),
                fts_of(c as int, start) + spec_deltas_sum(fts_deltas@, n as int)
                    <= crate::video::max_flat_ts(V::spec_hts_start(), c as int),
                ear < 2,
                *self == (Ula { ear_in_changes: self.ear_in_changes, ..*old(self) }),
                self.ear_in_changes@.len() == n0 + idx,
                n0 == old(self).ear_in_changes@.len(),
                forall|k: int|
                    0 <= k < n0 ==> #[trigger] self.ear_in_changes@[k] == old(self).ear_in_changes@[k],
                fts_of(c as int, vts) == fts_of(c as int, start) + spec_deltas_sum(
                    fts_deltas@,
                    idx as int,
                ),
                ear as int == (ear0 + idx) % 2,
                idx > 0 ==> self.ear_in_changes@.last().vts == vts
                    && self.ear_in_changes@.last().data == ear,
                idx == 0 ==> vts == start && ear == ear0,
                n0 > 0 ==> start == old(self).ear_in_changes@[n0 - 1].vts && ear0 == old(self).ear_in_changes@[n0 - 1].data,
                n0 == 0 ==> start == old(self).tsc && ear0 == old(self).prev_ear_in,
                forall|j: int|
                    n0 <= j < n0 + idx ==> fts_of(
                        c as int,
                        (#[trigger] self.ear_in_changes@[j]).vts,
                    ) == fts_of(c as int, start) + spec_deltas_sum(fts_deltas@, j - n0 + 1)
                        && self.ear_in_changes@[j].data == (ear0 + j - n0 + 1) % 2,
                stopped ==> idx > 0 && vts.vc >= max_vc,
            decreases n - idx,
        {
            proof {
                V::wf();
            }
            let delta = fts_deltas[idx];
            proof {
                lemma_deltas_sum_le(fts_deltas@, 0, idx as int);
                lemma_deltas_sum_le(fts_deltas@, idx as int + 1, n as int);
                crate::video::lemma_fts_range::<V>(vts);
                assert(spec_deltas_sum(fts_deltas@, idx as int + 1) == spec_deltas_sum(
                    fts_deltas@,
                    idx as int,
                ) + delta);
                let cc = V::spec_hts_end() - V::spec_hts_start();
                assert(crate::video::min_flat_ts(V::spec_hts_start(), cc) <= -0x101)
                    by (nonlinear_arith)
                    requires
                        192 <= cc <= 256,
                        -128 < V::spec_hts_start() < 0,
                        crate::video::min_flat_ts(V::spec_hts_start(), cc) == -0x8000 * cc
                            + V::spec_hts_start(),
                ;
            }
            let nvts = V::vts_add_ts(vts, delta);
            let near = ear ^ 1;
            proof {
                let e = ear;
                assert(e < 2 ==> (e ^ 1) < 2 && (e ^ 1) != e && (e ^ 1) as int == (e + 1) % 2)
                    by (bit_vector);
                crate::video::lemma_vts_lt_of_fts_lt::<V>(vts, nvts);
                let s = self.ear_in_changes@;
                let entry = VideoTsData1 { vts: nvts, data: near };
                if s.len() > 0 {
                    if idx == 0 {
                        assert(s[s.len() - 1] == old(self).ear_in_changes@[s.len() - 1]);
                        assert(s.last().vts == start);
                    }
                    assert(s.last().vts == vts);
                    assert(vts_lt(s.last().spec_vts(), entry.spec_vts()));
                }
                assert forall|i: int, j: int|
                    0 <= i < j < s.push(entry).len() implies vts_lt(
                    s.push(entry)[i].spec_vts(),
                    s.push(entry)[j].spec_vts(),
                ) by {
                    if j < s.len() {
                    } else {
                        if i < s.len() - 1 {
                            assert(vts_lt(s[i].spec_vts(), s[s.len() - 1].spec_vts()));
                            assert(vts_lt(s[s.len() - 1].spec_vts(), entry.spec_vts()));
                        }
                    }
                }
            }
            vts = nvts;
            ear = near;
            self.ear_in_changes.push(VideoTsData1 { vts, data: ear });
            idx = idx + 1;
            if vts.vc >= max_vc {
                stopped = true;
            }
        }
    }
}


impl<A: Blep, B, V: VideoFrame> crate::audio::ay::AyAudioFrame<A> for Ula<B, V> where
    B: AyAudioVBusDevice,
 {
    /// Renders the AY chips of the bus chain for the last frame, at the
    /// frame position reached.
    fn render_ay_audio_frame<L: AmpLevels>(&mut self, blep: &mut A, chans: [usize; 3]) {
        let t = V::vts_to_tstates(self.tsc);
        if 0 <= t && t <= 0x100000 {
            let tsc = self.tsc;
            self.bus.render_ay_audio_vts::<L, V, A>(blep, tsc, chans);
        }
    }
}

} // verus!
