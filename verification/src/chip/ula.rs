//! The ZX Spectrum 16k/48k ULA: the frame-based execution state, the
//! per-frame event logs, the memory and I/O decision logic the CPU's
//! host callbacks rest on, and the halted-state fast-forward.

pub mod audio;
pub mod frame_cache;
pub mod video;

use vstd::prelude::*;
use vstd::arithmetic::div_mod::{lemma_fundamental_div_mod, lemma_mod_bound};

use crate::audio::PackedTsData;
use crate::bus::BusDevice;
use crate::clock::{FTs, Ts, VideoTs, VideoTsData1, VideoTsData2, VideoTsData3, vts_le, vts_lt};
use crate::memory::Memory64k;
use crate::video::{contention_delayed, fts_of, MemoryContention, VideoFrame};
use frame_cache::UlaFrameCache;

verus! {

/// The CPU clock of the 16k/48k models.
pub const CPU_HZ: u32 = 3_500_000;

/// T-states of one Z80 M1 (opcode fetch) cycle.
pub const M1_CYCLE_TS: Ts = 4;

/// A per-frame log is ordered: every entry's timestamp is at or past the
/// one before it.
pub open spec fn log_nondecreasing<T: PackedTsData>(s: Seq<T>) -> bool {
    forall|i: int, j: int| 0 <= i < j < s.len() ==> vts_le(s[i].spec_vts(), s[j].spec_vts())
}

/// A per-frame log is strictly ordered.
pub open spec fn log_increasing<T: PackedTsData>(s: Seq<T>) -> bool {
    forall|i: int, j: int| 0 <= i < j < s.len() ==> vts_lt(s[i].spec_vts(), s[j].spec_vts())
}

/// The five key bits of one keyboard half-row.
pub open spec fn spec_keyboard_row(keyboard: u64, row: int) -> u8 {
    ((keyboard >> ((5 * row) as u64)) & 0x1f) as u8
}

/// The active-high union of the key bits of every half-row the port
/// address selects (a cleared high-byte bit selects its row).
pub open spec fn spec_keyboard_acc(keyboard: u64, port: u16, rows: int) -> u8
    decreases rows,
    when 0 <= rows <= 8
{
    if rows <= 0 {
        0u8
    } else {
        let prev = spec_keyboard_acc(keyboard, port, rows - 1);
        if (port >> ((8 + rows - 1) as u16)) & 1 == 0 {
            prev | spec_keyboard_row(keyboard, rows - 1)
        } else {
            prev
        }
    }
}

/// The ZX Spectrum 16k/48k ULA chipset state.
#[derive(Debug)]
pub struct Ula<B, V> {
    /// The frame counter.
    pub frames: u64,
    /// The current T-state within (or just past) the frame.
    pub tsc: VideoTs,
    /// The host computer's memory.
    pub memory: Memory64k,
    /// The head of the peripheral bus-device chain.
    pub bus: B,
    /// The keyboard matrix: 8 half-rows of 5 active-high key bits.
    pub keyboard: u64,
    /// Mid-frame screen writes for the renderer.
    pub frame_cache: UlaFrameCache,
    /// This frame's border color changes.
    pub border_out_changes: Vec<VideoTsData3>,
    /// This frame's EAR/MIC output changes.
    pub earmic_out_changes: Vec<VideoTsData2>,
    /// The pending EAR input changes.
    pub ear_in_changes: Vec<VideoTsData1>,
    /// The border color at the start of the frame.
    pub border: u8,
    /// The border color last written.
    pub last_border: u8,
    /// The sample rate the audio sink was prepared with.
    pub sample_rate: u32,
    /// The EAR input level at the start of the frame.
    pub prev_ear_in: u8,
    /// How far into `ear_in_changes` playback has got.
    pub ear_in_last_index: usize,
    /// The T-state of the last EAR/MIC change of the previous frame.
    pub prev_earmic_ts: FTs,
    /// The EAR/MIC level at the start of the frame.
    pub prev_earmic_data: u8,
    /// The EAR/MIC level last written.
    pub last_earmic_data: u8,
    pub _vframe: core::marker::PhantomData<V>,
}

impl<B, V: VideoFrame> Ula<B, V> {
    /// The state every ULA operation preserves: the memory and cache
    /// shapes, the ordering of the three logs (each log is non-decreasing
    /// in its timestamps), the packed payload ranges, and a normalized
    /// current timestamp.
    pub open spec fn wf(self) -> bool {
        &&& self.memory.wf()
        &&& self.frame_cache.wf()
        &&& log_nondecreasing(self.border_out_changes@)
        &&& log_increasing(self.earmic_out_changes@)
        &&& log_increasing(self.ear_in_changes@)
        &&& (forall|i: int|
            0 <= i < self.border_out_changes@.len() ==> ((#[trigger] self.border_out_changes@[i]).data
                < 8 && self.border_out_changes@[i].vts.vc >= 0))
        &&& (forall|i: int|
            0 <= i < self.earmic_out_changes@.len() ==> ((#[trigger] self.earmic_out_changes@[i]).data
                < 4 && self.earmic_out_changes@[i].vts.vc >= 0 && fts_of(
                V::spec_hts_end() - V::spec_hts_start(),
                self.earmic_out_changes@[i].vts,
            ) > self.prev_earmic_ts))
        &&& (forall|i: int|
            0 <= i < self.ear_in_changes@.len() ==> (#[trigger] self.ear_in_changes@[i]).data < 2)
        &&& (forall|i: int|
            0 <= i < self.border_out_changes@.len() ==> V::spec_hts_start() <= (
            #[trigger] self.border_out_changes@[i]).vts.hc < V::spec_hts_end())
        &&& (forall|i: int|
            0 <= i < self.earmic_out_changes@.len() ==> V::spec_hts_start() <= (
            #[trigger] self.earmic_out_changes@[i]).vts.hc < V::spec_hts_end())
        &&& (forall|i: int|
            0 <= i < self.ear_in_changes@.len() ==> V::spec_hts_start() <= (
            #[trigger] self.ear_in_changes@[i]).vts.hc < V::spec_hts_end())
        &&& self.ear_in_last_index <= self.ear_in_changes@.len()
        &&& self.border < 8
        &&& self.last_border < 8
        &&& self.prev_earmic_data < 4
        &&& self.last_earmic_data < 4
        &&& self.prev_ear_in < 2
        &&& V::spec_hts_start() <= self.tsc.hc < V::spec_hts_end()
        &&& 0 <= self.tsc.vc <= 1024
    }

    /// The CPU clock frequency.
    pub fn cpu_clock_rate(&self) -> (r: u32)
        ensures
            r == CPU_HZ,
    {
        CPU_HZ
    }

    /// How long one frame lasts, in nanoseconds.
    pub fn frame_duration_nanos(&self) -> (r: u32)
        ensures
            r as int == V::spec_vsl_count() * (V::spec_hts_end() - V::spec_hts_start())
                * 1_000_000_000 / (CPU_HZ as int),
    {
        proof {
            V::wf();
            assert(0 <= V::spec_vsl_count() * (V::spec_hts_end() - V::spec_hts_start()) <= 81920)
                by (nonlinear_arith)
                requires
                    256 <= V::spec_vsl_count() <= 320,
                    192 <= V::spec_hts_end() - V::spec_hts_start() <= 256,
            ;
        }
        let ft = V::frame_tstates_count() as u32;
        let nanos = crate::chip::nanos_from_frame_tc_cpu_hz(ft, CPU_HZ);
        proof {
            assert(nanos <= 0xffff_ffff) by (nonlinear_arith)
                requires
                    nanos == V::spec_vsl_count() * (V::spec_hts_end() - V::spec_hts_start())
                        * 1_000_000_000 / (CPU_HZ as int),
                    0 <= V::spec_vsl_count() * (V::spec_hts_end() - V::spec_hts_start()) <= 81920,
                    CPU_HZ == 3_500_000,
            ;
        }
        nanos as u32
    }

    /// A mutable reference to the head of the bus-device chain.
    pub fn bus_device_mut(&mut self) -> (r: &mut B)
        ensures
            *r == old(self).bus,
            *final(self) == (Ula { bus: *final(r), ..*old(self) }),
    {
        &mut self.bus
    }

    /// The head of the bus-device chain.
    pub fn bus_device_ref(&self) -> (r: &B)
        ensures
            *r == self.bus,
    {
        &self.bus
    }

    /// A mutable reference to the memory.
    pub fn memory_mut(&mut self) -> (r: &mut Memory64k)
        ensures
            *r == old(self).memory,
            *final(self) == (Ula { memory: *final(r), ..*old(self) }),
    {
        &mut self.memory
    }

    /// The memory.
    pub fn memory_ref(&self) -> (r: &Memory64k)
        ensures
            *r == self.memory,
    {
        &self.memory
    }

    /// The number of the frame being executed.
    pub fn current_frame(&self) -> (r: u64)
        ensures
            r == self.frames,
    {
        self.frames
    }

    /// The normalized frame count and T-state of the current position.
    pub fn frame_tstate(&self) -> (r: (u64, FTs))
        requires
            self.wf(),
            ({
                let ft = V::spec_vsl_count() * (V::spec_hts_end() - V::spec_hts_start());
                let t = fts_of(V::spec_hts_end() - V::spec_hts_start(), self.tsc);
                0 <= self.frames + t / ft && self.frames + t / ft <= u64::MAX
            }),
        ensures
            ({
                let ft = V::spec_vsl_count() * (V::spec_hts_end() - V::spec_hts_start());
                let t = fts_of(V::spec_hts_end() - V::spec_hts_start(), self.tsc);
                r.0 == self.frames + t / ft && r.1 == t % ft
            }),
    {
        V::vts_to_norm_tstates(self.frames, self.tsc)
    }

    /// The current frame T-state.
    pub fn current_tstate(&self) -> (r: FTs)
        ensures
            r as int == fts_of(V::spec_hts_end() - V::spec_hts_start(), self.tsc),
    {
        V::vts_to_tstates(self.tsc)
    }

    /// Whether the frame has ended.
    pub fn is_frame_over(&self) -> (r: bool)
        ensures
            r == (self.tsc.vc as int >= V::spec_vsl_count()),
    {
        V::is_vts_eof(self.tsc)
    }

    /// The current video timestamp.
    pub fn video_ts(&self) -> (r: VideoTs)
        ensures
            r == self.tsc,
    {
        self.tsc
    }

    /// Replaces the current video timestamp.
    pub fn set_video_ts(&mut self, vts: VideoTs)
        requires
            V::spec_hts_start() <= vts.hc < V::spec_hts_end(),
            0 <= vts.vc <= 1024,
        ensures
            *final(self) == (Ula { tsc: vts, ..*old(self) }),
    {
        self.tsc = vts;
    }

    /// The keyboard byte for the half-row selection in the high port
    /// byte: the wired-AND of every selected half-row, active low.
    pub fn read_keyboard(&self, port: u16) -> (r: u8)
        ensures
            r == !spec_keyboard_acc(self.keyboard, port, 8) & 0x1f,
            r < 32,
    {
        let mut acc: u8 = 0;
        let mut row: u16 = 0;
        while row < 8
            invariant
                row <= 8,
                acc < 32,
                acc == spec_keyboard_acc(self.keyboard, port, row as int),
            decreases 8 - row,
        {
            if (port >> (8 + row)) & 1 == 0 {
                let bits = ((self.keyboard >> (5 * (row as u64))) & 0x1f) as u8;
                proof {
                    let kb = self.keyboard;
                    let r64 = row as u64;
                    assert((((kb >> (5 * r64)) & 0x1f) as u8) < 32 && (acc | (((kb >> (5 * r64))
                        & 0x1f) as u8)) < 32) by (bit_vector)
                        requires
                            acc < 32,
                    ;
                }
                acc = acc | bits;
            }
            row = row + 1;
        }
        proof {
            assert(!acc & 0x1f < 32u8) by (bit_vector);
        }
        !acc & 0x1f
    }
}

/// The position of the halted CPU after the next M1 cycle, and how the
/// frame position advances cycle by cycle while the CPU stays halted:
/// each fetch takes 4 T-states, delayed by the contention pattern while
/// the scan line is in the pixel area and the fetch address is
/// contended; the walk ends at the frame interrupt, on the first
/// non-negative horizontal T-state of the line past the frame.
/// The result is the final scan line, horizontal T-state, and the count
/// of M1 cycles taken (the refresh register advance).
pub open spec fn spec_halted_walk<V: VideoFrame, M: MemoryContention>(
    pc: u16,
    vc: int,
    hc: int,
) -> (int, int, int)
    decreases
            (if V::spec_vsl_count() - vc > 0 {
                V::spec_vsl_count() - vc
            } else {
                0
            }),
            V::spec_hts_end() + 8 - hc,
    when V::spec_hts_start() <= hc < V::spec_hts_end() && vc <= V::spec_vsl_count() && 192
        <= V::spec_hts_end() - V::spec_hts_start() <= 256 && 64 <= V::spec_hts_end() <= 160
        && V::spec_cont_start() >= -8 && V::spec_cont_end() <= 128 && 0 <= V::spec_cont_phase()
        < 8 && V::spec_cont_start() + V::spec_cont_phase() >= 0
    via spec_halted_walk_decreases::<V, M>
{
    if vc >= V::spec_vsl_count() && hc >= 0 {
        (vc, hc, 0)
    } else {
        let hc1 = if M::spec_is_contended(pc) && V::spec_vsl_pixels_start() <= vc
            < V::spec_vsl_pixels_end() {
            contention_delayed(V::spec_cont_start(), V::spec_cont_end(), V::spec_cont_phase(), hc)
        } else {
            hc
        };
        let hc2 = hc1 + 4;
        if hc2 >= V::spec_hts_end() {
            let next = spec_halted_walk::<V, M>(
                pc,
                vc + 1,
                hc2 - (V::spec_hts_end() - V::spec_hts_start()),
            );
            (next.0, next.1, next.2 + 1)
        } else {
            let next = spec_halted_walk::<V, M>(pc, vc, hc2);
            (next.0, next.1, next.2 + 1)
        }
    }
}

#[via_fn]
proof fn spec_halted_walk_decreases<V: VideoFrame, M: MemoryContention>(pc: u16, vc: int, hc: int) {
    if !(vc >= V::spec_vsl_count() && hc >= 0) {
        let hc1 = if M::spec_is_contended(pc) && V::spec_vsl_pixels_start() <= vc
            < V::spec_vsl_pixels_end() {
            contention_delayed(V::spec_cont_start(), V::spec_cont_end(), V::spec_cont_phase(), hc)
        } else {
            hc
        };
        lemma_mod_bound(hc + V::spec_cont_phase(), 8);
        assert(hc <= hc1 <= hc + 6);
        if hc1 + 4 >= V::spec_hts_end() {
            assert(hc >= V::spec_hts_end() - 10 > 0);
            assert(vc < V::spec_vsl_count());
        }
    }
}

/// Where no fetch of the walk is contended, the walk lands on the frame
/// interrupt at the horizontal T-state `hc % 4`, after exactly one cycle
/// per 4 T-states of distance.
proof fn lemma_plain_walk<V: VideoFrame, M: MemoryContention>(pc: u16, vc: int, hc: int)
    requires
        V::spec_hts_start() <= hc < V::spec_hts_end(),
        0 <= vc <= V::spec_vsl_count(),
        vc < V::spec_vsl_count() || hc < 0,
        !M::spec_is_contended(pc) || vc >= V::spec_vsl_pixels_end(),
    ensures
        ({
            let w = spec_halted_walk::<V, M>(pc, vc, hc);
            let c = V::spec_hts_end() - V::spec_hts_start();
            w.0 == V::spec_vsl_count() && w.1 == hc % 4 && 4 * w.2 == (V::spec_vsl_count() - vc)
                * c + w.1 - hc
        }),
    decreases
            (if V::spec_vsl_count() - vc > 0 {
                V::spec_vsl_count() - vc
            } else {
                0
            }),
            V::spec_hts_end() + 8 - hc,
{
    V::wf();
    let vsl = V::spec_vsl_count();
    let c = V::spec_hts_end() - V::spec_hts_start();
    let w = spec_halted_walk::<V, M>(pc, vc, hc);
    assert(!(vc >= vsl && hc >= 0));
    lemma_mod_bound(hc, 4);
    lemma_fundamental_div_mod(hc, 4);
    let hc2 = hc + 4;
    assert(hc2 % 4 == hc % 4) by {
        vstd::arithmetic::div_mod::lemma_mod_multiples_vanish(1, hc, 4);
    }
    if hc2 >= V::spec_hts_end() {
        let hcw = hc2 - c;
        assert(hcw % 4 == hc2 % 4) by {
            let k = c / 4;
            lemma_fundamental_div_mod(c, 4);
            assert(c == 4 * k);
            assert(hcw == 4 * (-k) + hc2);
            vstd::arithmetic::div_mod::lemma_mod_multiples_vanish(-k, hc2, 4);
        }
        lemma_plain_walk::<V, M>(pc, vc + 1, hcw);
        let next = spec_halted_walk::<V, M>(pc, vc + 1, hcw);
        assert(w == (next.0, next.1, next.2 + 1));
        assert((vsl - (vc + 1)) * c == (vsl - vc) * c - c) by (nonlinear_arith);
    } else {
        if vc >= vsl && hc2 >= 0 {
            let next = spec_halted_walk::<V, M>(pc, vc, hc2);
            assert(next == (vc, hc2, 0int));
            assert(w == (next.0, next.1, next.2 + 1));
            assert(hc % 4 == hc + 4) by {
                vstd::arithmetic::div_mod::lemma_mod_multiples_vanish(1, hc, 4);
            }
            assert((vsl - vc) * c == 0) by (nonlinear_arith)
                requires
                    vc == vsl,
            ;
        } else {
            lemma_plain_walk::<V, M>(pc, vc, hc2);
            let next = spec_halted_walk::<V, M>(pc, vc, hc2);
            assert(w == (next.0, next.1, next.2 + 1));
        }
    }
}

/// The walk takes at least one and at most one cycle per 4 T-states: its
/// count is non-negative and bounded by the distance to the interrupt.
proof fn lemma_walk_count_bound<V: VideoFrame, M: MemoryContention>(pc: u16, vc: int, hc: int)
    requires
        V::spec_hts_start() <= hc < V::spec_hts_end(),
        0 <= vc <= V::spec_vsl_count(),
    ensures
        ({
            let w = spec_halted_walk::<V, M>(pc, vc, hc);
            let c = V::spec_hts_end() - V::spec_hts_start();
            0 <= w.2 && 4 * w.2 <= (V::spec_vsl_count() - vc) * c + 176 - hc
        }),
    decreases
            (if V::spec_vsl_count() - vc > 0 {
                V::spec_vsl_count() - vc
            } else {
                0
            }),
            V::spec_hts_end() + 8 - hc,
{
    V::wf();
    let vsl = V::spec_vsl_count();
    let c = V::spec_hts_end() - V::spec_hts_start();
    let w = spec_halted_walk::<V, M>(pc, vc, hc);
    if vc >= vsl && hc >= 0 {
        assert(w == (vc, hc, 0int));
        assert((vsl - vc) * c == 0) by (nonlinear_arith)
            requires
                vc == vsl,
        ;
    } else {
        let hc1 = if M::spec_is_contended(pc) && V::spec_vsl_pixels_start() <= vc
            < V::spec_vsl_pixels_end() {
            contention_delayed(V::spec_cont_start(), V::spec_cont_end(), V::spec_cont_phase(), hc)
        } else {
            hc
        };
        lemma_mod_bound(hc + V::spec_cont_phase(), 8);
        assert(hc <= hc1 <= hc + 6);
        let hc2 = hc1 + 4;
        if hc2 >= V::spec_hts_end() {
            assert(vc < vsl);
            lemma_walk_count_bound::<V, M>(pc, vc + 1, hc2 - c);
            let next = spec_halted_walk::<V, M>(pc, vc + 1, hc2 - c);
            assert(w == (next.0, next.1, next.2 + 1));
            assert((vsl - (vc + 1)) * c == (vsl - vc) * c - c) by (nonlinear_arith);
        } else {
            lemma_walk_count_bound::<V, M>(pc, vc, hc2);
            let next = spec_halted_walk::<V, M>(pc, vc, hc2);
            assert(w == (next.0, next.1, next.2 + 1));
        }
    }
}

/// Advances through the halted state to the end of the frame without
/// running the CPU: returns the video timestamp at the frame interrupt
/// and the count of M1 cycles skipped, to be added to the CPU's refresh
/// register. Contended fetches within the pixel area are walked cycle
/// by cycle; the uncontended remainder is advanced in closed form. The
/// result is exactly that of the cycle-by-cycle walk
/// [`spec_halted_walk`].
pub fn execute_halted_state_until_eof<V: VideoFrame, M: MemoryContention>(tsc: VideoTs, pc: u16) -> (r: (
    VideoTs,
    u32,
))
    requires
        V::spec_hts_start() <= tsc.hc < V::spec_hts_end(),
        0 <= tsc.vc < V::spec_vsl_count(),
    ensures
        ({
            let w = spec_halted_walk::<V, M>(pc, tsc.vc as int, tsc.hc as int);
            r.0.vc as int == w.0 && r.0.hc as int == w.1 && r.1 as int == w.2
        }),
{
    proof {
        V::wf();
        lemma_walk_count_bound::<V, M>(pc, tsc.vc as int, tsc.hc as int);
        let vs = V::spec_vsl_count();
        let cc = V::spec_hts_end() - V::spec_hts_start();
        assert(0 <= (vs - tsc.vc as int) * cc <= 320 * 256) by (nonlinear_arith)
            requires
                0 <= vs - tsc.vc as int <= 320,
                192 <= cc <= 256,
        ;
    }
    let ghost w0 = spec_halted_walk::<V, M>(pc, tsc.vc as int, tsc.hc as int);
    let c = V::hts_count();
    let (_, hts_end) = V::hts_range();
    let (px_start, px_end) = V::vsl_pixels();
    let vsl = V::vsl_count();
    let mut vc: Ts = tsc.vc;
    let mut hc: Ts = tsc.hc;
    let mut count: u32 = 0;
    if M::is_contended_address(pc) {
        while vc < px_end
            invariant
                c as int == V::spec_hts_end() - V::spec_hts_start(),
                hts_end as int == V::spec_hts_end(),
                px_start as int == V::spec_vsl_pixels_start(),
                px_end as int == V::spec_vsl_pixels_end(),
                vsl as int == V::spec_vsl_count(),
                M::spec_is_contended(pc),
                V::spec_hts_start() <= hc < V::spec_hts_end(),
                0 <= vc,
                vc < V::spec_vsl_count(),
                count <= 0x100000,
                0 <= w0.2 <= 0x100000,
                count as int + spec_halted_walk::<V, M>(pc, vc as int, hc as int).2 == w0.2,
                spec_halted_walk::<V, M>(pc, vc as int, hc as int).2 >= 0,
                spec_halted_walk::<V, M>(pc, vc as int, hc as int).0 == w0.0,
                spec_halted_walk::<V, M>(pc, vc as int, hc as int).1 == w0.1,
            decreases V::spec_vsl_pixels_end() - vc, V::spec_hts_end() + 8 - hc,
        {
            proof {
                V::wf();
            }
            let ghost pvc = vc as int;
            let ghost phc = hc as int;
            let hc1 = if vc >= px_start {
                V::contention(hc)
            } else {
                hc
            };
            let hc2 = hc1 + 4;
            if hc2 >= hts_end {
                vc = vc + 1;
                hc = hc2 - c;
            } else {
                hc = hc2;
            }
            proof {
                let vs = V::spec_vsl_count();
                let cc = V::spec_hts_end() - V::spec_hts_start();
                lemma_walk_count_bound::<V, M>(pc, pvc, phc);
                assert(0 <= (vs - pvc) * cc <= 320 * 256) by (nonlinear_arith)
                    requires
                        0 <= vs - pvc <= 320,
                        192 <= cc <= 256,
                ;
                let wp = spec_halted_walk::<V, M>(pc, pvc, phc);
                let wn = spec_halted_walk::<V, M>(pc, vc as int, hc as int);
                assert(!(pvc >= vs && phc >= 0));
                assert(wp == (wn.0, wn.1, wn.2 + 1));
                lemma_walk_count_bound::<V, M>(pc, vc as int, hc as int);
                assert(0 <= (vs - vc) * cc <= 320 * 256) by (nonlinear_arith)
                    requires
                        0 <= vs - vc <= 320,
                        192 <= cc <= 256,
                ;
            }
            count = count + 1;
        }
    }
    proof {
        lemma_plain_walk::<V, M>(pc, vc as int, hc as int);
        lemma_mod_bound(hc as int, 4);
        assert(0 <= (vsl as int - vc as int) * (c as int) <= 320 * 256) by (nonlinear_arith)
            requires
                0 <= vsl as int - vc as int <= 320,
                192 <= c as int <= 256,
        ;
    }
    let hcf: Ts = (hc as i32).checked_rem_euclid(4).unwrap() as Ts;
    let num: i64 = (vsl as i64 - vc as i64) * (c as i64) + (hcf as i64 - hc as i64);
    let n2: i64 = num.checked_div_euclid(4).unwrap();
    proof {
        let w = spec_halted_walk::<V, M>(pc, vc as int, hc as int);
        assert(num == 4 * w.2);
        assert((4 * w.2) / 4 == w.2) by {
            vstd::arithmetic::div_mod::lemma_div_multiples_vanish(w.2, 4);
        }
    }
    (VideoTs { vc: vsl, hc: hcf }, count + (n2 as u32))
}

/// Appending an entry at or past the last one keeps a log ordered.
pub proof fn lemma_log_push<T: PackedTsData>(s: Seq<T>, e: T)
    requires
        log_nondecreasing(s),
        s.len() > 0 ==> vts_le(s.last().spec_vts(), e.spec_vts()),
    ensures
        log_nondecreasing(s.push(e)),
{
    let p = s.push(e);
    assert forall|i: int, j: int| 0 <= i < j < p.len() implies vts_le(
        p[i].spec_vts(),
        p[j].spec_vts(),
    ) by {
        if j < s.len() {
        } else {
            assert(p[j] == e);
            if i < s.len() - 1 {
                assert(vts_le(s[i].spec_vts(), s[s.len() - 1].spec_vts()));
            }
        }
    }
}

impl<B: Default, V: VideoFrame> Default for Ula<B, V> {
    /// A powered-on ULA: empty logs, white border, frame position at
    /// the origin.
    fn default() -> (r: Self)
        ensures
            r.wf(),
            r.frames == 0,
            r.tsc == (VideoTs { vc: 0i16, hc: 0i16 }),
            r.border_out_changes@.len() == 0,
            r.earmic_out_changes@.len() == 0,
            r.ear_in_changes@.len() == 0,
            r.border == 7,
            r.last_border == 7,
            r.prev_earmic_ts == i32::MIN,
            r.prev_earmic_data == 0,
            r.last_earmic_data == 0,
            r.prev_ear_in == 0,
            r.ear_in_last_index == 0,
            r.keyboard == 0,
    {
        proof {
            V::wf();
        }
        Ula {
            frames: 0,
            tsc: VideoTs { vc: 0, hc: 0 },
            memory: Memory64k::new(),
            bus: B::default(),
            keyboard: 0,
            frame_cache: UlaFrameCache::new(),
            border_out_changes: Vec::new(),
            earmic_out_changes: Vec::new(),
            ear_in_changes: Vec::new(),
            border: 7,
            last_border: 7,
            sample_rate: 0,
            prev_ear_in: 0,
            ear_in_last_index: 0,
            prev_earmic_ts: i32::MIN,
            prev_earmic_data: 0,
            last_earmic_data: 0,
            _vframe: core::marker::PhantomData,
        }
    }
}

impl<B, V: VideoFrame> Ula<B, V> where B: BusDevice<Timestamp = VideoTs> {
    /// Begins the next frame once the current one has ended: tells the
    /// bus chain, counts the frame, drains the video and audio frame
    /// data, and wraps the timestamp one frame back.
    pub fn prepare_next_frame(&mut self)
        requires
            old(self).wf(),
            old(self).tsc.vc as int >= V::spec_vsl_count(),
            (old(self).tsc.vc as int) < 2 * V::spec_vsl_count(),
        ensures
            final(self).wf(),
            final(self).frames == old(self).frames.wrapping_add(1),
            final(self).tsc.vc as int == old(self).tsc.vc as int - V::spec_vsl_count(),
            final(self).tsc.hc == old(self).tsc.hc,
            (final(self).tsc.vc as int) < V::spec_vsl_count(),
            final(self).border_out_changes@.len() == 0,
            final(self).earmic_out_changes@.len() == 0,
            final(self).border == old(self).last_border,
            final(self).prev_earmic_data == old(self).last_earmic_data,
            final(self).bus.bus_view() == B::spec_next_frame(
                old(self).bus.bus_view(),
                old(self).tsc,
            ),
            final(self).memory == old(self).memory,
            final(self).keyboard == old(self).keyboard,
            final(self).last_border == old(self).last_border,
            final(self).last_earmic_data == old(self).last_earmic_data,
            forall|i: int| 0 <= i < 6144 ==> final(self).frame_cache.pixels@[i] is None,
            forall|i: int| 0 <= i < 768 ==> final(self).frame_cache.colors@[i] is None,
            forall|k: int|
                0 <= k < final(self).ear_in_changes@.len() ==> (
                #[trigger] final(self).ear_in_changes@[k]).vts.vc >= 0,
    {
        proof {
            V::wf();
        }
        let tsc = self.tsc;
        self.bus.next_frame(tsc);
        self.frames = self.frames.wrapping_add(1);
        self.cleanup_video_frame_data();
        self.cleanup_audio_frame_data();
        self.tsc = V::vts_saturating_sub_frame(self.tsc);
    }

    /// Makes sure a frame is live: when the position is at or past the
    /// end of a frame, the next frame is prepared before anything else
    /// runs; otherwise nothing changes.
    pub fn ensure_next_frame(&mut self)
        requires
            old(self).wf(),
            (old(self).tsc.vc as int) < 2 * V::spec_vsl_count(),
        ensures
            final(self).wf(),
            (final(self).tsc.vc as int) < V::spec_vsl_count(),
            old(self).tsc.vc as int >= V::spec_vsl_count() ==> final(self).frames == old(self).frames.wrapping_add(1) && final(self).tsc.vc as int == old(self).tsc.vc as int
                - V::spec_vsl_count() && final(self).tsc.hc == old(self).tsc.hc && final(self).border_out_changes@.len() == 0 && final(self).earmic_out_changes@.len() == 0
                && final(self).memory == old(self).memory && final(self).keyboard == old(self).keyboard && (forall|i: int|
                0 <= i < 6144 ==> final(self).frame_cache.pixels@[i] is None) && (forall|i: int|
                0 <= i < 768 ==> final(self).frame_cache.colors@[i] is None),
            (old(self).tsc.vc as int) < V::spec_vsl_count() ==> *final(self) == *old(self),
    {
        if self.is_frame_over() {
            self.prepare_next_frame();
        }
    }

    /// The ULA's answer to an I/O write. A write to an even port drives
    /// the ULA itself: the low 3 bits set the border, bits 3 and 4 the
    /// MIC and EAR outputs, each change logged with the current
    /// timestamp. Every write is also offered to the bus-device chain.
    pub fn write_io(&mut self, port: u16, data: u8) -> (r: bool)
        requires
            old(self).wf(),
            old(self).border_out_changes@.len() > 0 ==> vts_le(
                old(self).border_out_changes@.last().vts,
                old(self).tsc,
            ),
            old(self).earmic_out_changes@.len() > 0 ==> vts_lt(
                old(self).earmic_out_changes@.last().vts,
                old(self).tsc,
            ),
            old(self).prev_earmic_ts < fts_of(
                V::spec_hts_end() - V::spec_hts_start(),
                old(self).tsc,
            ),
            old(self).tsc.vc >= 0,
        ensures
            final(self).wf(),
            final(self).tsc == old(self).tsc,
            r == (port & 1 == 0),
            port & 1 == 0 ==> final(self).last_border == data & 7 && final(self).last_earmic_data
                == (data >> 3) & 3,
            port & 1 == 0 && old(self).last_border != data & 7 ==> final(self).border_out_changes@
                == old(self).border_out_changes@.push(
                VideoTsData3 { vts: old(self).tsc, data: data & 7 },
            ),
            port & 1 == 0 && old(self).last_border == data & 7 ==> final(self).border_out_changes@
                == old(self).border_out_changes@,
            port & 1 == 0 && old(self).last_earmic_data != (data >> 3) & 3 ==> final(self).earmic_out_changes@ == old(self).earmic_out_changes@.push(
                VideoTsData2 { vts: old(self).tsc, data: (data >> 3) & 3 },
            ),
            port & 1 == 0 && old(self).last_earmic_data == (data >> 3) & 3 ==> final(self).earmic_out_changes@ == old(self).earmic_out_changes@,
            port & 1 != 0 ==> *final(self) == *old(self),
    {
        if port & 1 == 0 {
            proof {
                assert(data & 7 < 8 && (data >> 3) & 3 < 4) by (bit_vector);
            }
            self.set_border_color(data & 7);
            let earmic = (data >> 3) & 3;
            if self.last_earmic_data != earmic {
                let entry = VideoTsData2::new(self.tsc, earmic);
                proof {
                    let em = earmic;
                    assert(em & 3 == em) by (bit_vector)
                        requires
                            em < 4,
                    ;
                    let s = self.earmic_out_changes@;
                    assert forall|i: int, j: int|
                        0 <= i < j < s.push(entry).len() implies vts_lt(
                        s.push(entry)[i].spec_vts(),
                        s.push(entry)[j].spec_vts(),
                    ) by {
                        if j < s.len() {
                        } else {
                            if i < s.len() - 1 {
                                assert(vts_lt(s[i].spec_vts(), s[s.len() - 1].spec_vts()));
                            }
                        }
                    }
                }
                self.earmic_out_changes.push(entry);
                self.last_earmic_data = earmic;
            }
            true
        } else {
            false
        }
    }

    /// The ULA's answer to an I/O read of an even port: the selected
    /// keyboard half-rows on the low 5 bits, wired-AND active low, and
    /// the EAR input on bit 6.
    pub fn read_ula_port(&mut self, port: u16) -> (r: u8)
        requires
            old(self).wf(),
        ensures
            final(self).wf(),
            *final(self) == (Ula { ear_in_last_index: final(self).ear_in_last_index, ..*old(self) }),
            r == (!spec_keyboard_acc(old(self).keyboard, port, 8) & 0x1f) | 0xa0 | (
            crate::chip::ula::audio::spec_ear_level(
                old(self).ear_in_changes@,
                old(self).ear_in_last_index as int,
                old(self).tsc,
                old(self).prev_ear_in,
                old(self).last_earmic_data,
            ) << 6),
    {
        let kb = self.read_keyboard(port);
        let tsc = self.tsc;
        let ear = self.read_ear_in(tsc);
        proof {
            let k = kb;
            let e = ear;
            assert(k < 32 && e < 2 ==> (k | 0xa0u8 | (e << 6)) >= 0) by (bit_vector);
        }
        kb | 0xa0 | (ear << 6)
    }

    /// A memory write request from the CPU: ROM stays read-only, and a
    /// write landing in the screen area is recorded in the frame cache
    /// with the current timestamp.
    pub fn write_mem(&mut self, addr: u16, data: u8)
        requires
            old(self).wf(),
        ensures
            final(self).wf(),
            addr >= 0x4000 ==> final(self).memory.mem@ == old(self).memory.mem@.update(
                addr as int,
                data,
            ),
            addr < 0x4000 ==> final(self).memory.mem@ == old(self).memory.mem@,
            final(self).tsc == old(self).tsc,
    {
        if addr >= 0x4000 {
            self.memory.write(addr, data);
            let tsc = self.tsc;
            self.update_frame_cache(addr, tsc);
        }
    }

    /// A memory read request from the CPU.
    pub fn read_mem(&self, addr: u16) -> (r: u8)
        requires
            self.wf(),
        ensures
            r == self.memory.mem@[addr as int],
    {
        self.memory.read(addr)
    }
}

/// The delayed position of a memory access at `addr` while the scan
/// line is in the pixel area: contended addresses stall until the
/// ULA's next free slot.
pub fn apply_mem_contention<V: VideoFrame, M: MemoryContention>(tsc: VideoTs, addr: u16) -> (r:
    VideoTs)
    ensures
        r.vc == tsc.vc,
        M::spec_is_contended(addr) && V::spec_vsl_pixels_start() <= (tsc.vc as int) < V::spec_vsl_pixels_end() ==> r.hc as int == contention_delayed(
            V::spec_cont_start(),
            V::spec_cont_end(),
            V::spec_cont_phase(),
            tsc.hc as int,
        ),
        !(M::spec_is_contended(addr) && V::spec_vsl_pixels_start() <= (tsc.vc as int) < V::spec_vsl_pixels_end()) ==> r == tsc,
{
    let (px_start, px_end) = V::vsl_pixels();
    if M::is_contended_address(addr) && px_start <= tsc.vc && tsc.vc < px_end {
        VideoTs { vc: tsc.vc, hc: V::contention(tsc.hc) }
    } else {
        tsc
    }
}

} // verus!
