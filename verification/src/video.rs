//! Video frame descriptors: per-variant frame geometry, memory contention,
//! the floating bus, snow interference, and video timestamp arithmetic.

use vstd::prelude::*;
use vstd::arithmetic::div_mod::{lemma_fundamental_div_mod, lemma_mod_bound};

use crate::clock::{FTs, Ts, VideoTs};

verus! {

/// The widest border size, in pixels on one side.
pub const MAX_BORDER_SIZE: Ts = 50;

/// A selectable width of the rendered border area.
#[derive(Clone, Copy, PartialEq, Eq, Structural, Debug)]
pub enum BorderSize {
    Full,
    Large,
    Medium,
    Small,
    Tiny,
    Minimal,
    Nil,
}

/// The pixel width of one border side, as a spec value.
pub open spec fn border_pixels(border_size: BorderSize) -> int {
    match border_size {
        BorderSize::Full => 50,
        BorderSize::Large => 40,
        BorderSize::Medium => 32,
        BorderSize::Small => 24,
        BorderSize::Tiny => 16,
        BorderSize::Minimal => 8,
        BorderSize::Nil => 0,
    }
}

/// How many pixels of border one side of the given [`BorderSize`] shows.
pub fn border_size_pixels(border_size: BorderSize) -> (r: Ts)
    ensures
        r as int == border_pixels(border_size),
        0 <= r <= MAX_BORDER_SIZE,
        r % 2 == 0,
{
    match border_size {
        BorderSize::Full => 50,
        BorderSize::Large => 40,
        BorderSize::Medium => 32,
        BorderSize::Small => 24,
        BorderSize::Tiny => 16,
        BorderSize::Minimal => 8,
        BorderSize::Nil => 0,
    }
}

/// Coordinates of one 8x1 pixel cell of the screen area.
#[derive(Clone, Copy, PartialEq, Eq, Structural, Debug)]
pub struct CellCoords {
    pub column: u8,
    pub row: u8,
}

/// The flat frame T-state of a video timestamp, given the line length.
pub open spec fn fts_of(hts_count: int, vts: VideoTs) -> int {
    vts.vc * hts_count + vts.hc
}

/// The scan line holding the flat T-state `t`: the unique `vc` such that
/// `hts_start <= t - vc * hts_count < hts_start + hts_count`.
pub open spec fn vc_of(hts_start: int, hts_count: int, t: int) -> int {
    (t - hts_start) / hts_count
}

/// The horizontal T-state within the line holding the flat T-state `t`.
pub open spec fn hc_of(hts_start: int, hts_count: int, t: int) -> int {
    t - vc_of(hts_start, hts_count, t) * hts_count
}

/// The least flat T-state whose normalized timestamp is representable.
pub open spec fn min_flat_ts(hts_start: int, hts_count: int) -> int {
    i16::MIN * hts_count + hts_start
}

/// The greatest flat T-state whose normalized timestamp is representable.
pub open spec fn max_flat_ts(hts_start: int, hts_count: int) -> int {
    i16::MAX * hts_count + hts_start + hts_count - 1
}

/// What the contention function returns: inside the window `start..end`,
/// a horizontal T-state is delayed up to the next slot boundary of the
/// 8-T-state pattern anchored at `phase`; outside it passes unchanged.
pub open spec fn contention_delayed(start: int, end: int, phase: int, hc: int) -> int {
    if start <= hc < end {
        let ct = (hc + phase) % 8;
        if ct < 6 {
            hc + 6 - ct
        } else {
            hc
        }
    } else {
        hc
    }
}

proof fn lemma_mul_bound_abs(a: int, b: int, am: int, bm: int)
    requires
        -am <= a <= am,
        0 <= b <= bm,
        0 <= am,
    ensures
        -(am * bm) <= a * b <= am * bm,
{
    assert(-(am * bm) <= a * b <= am * bm) by (nonlinear_arith)
        requires
            -am <= a <= am,
            0 <= b <= bm,
            0 <= am,
    ;
}

/// The flat T-state of any timestamp stays within eight million and a half.
proof fn lemma_fts_bound(hts_count: int, vts: VideoTs)
    requires
        0 < hts_count <= 256,
    ensures
        -8421376 <= fts_of(hts_count, vts) <= 8421376,
{
    lemma_mul_bound_abs(vts.vc as int, hts_count, 32768, 256);
}

proof fn lemma_div_abs_bound(x: int, c: int, m: int)
    requires
        0 < c,
        -m <= x <= m,
        0 <= m,
    ensures
        -m <= x / c <= m,
{
    lemma_fundamental_div_mod(x, c);
    lemma_mod_bound(x, c);
    let q = x / c;
    let r = x % c;
    assert(-m <= q <= m) by (nonlinear_arith)
        requires
            x == c * q + r,
            0 <= r < c,
            0 < c,
            -m <= x <= m,
            0 <= m,
    ;
}

/// Splits a flat T-state into a normalized timestamp, for a scan line of
/// `count` T-states whose horizontal origin is `start`.
fn flat_to_vts(t: i64, start: Ts, count: Ts) -> (r: VideoTs)
    requires
        -128 < start < 0,
        192 <= count <= 256,
        min_flat_ts(start as int, count as int) <= t <= max_flat_ts(start as int, count as int),
    ensures
        r.vc as int == vc_of(start as int, count as int, t as int),
        r.hc as int == hc_of(start as int, count as int, t as int),
        start <= r.hc < start + count,
        fts_of(count as int, r) == t as int,
{
    let c: i64 = count as i64;
    proof {
        lemma_mul_bound_abs(i16::MIN as int, count as int, 32768, 256);
        lemma_mul_bound_abs(i16::MAX as int, count as int, 32768, 256);
    }
    let shifted: i64 = t - start as i64;
    proof {
        lemma_fundamental_div_mod(shifted as int, c as int);
        lemma_mod_bound(shifted as int, c as int);
        let qi = shifted as int / c as int;
        let ri = shifted as int % c as int;
        assert(i16::MIN <= qi <= i16::MAX) by (nonlinear_arith)
            requires
                shifted == c * qi + ri,
                0 <= ri < c,
                0 < c,
                i16::MIN * (c as int) <= shifted <= i16::MAX * (c as int) + c - 1,
        ;
    }
    let q: i64 = shifted.checked_div_euclid(c).unwrap();
    let rm: i64 = shifted.checked_rem_euclid(c).unwrap();
    let vc: Ts = q as Ts;
    let hc: Ts = (rm as Ts) + start;
    VideoTs { vc, hc }
}

/// A profile of one machine variant's video frame: geometry constants,
/// the contention pattern, the floating bus, and snow interference, plus
/// the video timestamp arithmetic shared by every variant.
pub trait VideoFrame: Sized {
    /// First horizontal T-state of a scan line (negative: left of origin).
    spec fn spec_hts_start() -> int;

    /// One past the last horizontal T-state of a scan line.
    spec fn spec_hts_end() -> int;

    /// First scan line of the top border.
    spec fn spec_vsl_border_top() -> int;

    /// First scan line of the pixel area.
    spec fn spec_vsl_pixels_start() -> int;

    /// One past the last scan line of the pixel area.
    spec fn spec_vsl_pixels_end() -> int;

    /// One past the last scan line of the bottom border.
    spec fn spec_vsl_border_bot() -> int;

    /// Total number of scan lines of one frame.
    spec fn spec_vsl_count() -> int;

    /// First horizontal T-state of the contention window.
    spec fn spec_cont_start() -> int;

    /// One past the last horizontal T-state of the contention window.
    spec fn spec_cont_end() -> int;

    /// Phase of the 8-T-state contention pattern.
    spec fn spec_cont_phase() -> int;

    /// First horizontal T-state of the border drawing positions.
    spec fn spec_border_hts_start() -> int;

    /// One past the last horizontal T-state of the border drawing positions.
    spec fn spec_border_hts_end() -> int;

    /// The facts every variant's constants obey; proved once per variant,
    /// available to all the shared arithmetic below.
    proof fn wf()
        ensures
            -128 < Self::spec_hts_start() < 0 < Self::spec_hts_end() <= 160,
            192 <= Self::spec_hts_end() - Self::spec_hts_start() <= 256,
            (Self::spec_hts_end() - Self::spec_hts_start()) % 4 == 0,
            0 < Self::spec_vsl_border_top() <= Self::spec_vsl_pixels_start(),
            Self::spec_vsl_pixels_start() < Self::spec_vsl_pixels_end(),
            Self::spec_vsl_pixels_end() <= Self::spec_vsl_border_bot(),
            Self::spec_vsl_border_bot() < Self::spec_vsl_count(),
            256 <= Self::spec_vsl_count() <= 320,
            -8 <= Self::spec_cont_start() <= 0 <= Self::spec_cont_end() <= 128,
            0 <= Self::spec_cont_phase() < 8,
            Self::spec_cont_start() + Self::spec_cont_phase() >= 0,
            -32 <= Self::spec_border_hts_start(),
            Self::spec_border_hts_start() + 48 <= Self::spec_border_hts_end(),
            Self::spec_border_hts_end() <= 160,
    ;

    /// The range of horizontal T-states of one scan line.
    fn hts_range() -> (r: (Ts, Ts))
        ensures
            r.0 as int == Self::spec_hts_start(),
            r.1 as int == Self::spec_hts_end(),
    ;

    /// The range of scan lines of the pixel area.
    fn vsl_pixels() -> (r: (Ts, Ts))
        ensures
            r.0 as int == Self::spec_vsl_pixels_start(),
            r.1 as int == Self::spec_vsl_pixels_end(),
    ;

    /// First scan line of the top border.
    fn vsl_border_top() -> (r: Ts)
        ensures
            r as int == Self::spec_vsl_border_top(),
    ;

    /// One past the last scan line of the bottom border.
    fn vsl_border_bot() -> (r: Ts)
        ensures
            r as int == Self::spec_vsl_border_bot(),
    ;

    /// Total number of scan lines of one frame.
    fn vsl_count() -> (r: Ts)
        ensures
            r as int == Self::spec_vsl_count(),
    ;

    /// The contention window of horizontal T-states.
    fn cont_window() -> (r: (Ts, Ts))
        ensures
            r.0 as int == Self::spec_cont_start(),
            r.1 as int == Self::spec_cont_end(),
    ;

    /// Phase of the 8-T-state contention pattern.
    fn cont_phase() -> (r: Ts)
        ensures
            r as int == Self::spec_cont_phase(),
    ;

    /// The range of horizontal T-states at which border cells are drawn.
    fn border_hts_bounds() -> (r: (Ts, Ts))
        ensures
            r.0 as int == Self::spec_border_hts_start(),
            r.1 as int == Self::spec_border_hts_end(),
    ;

    /// The cell offset readable from the floating bus at `hc`, if any.
    spec fn spec_floating_bus_offset(hc: Ts) -> Option<u16>;

    /// Exec twin of [`VideoFrame::spec_floating_bus_offset`].
    fn floating_bus_offset(hc: Ts) -> (r: Option<u16>)
        ensures
            r == Self::spec_floating_bus_offset(hc),
    ;

    /// The cell whose attribute byte snow interference corrupts when an
    /// instruction fetch at `vts` collides with the pixel fetch, if any.
    spec fn spec_snow_interference_coords(vts: VideoTs) -> Option<CellCoords>;

    /// Exec twin of [`VideoFrame::spec_snow_interference_coords`].
    fn snow_interference_coords(vts: VideoTs) -> (r: Option<CellCoords>)
        ensures
            r == Self::spec_snow_interference_coords(vts),
    ;

    /// Snow interference always addresses a cell of the pixel grid.
    proof fn snow_coords_wf(vts: VideoTs)
        ensures
            Self::spec_snow_interference_coords(vts) matches Some(c) ==> c.row < 192 && c.column
                < 32,
    ;

    /// Number of T-states of one scan line.
    fn hts_count() -> (r: Ts)
        ensures
            r as int == Self::spec_hts_end() - Self::spec_hts_start(),
    {
        proof {
            Self::wf();
        }
        let (s, e) = Self::hts_range();
        e - s
    }

    /// Number of T-states of one whole frame.
    fn frame_tstates_count() -> (r: FTs)
        ensures
            r as int == Self::spec_vsl_count() * (Self::spec_hts_end() - Self::spec_hts_start()),
    {
        proof {
            Self::wf();
        }
        let c = Self::hts_count() as FTs;
        let v = Self::vsl_count() as FTs;
        proof {
            lemma_mul_bound_abs(v as int, c as int, 320, 256);
        }
        v * c
    }

    /// Delays a horizontal T-state by the variant's contention pattern.
    fn contention(hc: Ts) -> (r: Ts)
        ensures
            r as int == contention_delayed(
                Self::spec_cont_start(),
                Self::spec_cont_end(),
                Self::spec_cont_phase(),
                hc as int,
            ),
            hc as int <= r as int <= hc as int + 6,
    {
        proof {
            Self::wf();
        }
        let (cs, ce) = Self::cont_window();
        let ph = Self::cont_phase();
        if hc >= cs && hc < ce {
            let ct = (hc + ph) % 8;
            if ct < 6 {
                return hc + 6 - ct;
            }
        }
        hc
    }

    /// The flat frame T-state of the frame position `(vc, hc)`.
    fn vc_hc_to_tstates(vc: Ts, hc: Ts) -> (r: FTs)
        ensures
            r as int == fts_of(Self::spec_hts_end() - Self::spec_hts_start(), VideoTs { vc, hc }),
    {
        proof {
            Self::wf();
        }
        let c = Self::hts_count() as FTs;
        proof {
            lemma_mul_bound_abs(vc as int, c as int, 32768, 256);
        }
        (vc as FTs) * c + hc as FTs
    }

    /// The flat frame T-state of a video timestamp.
    fn vts_to_tstates(vts: VideoTs) -> (r: FTs)
        ensures
            r as int == fts_of(Self::spec_hts_end() - Self::spec_hts_start(), vts),
    {
        Self::vc_hc_to_tstates(vts.vc, vts.hc)
    }

    /// The normalized video timestamp of a flat frame T-state.
    fn tstates_to_vts(ts: FTs) -> (r: VideoTs)
        requires
            min_flat_ts(Self::spec_hts_start(), Self::spec_hts_end() - Self::spec_hts_start())
                <= ts,
            ts <= max_flat_ts(
                Self::spec_hts_start(),
                Self::spec_hts_end() - Self::spec_hts_start(),
            ),
        ensures
            r.vc as int == vc_of(
                Self::spec_hts_start(),
                Self::spec_hts_end() - Self::spec_hts_start(),
                ts as int,
            ),
            r.hc as int == hc_of(
                Self::spec_hts_start(),
                Self::spec_hts_end() - Self::spec_hts_start(),
                ts as int,
            ),
            Self::spec_hts_start() <= (r.hc as int) < Self::spec_hts_end(),
            fts_of(Self::spec_hts_end() - Self::spec_hts_start(), r) == ts as int,
    {
        proof {
            Self::wf();
        }
        let (s, _) = Self::hts_range();
        let c = Self::hts_count();
        flat_to_vts(ts as i64, s, c)
    }

    /// Whether `hc` lies within one scan line's horizontal T-state range.
    fn is_normalized_vts(vts: VideoTs) -> (r: bool)
        ensures
            r == (Self::spec_hts_start() <= (vts.hc as int) < Self::spec_hts_end()),
    {
        let (s, e) = Self::hts_range();
        s <= vts.hc && vts.hc < e
    }

    /// Whether the timestamp is at or past the end of the frame.
    fn is_vts_eof(vts: VideoTs) -> (r: bool)
        ensures
            r == (vts.vc as int >= Self::spec_vsl_count()),
    {
        vts.vc >= Self::vsl_count()
    }

    /// Normalizes a timestamp by carrying `hc` overflow into `vc`.
    fn normalize_vts(vts: VideoTs) -> (r: VideoTs)
        requires
            min_flat_ts(Self::spec_hts_start(), Self::spec_hts_end() - Self::spec_hts_start())
                <= fts_of(Self::spec_hts_end() - Self::spec_hts_start(), vts),
            fts_of(Self::spec_hts_end() - Self::spec_hts_start(), vts) <= max_flat_ts(
                Self::spec_hts_start(),
                Self::spec_hts_end() - Self::spec_hts_start(),
            ),
        ensures
            Self::spec_hts_start() <= (r.hc as int) < Self::spec_hts_end(),
            fts_of(Self::spec_hts_end() - Self::spec_hts_start(), r) == fts_of(
                Self::spec_hts_end() - Self::spec_hts_start(),
                vts,
            ),
    {
        let t = Self::vts_to_tstates(vts);
        Self::tstates_to_vts(t)
    }

    /// The largest representable normalized timestamp.
    fn vts_max() -> (r: VideoTs)
        ensures
            r.vc == i16::MAX,
            r.hc as int == Self::spec_hts_end() - 1,
    {
        proof {
            Self::wf();
        }
        let (_, e) = Self::hts_range();
        VideoTs { vc: i16::MAX, hc: e - 1 }
    }

    /// The smallest representable normalized timestamp.
    fn vts_min() -> (r: VideoTs)
        ensures
            r.vc == i16::MIN,
            r.hc as int == Self::spec_hts_start(),
    {
        let (s, _) = Self::hts_range();
        VideoTs { vc: i16::MIN, hc: s }
    }

    /// Advances a timestamp by `delta` T-states and normalizes the result.
    fn vts_add_ts(vts: VideoTs, delta: u32) -> (r: VideoTs)
        requires
            min_flat_ts(Self::spec_hts_start(), Self::spec_hts_end() - Self::spec_hts_start())
                <= fts_of(Self::spec_hts_end() - Self::spec_hts_start(), vts),
            fts_of(Self::spec_hts_end() - Self::spec_hts_start(), vts) + delta <= max_flat_ts(
                Self::spec_hts_start(),
                Self::spec_hts_end() - Self::spec_hts_start(),
            ),
        ensures
            Self::spec_hts_start() <= (r.hc as int) < Self::spec_hts_end(),
            fts_of(Self::spec_hts_end() - Self::spec_hts_start(), r) == fts_of(
                Self::spec_hts_end() - Self::spec_hts_start(),
                vts,
            ) + delta,
    {
        proof {
            Self::wf();
            lemma_fts_bound(Self::spec_hts_end() - Self::spec_hts_start(), vts);
            lemma_mul_bound_abs(
                i16::MAX as int,
                Self::spec_hts_end() - Self::spec_hts_start(),
                32768,
                256,
            );
        }
        let (s, _) = Self::hts_range();
        let c = Self::hts_count();
        let t: i64 = (vts.vc as i64) * (c as i64) + vts.hc as i64 + delta as i64;
        proof {
            lemma_mul_bound_abs(vts.vc as int, c as int, 32768, 256);
        }
        flat_to_vts(t, s, c)
    }

    /// Splits a frame count and a timestamp into a normalized frame count
    /// and a flat T-state within `0..FRAME_TSTATES_COUNT`.
    fn vts_to_norm_tstates(frames: u64, vts: VideoTs) -> (r: (u64, FTs))
        requires
            ({
                let ft = Self::spec_vsl_count() * (Self::spec_hts_end() - Self::spec_hts_start());
                let t = fts_of(Self::spec_hts_end() - Self::spec_hts_start(), vts);
                0 <= frames + t / ft && frames + t / ft <= u64::MAX
            }),
        ensures
            ({
                let ft = Self::spec_vsl_count() * (Self::spec_hts_end() - Self::spec_hts_start());
                let t = fts_of(Self::spec_hts_end() - Self::spec_hts_start(), vts);
                r.0 == frames + t / ft && r.1 == t % ft
            }),
    {
        proof {
            Self::wf();
            lemma_mul_bound_abs(
                Self::spec_vsl_count(),
                Self::spec_hts_end() - Self::spec_hts_start(),
                320,
                256,
            );
            lemma_fts_bound(Self::spec_hts_end() - Self::spec_hts_start(), vts);
        }
        let ft = Self::frame_tstates_count();
        let t = Self::vts_to_tstates(vts);
        proof {
            assert(ft >= 1) by (nonlinear_arith)
                requires
                    ft as int == Self::spec_vsl_count() * (Self::spec_hts_end()
                        - Self::spec_hts_start()),
                    256 <= Self::spec_vsl_count(),
                    192 <= Self::spec_hts_end() - Self::spec_hts_start(),
            ;
            lemma_div_abs_bound(t as int, ft as int, 8421376);
            lemma_mod_bound(t as int, ft as int);
        }
        let q: FTs = t.checked_div_euclid(ft).unwrap();
        let rm: FTs = t.checked_rem_euclid(ft).unwrap();
        let f = if q >= 0 {
            frames + (q as u64)
        } else {
            frames - ((-(q as i64)) as u64)
        };
        (f, rm)
    }

    /// The signed count of T-states from `vts0` to `vts1`.
    fn vts_diff(vts0: VideoTs, vts1: VideoTs) -> (r: FTs)
        ensures
            r as int == fts_of(Self::spec_hts_end() - Self::spec_hts_start(), vts1) - fts_of(
                Self::spec_hts_end() - Self::spec_hts_start(),
                vts0,
            ),
    {
        proof {
            Self::wf();
            lemma_fts_bound(Self::spec_hts_end() - Self::spec_hts_start(), vts0);
            lemma_fts_bound(Self::spec_hts_end() - Self::spec_hts_start(), vts1);
        }
        let t0 = Self::vts_to_tstates(vts0);
        let t1 = Self::vts_to_tstates(vts1);
        t1 - t0
    }

    /// Moves a timestamp one frame back, saturating the scan line.
    fn vts_saturating_sub_frame(vts: VideoTs) -> (r: VideoTs)
        ensures
            r.hc == vts.hc,
            r.vc as int == if vts.vc as int - Self::spec_vsl_count() >= i16::MIN {
                vts.vc as int - Self::spec_vsl_count()
            } else {
                i16::MIN as int
            },
    {
        proof {
            Self::wf();
        }
        let v = Self::vsl_count();
        let vc = if vts.vc >= i16::MIN + v {
            vts.vc - v
        } else {
            i16::MIN
        };
        VideoTs { vc, hc: vts.hc }
    }

    /// The normalized difference of two timestamps, saturating at the
    /// representable extremes.
    fn vts_saturating_sub_vts_normalized(vts0: VideoTs, vts1: VideoTs) -> (r: VideoTs)
        ensures
            ({
                let cs = Self::spec_hts_start();
                let c = Self::spec_hts_end() - Self::spec_hts_start();
                let t = fts_of(c, vts0) - fts_of(c, vts1);
                let tc = if t < min_flat_ts(cs, c) {
                    min_flat_ts(cs, c)
                } else if t > max_flat_ts(cs, c) {
                    max_flat_ts(cs, c)
                } else {
                    t
                };
                cs <= (r.hc as int) < Self::spec_hts_end() && fts_of(c, r) == tc
            }),
    {
        proof {
            Self::wf();
            lemma_fts_bound(Self::spec_hts_end() - Self::spec_hts_start(), vts0);
            lemma_fts_bound(Self::spec_hts_end() - Self::spec_hts_start(), vts1);
        }
        let t0 = Self::vts_to_tstates(vts0) as i64;
        let t1 = Self::vts_to_tstates(vts1) as i64;
        Self::clamped_tstates_to_vts(t0 - t1)
    }

    /// The normalized sum of two timestamps, saturating at the
    /// representable extremes.
    fn vts_saturating_add_vts_normalized(vts0: VideoTs, vts1: VideoTs) -> (r: VideoTs)
        ensures
            ({
                let cs = Self::spec_hts_start();
                let c = Self::spec_hts_end() - Self::spec_hts_start();
                let t = fts_of(c, vts0) + fts_of(c, vts1);
                let tc = if t < min_flat_ts(cs, c) {
                    min_flat_ts(cs, c)
                } else if t > max_flat_ts(cs, c) {
                    max_flat_ts(cs, c)
                } else {
                    t
                };
                cs <= (r.hc as int) < Self::spec_hts_end() && fts_of(c, r) == tc
            }),
    {
        proof {
            Self::wf();
            lemma_fts_bound(Self::spec_hts_end() - Self::spec_hts_start(), vts0);
            lemma_fts_bound(Self::spec_hts_end() - Self::spec_hts_start(), vts1);
        }
        let t0 = Self::vts_to_tstates(vts0) as i64;
        let t1 = Self::vts_to_tstates(vts1) as i64;
        Self::clamped_tstates_to_vts(t0 + t1)
    }

    /// Converts a flat T-state to a normalized timestamp, clamping it to
    /// the representable range first.
    fn clamped_tstates_to_vts(t: i64) -> (r: VideoTs)
        requires
            -0x1_0000_0000 <= t <= 0x1_0000_0000,
        ensures
            ({
                let cs = Self::spec_hts_start();
                let c = Self::spec_hts_end() - Self::spec_hts_start();
                let tc = if t < min_flat_ts(cs, c) {
                    min_flat_ts(cs, c)
                } else if t > max_flat_ts(cs, c) {
                    max_flat_ts(cs, c)
                } else {
                    t as int
                };
                cs <= (r.hc as int) < Self::spec_hts_end() && fts_of(c, r) == tc
            }),
    {
        proof {
            Self::wf();
            lemma_mul_bound_abs(
                i16::MIN as int,
                Self::spec_hts_end() - Self::spec_hts_start(),
                32768,
                256,
            );
            lemma_mul_bound_abs(
                i16::MAX as int,
                Self::spec_hts_end() - Self::spec_hts_start(),
                32768,
                256,
            );
        }
        let (s, _) = Self::hts_range();
        let c = Self::hts_count();
        let c64: i64 = c as i64;
        let tmin: i64 = (i16::MIN as i64) * c64 + s as i64;
        let tmax: i64 = (i16::MAX as i64) * c64 + s as i64 + c64 - 1;
        let tc: i64 = if t < tmin {
            tmin
        } else if t > tmax {
            tmax
        } else {
            t
        };
        flat_to_vts(tc, s, c)
    }

    /// The horizontal T-states at which border cells of one whole line are
    /// drawn, for the given border size.
    fn border_whole_line_hts_iter(border_size: BorderSize) -> (r: Vec<Ts>)
        ensures
            forall|i: int|
                0 <= i < r@.len() ==> r@[i] as int == Self::spec_border_hts_start() + (
                MAX_BORDER_SIZE - border_pixels(border_size)) / 2 + 4 * i,
    {
        proof {
            Self::wf();
        }
        let (bs, be) = Self::border_hts_bounds();
        let inv = (MAX_BORDER_SIZE - border_size_pixels(border_size)) / 2;
        step_positions(bs + inv, be - inv)
    }

    /// The horizontal T-states at which left border cells are drawn.
    fn border_left_hts_iter(border_size: BorderSize) -> (r: Vec<Ts>)
        ensures
            forall|i: int|
                0 <= i < r@.len() ==> r@[i] as int == Self::spec_border_hts_start() + (
                MAX_BORDER_SIZE - border_pixels(border_size)) / 2 + 4 * i,
    {
        proof {
            Self::wf();
        }
        let (bs, _) = Self::border_hts_bounds();
        let inv = (MAX_BORDER_SIZE - border_size_pixels(border_size)) / 2;
        step_positions(bs + inv, bs + 24)
    }

    /// The horizontal T-states at which right border cells are drawn.
    fn border_right_hts_iter(border_size: BorderSize) -> (r: Vec<Ts>)
        ensures
            forall|i: int|
                0 <= i < r@.len() ==> r@[i] as int == Self::spec_border_hts_end() - 24 + 4 * i,
    {
        proof {
            Self::wf();
        }
        let (_, be) = Self::border_hts_bounds();
        let inv = (MAX_BORDER_SIZE - border_size_pixels(border_size)) / 2;
        step_positions(be - 24, be - inv)
    }
}

/// Positions from `from` (inclusive) to `to` (exclusive) in steps of 4.
fn step_positions(from: Ts, to: Ts) -> (r: Vec<Ts>)
    requires
        -1024 <= from <= 1024,
        -1024 <= to <= 1024,
    ensures
        forall|i: int| 0 <= i < r@.len() ==> r@[i] as int == from + 4 * i,
        r@.len() == if to > from {
            ((to - from + 3) / 4) as int
        } else {
            0int
        },
{
    let mut r: Vec<Ts> = Vec::new();
    if from >= to {
        return r;
    }
    let mut pos: Ts = from;
    while pos < to
        invariant
            -1024 <= from <= 1024,
            -1024 <= to <= 1024,
            from < to,
            from <= pos,
            pos <= to + 3,
            (pos - from) % 4 == 0,
            forall|i: int| 0 <= i < r@.len() ==> r@[i] as int == from + 4 * i,
            r@.len() == ((pos - from) / 4) as int,
        decreases to + 4 - pos,
    {
        r.push(pos);
        pos = pos + 4;
    }
    r
}

/// 16k/48k ULA frame timings (PAL, 224 T-states a line, 312 lines).
#[derive(Clone, Copy, Default, PartialEq, Eq, Structural, Debug)]
pub struct UlaVideoFrame;

impl VideoFrame for UlaVideoFrame {
    open spec fn spec_hts_start() -> int {
        -69
    }

    open spec fn spec_hts_end() -> int {
        155
    }

    open spec fn spec_vsl_border_top() -> int {
        16
    }

    open spec fn spec_vsl_pixels_start() -> int {
        64
    }

    open spec fn spec_vsl_pixels_end() -> int {
        256
    }

    open spec fn spec_vsl_border_bot() -> int {
        304
    }

    open spec fn spec_vsl_count() -> int {
        312
    }

    open spec fn spec_cont_start() -> int {
        -1
    }

    open spec fn spec_cont_end() -> int {
        125
    }

    open spec fn spec_cont_phase() -> int {
        1
    }

    open spec fn spec_border_hts_start() -> int {
        -20
    }

    open spec fn spec_border_hts_end() -> int {
        156
    }

    proof fn wf() {
        assert(Self::spec_hts_start() == -69);
        assert(Self::spec_hts_end() == 155);
        assert(Self::spec_vsl_border_top() == 16);
        assert(Self::spec_vsl_pixels_start() == 64);
        assert(Self::spec_vsl_pixels_end() == 256);
        assert(Self::spec_vsl_border_bot() == 304);
        assert(Self::spec_vsl_count() == 312);
        assert(Self::spec_cont_start() == -1);
        assert(Self::spec_cont_end() == 125);
        assert(Self::spec_cont_phase() == 1);
        assert(Self::spec_border_hts_start() == -20);
        assert(Self::spec_border_hts_end() == 156);
    }

    fn hts_range() -> (r: (Ts, Ts)) {
        (-69, 155)
    }

    fn vsl_pixels() -> (r: (Ts, Ts)) {
        (64, 256)
    }

    fn vsl_border_top() -> (r: Ts) {
        16
    }

    fn vsl_border_bot() -> (r: Ts) {
        304
    }

    fn vsl_count() -> (r: Ts) {
        312
    }

    fn cont_window() -> (r: (Ts, Ts)) {
        (-1, 125)
    }

    fn cont_phase() -> (r: Ts) {
        1
    }

    fn border_hts_bounds() -> (r: (Ts, Ts)) {
        (-20, 156)
    }

    open spec fn spec_floating_bus_offset(hc: Ts) -> Option<u16> {
        if 0 <= hc <= 123 && (hc as u16) & 4 == 0 {
            Some(hc as u16)
        } else {
            None
        }
    }

    fn floating_bus_offset(hc: Ts) -> (r: Option<u16>) {
        if 0 <= hc && hc <= 123 {
            let c = hc as u16;
            if c & 4 == 0 {
                return Some(c);
            }
        }
        None
    }

    open spec fn spec_snow_interference_coords(vts: VideoTs) -> Option<CellCoords> {
        if 64 <= vts.vc < 256 && 2 <= vts.hc <= 125 {
            let h = (vts.hc - 2) as u16;
            let row = (vts.vc - 64) as u8;
            if h & 7 == 0 || h & 7 == 1 {
                Some(CellCoords { column: ((h >> 2) & 0x1e) as u8, row })
            } else if h & 7 == 2 || h & 7 == 3 {
                Some(CellCoords { column: (((h >> 2) & 0x1e) | 1) as u8, row })
            } else {
                None
            }
        } else {
            None
        }
    }

    proof fn snow_coords_wf(vts: VideoTs) {
        if 64 <= vts.vc < 256 && 2 <= vts.hc <= 125 {
            let h = (vts.hc - 2) as u16;
            assert(((h >> 2) & 0x1e) < 32 && (((h >> 2) & 0x1e) | 1) < 32) by (bit_vector);
        }
    }

    fn snow_interference_coords(vts: VideoTs) -> (r: Option<CellCoords>) {
        if vts.vc >= 64 && vts.vc < 256 && vts.hc >= 2 && vts.hc <= 125 {
            let row = (vts.vc - 64) as u8;
            let h = (vts.hc - 2) as u16;
            assert((h & 7 <= 7) && ((h >> 2) & 0x1e <= 0x1e) && (((h >> 2) & 0x1e) | 1 <= 0x1f))
                by (bit_vector);
            let sel = h & 7;
            if sel == 0 || sel == 1 {
                return Some(CellCoords { column: ((h >> 2) & 0x1e) as u8, row });
            }
            if sel == 2 || sel == 3 {
                return Some(CellCoords { column: (((h >> 2) & 0x1e) | 1) as u8, row });
            }
        }
        None
    }
}

/// 128k ULA frame timings (228 T-states a line, 311 lines).
#[derive(Clone, Copy, Default, PartialEq, Eq, Structural, Debug)]
pub struct Ula128VidFrame;

impl VideoFrame for Ula128VidFrame {
    open spec fn spec_hts_start() -> int {
        -73
    }

    open spec fn spec_hts_end() -> int {
        155
    }

    open spec fn spec_vsl_border_top() -> int {
        15
    }

    open spec fn spec_vsl_pixels_start() -> int {
        63
    }

    open spec fn spec_vsl_pixels_end() -> int {
        255
    }

    open spec fn spec_vsl_border_bot() -> int {
        303
    }

    open spec fn spec_vsl_count() -> int {
        311
    }

    open spec fn spec_cont_start() -> int {
        -3
    }

    open spec fn spec_cont_end() -> int {
        123
    }

    open spec fn spec_cont_phase() -> int {
        3
    }

    open spec fn spec_border_hts_start() -> int {
        -22
    }

    open spec fn spec_border_hts_end() -> int {
        154
    }

    proof fn wf() {
        assert(Self::spec_hts_start() == -73);
        assert(Self::spec_hts_end() == 155);
        assert(Self::spec_vsl_border_top() == 15);
        assert(Self::spec_vsl_pixels_start() == 63);
        assert(Self::spec_vsl_pixels_end() == 255);
        assert(Self::spec_vsl_border_bot() == 303);
        assert(Self::spec_vsl_count() == 311);
        assert(Self::spec_cont_start() == -3);
        assert(Self::spec_cont_end() == 123);
        assert(Self::spec_cont_phase() == 3);
        assert(Self::spec_border_hts_start() == -22);
        assert(Self::spec_border_hts_end() == 154);
    }

    fn hts_range() -> (r: (Ts, Ts)) {
        (-73, 155)
    }

    fn vsl_pixels() -> (r: (Ts, Ts)) {
        (63, 255)
    }

    fn vsl_border_top() -> (r: Ts) {
        15
    }

    fn vsl_border_bot() -> (r: Ts) {
        303
    }

    fn vsl_count() -> (r: Ts) {
        311
    }

    fn cont_window() -> (r: (Ts, Ts)) {
        (-3, 123)
    }

    fn cont_phase() -> (r: Ts) {
        3
    }

    fn border_hts_bounds() -> (r: (Ts, Ts)) {
        (-22, 154)
    }

    open spec fn spec_floating_bus_offset(hc: Ts) -> Option<u16> {
        if -2 <= hc <= 121 && ((hc + 2) as u16) & 4 == 0 {
            Some((hc + 2) as u16)
        } else {
            None
        }
    }

    fn floating_bus_offset(hc: Ts) -> (r: Option<u16>) {
        if hc >= -2 && hc <= 121 {
            let c = (hc + 2) as u16;
            if c & 4 == 0 {
                return Some(c);
            }
        }
        None
    }

    open spec fn spec_snow_interference_coords(vts: VideoTs) -> Option<CellCoords> {
        if 63 <= vts.vc < 255 && 0 <= vts.hc <= 122 {
            let h = vts.hc as u16;
            let row = (vts.vc - 63) as u8;
            if h & 7 == 0 {
                Some(CellCoords { column: ((h >> 2) & 0x1e) as u8, row })
            } else if h & 7 == 2 {
                Some(CellCoords { column: (((h >> 2) & 0x1e) | 1) as u8, row })
            } else {
                None
            }
        } else {
            None
        }
    }

    proof fn snow_coords_wf(vts: VideoTs) {
        if 63 <= vts.vc < 255 && 0 <= vts.hc <= 122 {
            let h = vts.hc as u16;
            assert(((h >> 2) & 0x1e) < 32 && (((h >> 2) & 0x1e) | 1) < 32) by (bit_vector);
        }
    }

    fn snow_interference_coords(vts: VideoTs) -> (r: Option<CellCoords>) {
        if vts.vc >= 63 && vts.vc < 255 && vts.hc >= 0 && vts.hc <= 122 {
            let row = (vts.vc - 63) as u8;
            let h = vts.hc as u16;
            assert((h & 7 <= 7) && ((h >> 2) & 0x1e <= 0x1e) && (((h >> 2) & 0x1e) | 1 <= 0x1f))
                by (bit_vector);
            let sel = h & 7;
            if sel == 0 {
                return Some(CellCoords { column: ((h >> 2) & 0x1e) as u8, row });
            }
            if sel == 2 {
                return Some(CellCoords { column: (((h >> 2) & 0x1e) | 1) as u8, row });
            }
        }
        None
    }
}

/// Every horizontal T-state outside the contention window passes the
/// contention function unchanged.
pub proof fn lemma_contention_outside_window<V: VideoFrame>(hc: int)
    requires
        !(V::spec_cont_start() <= hc < V::spec_cont_end()),
    ensures
        contention_delayed(V::spec_cont_start(), V::spec_cont_end(), V::spec_cont_phase(), hc)
            == hc,
{
}

/// Inside the contention window the delay is between 0 and 6 T-states, and
/// whenever the position is not on the last T-state of the variant's
/// 8-T-state pattern, the delayed position lands on the slot boundary:
/// `(contention(hc) + phase) % 8 == 6`.
pub proof fn lemma_contention_inside_window<V: VideoFrame>(hc: int)
    requires
        V::spec_cont_start() <= hc < V::spec_cont_end(),
    ensures
        ({
            let r = contention_delayed(
                V::spec_cont_start(),
                V::spec_cont_end(),
                V::spec_cont_phase(),
                hc,
            );
            hc <= r <= hc + 6 && ((hc + V::spec_cont_phase()) % 8 != 7 ==> (r
                + V::spec_cont_phase()) % 8 == 6)
        }),
{
    V::wf();
    let phase = V::spec_cont_phase();
    let ct = (hc + phase) % 8;
    lemma_fundamental_div_mod(hc + phase, 8);
    lemma_mod_bound(hc + phase, 8);
    if ct < 6 {
        let r = hc + 6 - ct;
        assert(r + phase == 8 * ((hc + phase) / 8) + 6);
        assert((8 * ((hc + phase) / 8) + 6) % 8 == 6) by {
            vstd::arithmetic::div_mod::lemma_mod_multiples_vanish((hc + phase) / 8, 6, 8);
        }
    }
}

/// Decides whether a memory address lies in a contended bank.
pub trait MemoryContention: Sized {
    /// Which addresses the variant contends.
    spec fn spec_is_contended(addr: u16) -> bool;

    /// Exec twin of [`MemoryContention::spec_is_contended`].
    fn is_contended_address(addr: u16) -> (r: bool)
        ensures
            r == Self::spec_is_contended(addr),
    ;
}

/// 16k/48k contention: the single bank at `0x4000..=0x7FFF`.
#[derive(Clone, Copy, Default, PartialEq, Eq, Structural, Debug)]
pub struct UlaMemoryContention;

impl MemoryContention for UlaMemoryContention {
    open spec fn spec_is_contended(addr: u16) -> bool {
        addr & 0xc000 == 0x4000
    }

    fn is_contended_address(addr: u16) -> (r: bool) {
        addr & 0xc000 == 0x4000
    }
}

/// 128k contention with an odd bank paged at `0xC000..=0xFFFF`: both the
/// fixed bank at `0x4000` and the paged-in top bank are contended.
#[derive(Clone, Copy, Default, PartialEq, Eq, Structural, Debug)]
pub struct Ula128MemContention;

impl MemoryContention for Ula128MemContention {
    open spec fn spec_is_contended(addr: u16) -> bool {
        addr & 0x4000 == 0x4000
    }

    fn is_contended_address(addr: u16) -> (r: bool) {
        addr & 0x4000 == 0x4000
    }
}

/// Any timestamp's flat T-state stays within eight and a half million.
pub proof fn lemma_fts_range<V: VideoFrame>(vts: VideoTs)
    ensures
        -8421376 <= fts_of(V::spec_hts_end() - V::spec_hts_start(), vts) <= 8421376,
{
    V::wf();
    lemma_fts_bound(V::spec_hts_end() - V::spec_hts_start(), vts);
}

/// On normalized timestamps the timestamp order is the flat T-state
/// order.
pub proof fn lemma_fts_lt_of_vts_lt<V: VideoFrame>(a: VideoTs, b: VideoTs)
    requires
        crate::clock::vts_lt(a, b),
        V::spec_hts_start() <= a.hc < V::spec_hts_end(),
        V::spec_hts_start() <= b.hc < V::spec_hts_end(),
    ensures
        fts_of(V::spec_hts_end() - V::spec_hts_start(), a) < fts_of(
            V::spec_hts_end() - V::spec_hts_start(),
            b,
        ),
{
    V::wf();
    let c = V::spec_hts_end() - V::spec_hts_start();
    if a.vc < b.vc {
        assert(a.vc * c + c <= b.vc * c) by (nonlinear_arith)
            requires
                a.vc < b.vc,
                c > 0,
        ;
    }
}

/// The converse: a smaller flat T-state means an earlier normalized
/// timestamp.
pub proof fn lemma_vts_lt_of_fts_lt<V: VideoFrame>(a: VideoTs, b: VideoTs)
    requires
        fts_of(V::spec_hts_end() - V::spec_hts_start(), a) < fts_of(
            V::spec_hts_end() - V::spec_hts_start(),
            b,
        ),
        V::spec_hts_start() <= a.hc < V::spec_hts_end(),
        V::spec_hts_start() <= b.hc < V::spec_hts_end(),
    ensures
        crate::clock::vts_lt(a, b),
{
    V::wf();
    let c = V::spec_hts_end() - V::spec_hts_start();
    if !crate::clock::vts_lt(a, b) {
        if crate::clock::vts_lt(b, a) {
            lemma_fts_lt_of_vts_lt::<V>(b, a);
        }
    }
}

} // verus!

