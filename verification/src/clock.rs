//! Video timestamps and the packed per-frame log entry types.
//!
//! A video timestamp counts time in single T-states, as a pair of a scan-line
//! index `vc` and a horizontal T-state `hc` within the line.

use vstd::prelude::*;

verus! {

/// A signed coordinate of a video timestamp: a scan line or a horizontal T-state.
pub type Ts = i16;

/// A frame T-state: a flat count of T-states from the frame origin.
pub type FTs = i32;

/// A video timestamp: the scan-line index `vc` and the horizontal T-state `hc`.
#[derive(Clone, Copy, PartialEq, Eq, Structural, Debug, Default)]
pub struct VideoTs {
    pub vc: Ts,
    pub hc: Ts,
}

impl VideoTs {
    pub fn new(vc: Ts, hc: Ts) -> (r: VideoTs)
        ensures
            r.vc == vc,
            r.hc == hc,
    {
        VideoTs { vc, hc }
    }
}

/// Lexicographic order of two video timestamps: first by scan line, then by
/// horizontal T-state. Normalized timestamps compare like their flat T-states.
pub open spec fn vts_le(a: VideoTs, b: VideoTs) -> bool {
    a.vc < b.vc || (a.vc == b.vc && a.hc <= b.hc)
}

/// Strict version of [`vts_le`].
pub open spec fn vts_lt(a: VideoTs, b: VideoTs) -> bool {
    a.vc < b.vc || (a.vc == b.vc && a.hc < b.hc)
}

/// Compares two video timestamps in the order of [`vts_le`].
pub fn vts_leq(a: VideoTs, b: VideoTs) -> (r: bool)
    ensures
        r == vts_le(a, b),
{
    a.vc < b.vc || (a.vc == b.vc && a.hc <= b.hc)
}

/// Compares two video timestamps in the order of [`vts_lt`].
pub fn vts_less(a: VideoTs, b: VideoTs) -> (r: bool)
    ensures
        r == vts_lt(a, b),
{
    a.vc < b.vc || (a.vc == b.vc && a.hc < b.hc)
}

/// A video timestamp paired with a 3-bit payload: a border color change.
#[derive(Clone, Copy, PartialEq, Eq, Structural, Debug)]
pub struct VideoTsData3 {
    pub vts: VideoTs,
    pub data: u8,
}

impl VideoTsData3 {
    /// Packs a timestamp with a payload, keeping the payload's low 3 bits.
    pub fn new(vts: VideoTs, data: u8) -> (r: VideoTsData3)
        ensures
            r.vts == vts,
            r.data == data & 7,
            r.data < 8,
    {
        proof {
            assert(data & 7 < 8) by (bit_vector);
        }
        VideoTsData3 { vts, data: data & 7 }
    }

    pub fn into_data(self) -> (r: u8)
        ensures
            r == self.data,
    {
        self.data
    }
}

/// A video timestamp paired with a 2-bit payload: an EAR/MIC output change.
#[derive(Clone, Copy, PartialEq, Eq, Structural, Debug)]
pub struct VideoTsData2 {
    pub vts: VideoTs,
    pub data: u8,
}

impl VideoTsData2 {
    /// Packs a timestamp with a payload, keeping the payload's low 2 bits.
    pub fn new(vts: VideoTs, data: u8) -> (r: VideoTsData2)
        ensures
            r.vts == vts,
            r.data == data & 3,
            r.data < 4,
    {
        proof {
            assert(data & 3 < 4) by (bit_vector);
        }
        VideoTsData2 { vts, data: data & 3 }
    }

    pub fn into_data(self) -> (r: u8)
        ensures
            r == self.data,
    {
        self.data
    }
}

/// A video timestamp paired with a 1-bit payload: an EAR input change.
#[derive(Clone, Copy, PartialEq, Eq, Structural, Debug)]
pub struct VideoTsData1 {
    pub vts: VideoTs,
    pub data: u8,
}

impl VideoTsData1 {
    /// Packs a timestamp with a payload, keeping the payload's low bit.
    pub fn new(vts: VideoTs, data: u8) -> (r: VideoTsData1)
        ensures
            r.vts == vts,
            r.data == data & 1,
            r.data < 2,
    {
        proof {
            assert(data & 1 < 2) by (bit_vector);
        }
        VideoTsData1 { vts, data: data & 1 }
    }

    pub fn into_data(self) -> (r: u8)
        ensures
            r == self.data,
    {
        self.data
    }

    pub fn set_data(&mut self, data: u8)
        ensures
            final(self).vts == old(self).vts,
            final(self).data == data & 1,
    {
        self.data = data & 1;
    }
}

} // verus!
