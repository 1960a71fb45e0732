//! The per-frame screen cache: for each 8x1 pixel cell, at which scan
//! line its pixel byte or attribute byte was last written mid-frame, and
//! with what value, so the renderer can show the write at the correct
//! vertical position.

use vstd::prelude::*;

use crate::clock::Ts;
use crate::video::CellCoords;

verus! {

/// Pixel cell columns of one line.
pub const CELL_COLUMNS: usize = 32;

/// Pixel cell lines of one screen.
pub const PIXEL_LINES: usize = 192;

/// Attribute cell lines of one screen.
pub const ATTR_LINES: usize = 24;

/// The coordinates of the pixel cell a screen byte address maps to.
pub open spec fn spec_pixel_address_coords(addr: u16) -> CellCoords {
    CellCoords {
        column: (addr & 0x1f) as u8,
        row: ((((addr >> 11) & 3) << 6) | (((addr >> 5) & 7) << 3) | ((addr >> 8) & 7)) as u8,
    }
}

/// Exec twin of [`spec_pixel_address_coords`].
pub fn pixel_address_coords(addr: u16) -> (r: CellCoords)
    ensures
        r == spec_pixel_address_coords(addr),
        0x4000 <= addr <= 0x57ff ==> r.row < 192,
        0xc000 <= addr <= 0xd7ff ==> r.row < 192,
        r.column < 32,
{
    proof {
        assert((addr & 0x1f) < 32) by (bit_vector);
        assert(((((addr >> 11) & 3) << 6) | (((addr >> 5) & 7) << 3) | ((addr >> 8) & 7)) < 256)
            by (bit_vector);
        assert((0x4000 <= addr && addr <= 0x57ff) ==> ((((addr >> 11) & 3) << 6) | (((addr >> 5)
            & 7) << 3) | ((addr >> 8) & 7)) < 192) by (bit_vector);
        assert((0xc000 <= addr && addr <= 0xd7ff) ==> ((((addr >> 11) & 3) << 6) | (((addr >> 5)
            & 7) << 3) | ((addr >> 8) & 7)) < 192) by (bit_vector);
    }
    let column = (addr & 0x1f) as u8;
    let row = ((((addr >> 11) & 3) << 6) | (((addr >> 5) & 7) << 3) | ((addr >> 8) & 7)) as u8;
    CellCoords { column, row }
}

/// The coordinates of the attribute cell an attribute byte address maps
/// to.
pub open spec fn spec_color_address_coords(addr: u16) -> CellCoords {
    CellCoords { column: (addr & 0x1f) as u8, row: (((addr >> 5) & 0x1f) % 24) as u8 }
}

/// Exec twin of [`spec_color_address_coords`]; addresses within the
/// attribute area map onto rows 0 to 23 directly.
pub fn color_address_coords(addr: u16) -> (r: CellCoords)
    ensures
        r == spec_color_address_coords(addr),
        r.column < 32,
        r.row < 24,
{
    proof {
        assert((addr & 0x1f) < 32 && ((addr >> 5) & 0x1f) < 32) by (bit_vector);
    }
    let column = (addr & 0x1f) as u8;
    let row = (((addr >> 5) & 0x1f) % 24) as u8;
    CellCoords { column, row }
}

/// One frame's mid-frame screen writes: per pixel cell and per attribute
/// cell, the scan line of the latest write and the written byte.
#[derive(PartialEq, Eq, Debug)]
pub struct UlaFrameCache {
    /// Latest mid-frame write per pixel cell, row-major 192 x 32.
    pub pixels: Vec<Option<(Ts, u8)>>,
    /// Latest mid-frame write per attribute cell, row-major 24 x 32.
    pub colors: Vec<Option<(Ts, u8)>>,
}

impl UlaFrameCache {
    /// Both grids hold one entry per cell.
    pub open spec fn wf(self) -> bool {
        self.pixels@.len() == 6144 && self.colors@.len() == 768
    }

    /// An empty cache: no cell written yet.
    pub fn new() -> (r: Self)
        ensures
            r.wf(),
            forall|i: int| 0 <= i < 6144 ==> r.pixels@[i] is None,
            forall|i: int| 0 <= i < 768 ==> r.colors@[i] is None,
    {
        let mut pixels: Vec<Option<(Ts, u8)>> = Vec::new();
        let mut i: usize = 0;
        while i < 6144
            invariant
                i <= 6144,
                pixels@.len() == i,
                forall|j: int| 0 <= j < i ==> pixels@[j] is None,
            decreases 6144 - i,
        {
            pixels.push(None);
            i = i + 1;
        }
        let mut colors: Vec<Option<(Ts, u8)>> = Vec::new();
        let mut k: usize = 0;
        while k < 768
            invariant
                k <= 768,
                colors@.len() == k,
                forall|j: int| 0 <= j < k ==> colors@[j] is None,
            decreases 768 - k,
        {
            colors.push(None);
            k = k + 1;
        }
        UlaFrameCache { pixels, colors }
    }

    /// Forgets all writes at the end of a frame.
    pub fn clear(&mut self)
        ensures
            final(self).wf(),
            forall|i: int| 0 <= i < 6144 ==> final(self).pixels@[i] is None,
            forall|i: int| 0 <= i < 768 ==> final(self).colors@[i] is None,
    {
        *self = UlaFrameCache::new();
    }

    /// Records a pixel-byte write of `value` at the cell, during scan
    /// line `vc`.
    pub fn update_frame_pixels(&mut self, coords: CellCoords, value: u8, vc: Ts)
        requires
            old(self).wf(),
            coords.row < 192,
            coords.column < 32,
        ensures
            final(self).wf(),
            final(self).pixels@ == old(self).pixels@.update(
                coords.row * 32 + coords.column,
                Some((vc, value)),
            ),
            final(self).colors@ == old(self).colors@,
    {
        let idx: usize = (coords.row as usize) * 32 + coords.column as usize;
        self.pixels[idx] = Some((vc, value));
    }

    /// Records an attribute-byte write of `value` at the cell, during
    /// scan line `vc`.
    pub fn update_frame_colors(&mut self, coords: CellCoords, value: u8, vc: Ts)
        requires
            old(self).wf(),
            coords.row < 24,
            coords.column < 32,
        ensures
            final(self).wf(),
            final(self).colors@ == old(self).colors@.update(
                coords.row * 32 + coords.column,
                Some((vc, value)),
            ),
            final(self).pixels@ == old(self).pixels@,
    {
        let idx: usize = (coords.row as usize) * 32 + coords.column as usize;
        self.colors[idx] = Some((vc, value));
    }

    /// Smears the attribute cell over the pixel cell coordinates with
    /// the snow byte: the corruption a contended instruction fetch
    /// leaves when it collides with the attribute fetch.
    pub fn apply_snow_interference(&mut self, coords: CellCoords, snow: u8)
        requires
            old(self).wf(),
            coords.row < 192,
            coords.column < 32,
        ensures
            final(self).wf(),
            final(self).colors@ == old(self).colors@.update(
                (coords.row / 8) * 32 + coords.column,
                Some(((coords.row + 64) as Ts, snow)),
            ),
            final(self).pixels@ == old(self).pixels@,
    {
        let idx: usize = (coords.row as usize / 8) * 32 + coords.column as usize;
        self.colors[idx] = Some(((coords.row as Ts) + 64, snow));
    }

    /// An identical copy of the cache.
    pub fn duplicate(&self) -> (r: Self)
        ensures
            r.pixels@ == self.pixels@,
            r.colors@ == self.colors@,
    {
        let mut pixels: Vec<Option<(Ts, u8)>> = Vec::new();
        let n = self.pixels.len();
        let mut i: usize = 0;
        while i < n
            invariant
                i <= n,
                n == self.pixels@.len(),
                pixels@.len() == i,
                forall|j: int| 0 <= j < i ==> pixels@[j] == self.pixels@[j],
            decreases n - i,
        {
            pixels.push(self.pixels[i]);
            i = i + 1;
        }
        let mut colors: Vec<Option<(Ts, u8)>> = Vec::new();
        let m = self.colors.len();
        let mut k: usize = 0;
        while k < m
            invariant
                k <= m,
                m == self.colors@.len(),
                colors@.len() == k,
                forall|j: int| 0 <= j < k ==> colors@[j] == self.colors@[j],
            decreases m - k,
        {
            colors.push(self.colors[k]);
            k = k + 1;
        }
        proof {
            assert(pixels@ =~= self.pixels@);
            assert(colors@ =~= self.colors@);
        }
        UlaFrameCache { pixels, colors }
    }
}

impl Default for UlaFrameCache {
    fn default() -> (r: Self)
        ensures
            r.wf(),
    {
        UlaFrameCache::new()
    }
}

} // verus!
