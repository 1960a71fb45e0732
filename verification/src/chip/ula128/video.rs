//! The video side of the 128k ULA: screen writes may land in either
//! screen through the paging at `0xC000`, snow interference follows the
//! paged-in contention, and the renderer receives both screens.

use vstd::prelude::*;

use crate::clock::{Ts, VideoTs, VideoTsData3, vts_le};
use crate::chip::ula::frame_cache::{color_address_coords, pixel_address_coords};
use crate::chip::ula::video::Renderer;
use crate::video::{
    BorderSize, MemoryContention, Ula128MemContention, Ula128VidFrame, UlaMemoryContention,
    VideoFrame,
};
use super::Ula128;

verus! {

/// The row-major pixel-grid index of a screen byte address.
pub open spec fn frame_cache_pixel_index(addr: u16) -> int {
    let coords = crate::chip::ula::frame_cache::spec_pixel_address_coords(addr);
    coords.row * 32 + coords.column
}

/// The row-major attribute-grid index of an attribute byte address.
pub open spec fn frame_cache_color_index(addr: u16) -> int {
    let coords = crate::chip::ula::frame_cache::spec_color_address_coords(addr);
    coords.row * 32 + coords.column
}

impl<B> Ula128<B> {
    /// The current border color.
    pub fn border_color(&self) -> (r: u8)
        ensures
            r == self.ula.last_border,
    {
        self.ula.border_color()
    }

    /// Changes the border color, recording the change in the border
    /// log.
    pub fn set_border_color(&mut self, border: u8)
        requires
            old(self).wf(),
            border < 8,
            old(self).ula.border_out_changes@.len() > 0 ==> vts_le(
                old(self).ula.border_out_changes@.last().vts,
                old(self).ula.tsc,
            ),
        ensures
            final(self).wf(),
            old(self).ula.last_border == border ==> *final(self) == *old(self),
            old(self).ula.last_border != border ==> final(self).ula.border_out_changes@ == old(self).ula.border_out_changes@.push(
                VideoTsData3 { vts: old(self).ula.tsc, data: border },
            ) && final(self).ula == (crate::chip::ula::Ula {
                last_border: border,
                border_out_changes: final(self).ula.border_out_changes,
                ..old(self).ula
            }) && *final(self) == (Ula128 { ula: final(self).ula, ..*old(self) }),
    {
        self.ula.set_border_color(border);
    }

    /// Records a memory write landing in either screen in the right
    /// frame cache: the normal screen area directly, the `0xC000`
    /// window through the paging (bank 5 the normal screen, bank 7 the
    /// shadow screen, any other bank no screen at all).
    pub fn update_frame_cache(&mut self, addr: u16, ts: VideoTs)
        requires
            old(self).wf(),
        ensures
            final(self).wf(),
            final(self).ula.memory == old(self).ula.memory,
            final(self).cur_screen_shadow == old(self).cur_screen_shadow,
            final(self).mem_page3_bank == old(self).mem_page3_bank,
            !(0x4000 <= addr <= 0x5aff) && !(0xc000 <= addr <= 0xdaff) ==> *final(self) == *old(self),
            0xc000 <= addr <= 0xdaff && old(self).mem_page3_bank != 5 && old(self).mem_page3_bank
                != 7 ==> *final(self) == *old(self),
            0x4000 <= addr <= 0x57ff ==> final(self).ula.frame_cache.pixels@ == old(self).ula.frame_cache.pixels@.update(
                frame_cache_pixel_index(addr),
                Some((ts.vc, old(self).ula.memory.mem@[addr as int])),
            ) && final(self).ula.frame_cache.colors@ == old(self).ula.frame_cache.colors@ && final(self).shadow_frame_cache == old(self).shadow_frame_cache,
            0x5800 <= addr <= 0x5aff ==> final(self).ula.frame_cache.colors@ == old(self).ula.frame_cache.colors@.update(
                frame_cache_color_index(addr),
                Some((ts.vc, old(self).ula.memory.mem@[addr as int])),
            ) && final(self).ula.frame_cache.pixels@ == old(self).ula.frame_cache.pixels@ && final(self).shadow_frame_cache == old(self).shadow_frame_cache,
            0xc000 <= addr <= 0xd7ff && old(self).mem_page3_bank == 5 ==> final(self).ula.frame_cache.pixels@ == old(self).ula.frame_cache.pixels@.update(
                frame_cache_pixel_index(addr),
                Some((ts.vc, old(self).ula.memory.mem@[addr as int])),
            ) && final(self).ula.frame_cache.colors@ == old(self).ula.frame_cache.colors@ && final(self).shadow_frame_cache == old(self).shadow_frame_cache,
            0xd800 <= addr <= 0xdaff && old(self).mem_page3_bank == 5 ==> final(self).ula.frame_cache.colors@ == old(self).ula.frame_cache.colors@.update(
                frame_cache_color_index(addr),
                Some((ts.vc, old(self).ula.memory.mem@[addr as int])),
            ) && final(self).ula.frame_cache.pixels@ == old(self).ula.frame_cache.pixels@ && final(self).shadow_frame_cache == old(self).shadow_frame_cache,
            0xc000 <= addr <= 0xd7ff && old(self).mem_page3_bank == 7 ==> final(self).shadow_frame_cache.pixels@ == old(self).shadow_frame_cache.pixels@.update(
                frame_cache_pixel_index(addr),
                Some((ts.vc, old(self).ula.memory.mem@[addr as int])),
            ) && final(self).shadow_frame_cache.colors@ == old(self).shadow_frame_cache.colors@
                && final(self).ula.frame_cache == old(self).ula.frame_cache,
            0xd800 <= addr <= 0xdaff && old(self).mem_page3_bank == 7 ==> final(self).shadow_frame_cache.colors@ == old(self).shadow_frame_cache.colors@.update(
                frame_cache_color_index(addr),
                Some((ts.vc, old(self).ula.memory.mem@[addr as int])),
            ) && final(self).shadow_frame_cache.pixels@ == old(self).shadow_frame_cache.pixels@
                && final(self).ula.frame_cache == old(self).ula.frame_cache,
    {
        proof {
            assert((0x4000 <= addr && addr <= 0x5aff) ==> ((addr <= 0x57ff) == (addr & 0x1800
                != 0x1800))) by (bit_vector);
            assert((0xc000 <= addr && addr <= 0xdaff) ==> ((addr <= 0xd7ff) == (addr & 0x1800
                != 0x1800))) by (bit_vector);
        }
        let to_shadow: bool;
        if 0x4000 <= addr && addr <= 0x5aff {
            to_shadow = false;
        } else if 0xc000 <= addr && addr <= 0xdaff {
            match self.page3_screen_shadow_bank() {
                Some(shadow) => {
                    to_shadow = shadow;
                },
                None => {
                    return ;
                },
            }
        } else {
            return ;
        }
        if addr & 0x1800 != 0x1800 {
            let coords = pixel_address_coords(addr);
            proof {
                assert((0x4000 <= addr && addr <= 0x5aff && addr & 0x1800 != 0x1800) ==> (0x4000
                    <= addr && addr <= 0x57ff)) by (bit_vector);
                assert((0xc000 <= addr && addr <= 0xdaff && addr & 0x1800 != 0x1800) ==> (0xc000
                    <= addr && addr <= 0xd7ff)) by (bit_vector);
            }
            let value = self.ula.memory.read(addr);
            if to_shadow {
                self.shadow_frame_cache.update_frame_pixels(coords, value, ts.vc);
            } else {
                self.ula.frame_cache.update_frame_pixels(coords, value, ts.vc);
            }
        } else {
            let coords = color_address_coords(addr);
            let value = self.ula.memory.read(addr);
            if to_shadow {
                self.shadow_frame_cache.update_frame_colors(coords, value, ts.vc);
            } else {
                self.ula.frame_cache.update_frame_colors(coords, value, ts.vc);
            }
        }
    }

    /// When a contended instruction fetch collides with the pixel
    /// fetch, smears the affected attribute cell of the screen shown
    /// right now; whether the fetch was contended follows the paged-in
    /// bank.
    pub fn update_snow_interference(&mut self, ts: VideoTs, ir: u16)
        requires
            old(self).wf(),
        ensures
            final(self).wf(),
            final(self).ula.memory == old(self).ula.memory,
            Ula128VidFrame::spec_snow_interference_coords(ts) is None ==> *final(self) == *old(self),
    {
        let is_contended = if self.is_page3_contended() {
            Ula128MemContention::is_contended_address(ir)
        } else {
            UlaMemoryContention::is_contended_address(ir)
        };
        if is_contended {
            if let Some(coords) = Ula128VidFrame::snow_interference_coords(ts) {
                if coords.row < 192 && coords.column < 32 {
                    proof {
                        assert(ir as u8 == (ir & 0xff) as u8) by (bit_vector);
                    }
                    if self.cur_screen_shadow {
                        self.shadow_frame_cache.apply_snow_interference(coords, (ir & 0xff) as u8);
                    } else {
                        self.ula.frame_cache.apply_snow_interference(coords, (ir & 0xff) as u8);
                    }
                }
            }
        }
    }

    /// Takes this frame's video data for painting: both screens and
    /// their caches, the screen-swap timestamps, the border data and
    /// the flash phase.
    pub fn create_renderer(&mut self, border_size: BorderSize) -> (r: Renderer)
        requires
            old(self).wf(),
        ensures
            final(self).wf(),
            r.border == old(self).ula.border,
            r.border_size == border_size,
            r.border_changes@ == old(self).ula.border_out_changes@,
            r.invert_flash == (old(self).ula.frames & 16 != 0),
            r.swap_screens == old(self).beg_screen_shadow,
            r.screen@.len() == crate::memory::SCREEN_SIZE,
            forall|i: int|
                0 <= i < crate::memory::SCREEN_SIZE ==> r.screen@[i] == old(self).ula.memory.mem@[0x4000 + i],
            r.frame_cache.pixels@ == old(self).ula.frame_cache.pixels@,
            r.frame_cache.colors@ == old(self).ula.frame_cache.colors@,
            (r.shadow matches Some((scr, cache)) && scr@ == old(self).shadow_screen@
                && cache.pixels@ == old(self).shadow_frame_cache.pixels@ && cache.colors@ == old(self).shadow_frame_cache.colors@),
            r.screen_changes@ == old(self).screen_changes@,
            final(self).ula.border_out_changes@.len() == 0,
            final(self).screen_changes@.len() == 0,
    {
        let swap_screens = self.beg_screen_shadow;
        let renderer = self.ula.create_renderer(border_size);
        let shadow_screen_copy = copy_bytes(&self.shadow_screen);
        let shadow_cache = self.shadow_frame_cache.duplicate();
        let mut screen_changes: Vec<VideoTs> = Vec::new();
        let n = self.screen_changes.len();
        let mut i: usize = 0;
        while i < n
            invariant
                i <= n,
                n == self.screen_changes@.len(),
                screen_changes@.len() == i,
                forall|j: int| 0 <= j < i ==> screen_changes@[j] == self.screen_changes@[j],
            decreases n - i,
        {
            screen_changes.push(self.screen_changes[i]);
            i = i + 1;
        }
        proof {
            assert(screen_changes@ =~= self.screen_changes@);
        }
        self.screen_changes.clear();
        Renderer {
            screen: renderer.screen,
            frame_cache: renderer.frame_cache,
            border: renderer.border,
            border_size: renderer.border_size,
            border_changes: renderer.border_changes,
            invert_flash: renderer.invert_flash,
            shadow: Some((shadow_screen_copy, shadow_cache)),
            swap_screens,
            screen_changes,
        }
    }
}

/// An identical copy of a byte vector.
fn copy_bytes(src: &Vec<u8>) -> (r: Vec<u8>)
    ensures
        r@ == src@,
{
    let mut r: Vec<u8> = Vec::new();
    let n = src.len();
    let mut i: usize = 0;
    while i < n
        invariant
            i <= n,
            n == src@.len(),
            r@.len() == i,
            forall|j: int| 0 <= j < i ==> r@[j] == src@[j],
        decreases n - i,
    {
        r.push(src[i]);
        i = i + 1;
    }
    proof {
        assert(r@ =~= src@);
    }
    r
}

} // verus!
