//! The video side of the ULA: the border-change log, the mid-frame
//! screen-write cache, snow interference, and handing one frame's video
//! data to the renderer.

use vstd::prelude::*;

use crate::clock::{Ts, VideoTs, VideoTsData3, vts_le};
use crate::memory::SCREEN_SIZE;
use crate::video::{BorderSize, MemoryContention, UlaMemoryContention, VideoFrame};
use super::frame_cache::{color_address_coords, pixel_address_coords, UlaFrameCache};
use super::Ula;

verus! {

/// One frame's video data, ready to be painted: the screen bytes, the
/// mid-frame write cache, the border color at frame start and its
/// timestamped changes, and the flash phase. The 128k variant adds the
/// shadow screen and the timestamped screen swaps.
#[derive(Debug)]
pub struct Renderer {
    /// The screen bytes in force at frame end.
    pub screen: Vec<u8>,
    /// The mid-frame screen writes.
    pub frame_cache: UlaFrameCache,
    /// The border color at frame start.
    pub border: u8,
    /// The requested border width.
    pub border_size: BorderSize,
    /// The border changes of the frame, in timestamp order.
    pub border_changes: Vec<VideoTsData3>,
    /// Whether flashing cells show inverted this frame.
    pub invert_flash: bool,
    /// The shadow screen and its write cache, on a 128k machine.
    pub shadow: Option<(Vec<u8>, UlaFrameCache)>,
    /// Whether the shadow screen was selected at frame start.
    pub swap_screens: bool,
    /// The timestamps at which the screens were swapped mid-frame.
    pub screen_changes: Vec<VideoTs>,
}

impl<B, V: VideoFrame> Ula<B, V> {
    /// The current border color.
    pub fn border_color(&self) -> (r: u8)
        ensures
            r == self.last_border,
    {
        self.last_border
    }

    /// Changes the border color, recording the change and its timestamp
    /// in the border log; the log stays ordered.
    pub fn set_border_color(&mut self, border: u8)
        requires
            old(self).wf(),
            border < 8,
            old(self).border_out_changes@.len() > 0 ==> vts_le(
                old(self).border_out_changes@.last().vts,
                old(self).tsc,
            ),
        ensures
            final(self).wf(),
            old(self).last_border == border ==> *final(self) == *old(self),
            old(self).last_border != border ==> final(self).border_out_changes@ == old(self).border_out_changes@.push(VideoTsData3 { vts: old(self).tsc, data: border }) && *final(self) == (Ula {
                last_border: border,
                border_out_changes: final(self).border_out_changes,
                ..*old(self)
            }),
    {
        if self.last_border != border {
            let entry = VideoTsData3::new(self.tsc, border);
            proof {
                assert(border & 7 == border) by (bit_vector)
                    requires
                        border < 8,
                ;
                super::lemma_log_push(old(self).border_out_changes@, entry);
            }
            self.border_out_changes.push(entry);
            self.last_border = border;
            proof {
                let s = self.border_out_changes@;
                let olds = old(self).border_out_changes@;
                assert(old(self).wf());
                assert forall|i: int|
                    0 <= i < s.len() implies ((#[trigger] s[i]).data < 8 && s[i].vts.vc >= 0) by {
                    if i < s.len() - 1 {
                        assert(olds[i].data < 8 && olds[i].vts.vc >= 0);
                    } else {
                        assert(s[i] == entry);
                    }
                }
            }
        }
    }

    /// Records a memory write landing in the screen area in the frame
    /// cache, so the renderer can paint it at the right scan line.
    pub fn update_frame_cache(&mut self, addr: u16, ts: VideoTs)
        requires
            old(self).wf(),
        ensures
            final(self).wf(),
            *final(self) == (Ula { frame_cache: final(self).frame_cache, ..*old(self) }),
            0x4000 <= addr <= 0x57ff ==> final(self).frame_cache.pixels@ == old(self).frame_cache.pixels@.update(
                super::frame_cache::spec_pixel_address_coords(addr).row * 32
                    + super::frame_cache::spec_pixel_address_coords(addr).column,
                Some((ts.vc, old(self).memory.mem@[addr as int])),
            ) && final(self).frame_cache.colors@ == old(self).frame_cache.colors@,
            0x5800 <= addr <= 0x5aff ==> final(self).frame_cache.colors@ == old(self).frame_cache.colors@.update(
                super::frame_cache::spec_color_address_coords(addr).row * 32
                    + super::frame_cache::spec_color_address_coords(addr).column,
                Some((ts.vc, old(self).memory.mem@[addr as int])),
            ) && final(self).frame_cache.pixels@ == old(self).frame_cache.pixels@,
            !(0x4000 <= addr <= 0x5aff) ==> *final(self) == *old(self),
    {
        if 0x4000 <= addr && addr <= 0x57ff {
            let coords = pixel_address_coords(addr);
            let value = self.memory.read(addr);
            self.frame_cache.update_frame_pixels(coords, value, ts.vc);
        } else if 0x5800 <= addr && addr <= 0x5aff {
            let coords = color_address_coords(addr);
            let value = self.memory.read(addr);
            self.frame_cache.update_frame_colors(coords, value, ts.vc);
        }
    }

    /// When a contended instruction fetch collides with the pixel fetch,
    /// smears the affected attribute cell with the refresh-derived byte.
    pub fn update_snow_interference(&mut self, ts: VideoTs, ir: u16)
        requires
            old(self).wf(),
        ensures
            final(self).wf(),
            *final(self) == (Ula { frame_cache: final(self).frame_cache, ..*old(self) }),
            !(UlaMemoryContention::spec_is_contended(ir)
                && V::spec_snow_interference_coords(ts) is Some) ==> *final(self) == *old(self),
            UlaMemoryContention::spec_is_contended(ir) ==> (
            V::spec_snow_interference_coords(ts) matches Some(c) ==> final(self).frame_cache.colors@ == old(self).frame_cache.colors@.update(
                (c.row / 8) * 32 + c.column,
                Some(((c.row + 64) as Ts, (ir & 0xff) as u8)),
            ) && final(self).frame_cache.pixels@ == old(self).frame_cache.pixels@),
    {
        if UlaMemoryContention::is_contended_address(ir) {
            if let Some(coords) = V::snow_interference_coords(ts) {
                proof {
                    V::snow_coords_wf(ts);
                    assert(ir as u8 == (ir & 0xff) as u8) by (bit_vector);
                }
                self.frame_cache.apply_snow_interference(coords, (ir & 0xff) as u8);
            }
        }
    }

    /// Resets the video state at frame end: the border log is drained
    /// and the frame cache cleared; the running border color becomes the
    /// new frame's starting color.
    pub fn cleanup_video_frame_data(&mut self)
        requires
            old(self).wf(),
        ensures
            final(self).wf(),
            final(self).border == old(self).last_border,
            final(self).border_out_changes@.len() == 0,
            forall|i: int| 0 <= i < 6144 ==> final(self).frame_cache.pixels@[i] is None,
            forall|i: int| 0 <= i < 768 ==> final(self).frame_cache.colors@[i] is None,
            *final(self) == (Ula {
                border: old(self).last_border,
                border_out_changes: final(self).border_out_changes,
                frame_cache: final(self).frame_cache,
                ..*old(self)
            }),
    {
        self.border = self.last_border;
        self.border_out_changes.clear();
        self.frame_cache.clear();
    }

    /// Takes this frame's video data for painting: the screen bytes and
    /// write cache, the starting border with the drained border changes,
    /// and the flash phase derived from the frame counter.
    pub fn create_renderer(&mut self, border_size: BorderSize) -> (r: Renderer)
        requires
            old(self).wf(),
        ensures
            final(self).wf(),
            r.border == old(self).border,
            r.border_size == border_size,
            r.border_changes@ == old(self).border_out_changes@,
            r.invert_flash == (old(self).frames & 16 != 0),
            r.screen@.len() == SCREEN_SIZE,
            forall|i: int|
                0 <= i < SCREEN_SIZE ==> r.screen@[i] == old(self).memory.mem@[0x4000 + i],
            r.frame_cache.pixels@ == old(self).frame_cache.pixels@,
            r.frame_cache.colors@ == old(self).frame_cache.colors@,
            r.shadow is None,
            final(self).border_out_changes@.len() == 0,
            *final(self) == (Ula {
                border_out_changes: final(self).border_out_changes,
                ..*old(self)
            }),
    {
        let screen = self.memory.screen_copy();
        let frame_cache = self.frame_cache.duplicate();
        let mut border_changes: Vec<VideoTsData3> = Vec::new();
        let n = self.border_out_changes.len();
        let mut i: usize = 0;
        while i < n
            invariant
                i <= n,
                n == self.border_out_changes@.len(),
                border_changes@.len() == i,
                forall|j: int| 0 <= j < i ==> border_changes@[j] == self.border_out_changes@[j],
            decreases n - i,
        {
            border_changes.push(self.border_out_changes[i]);
            i = i + 1;
        }
        proof {
            assert(border_changes@ =~= self.border_out_changes@);
        }
        self.border_out_changes.clear();
        let invert_flash = self.frames & 16 != 0;
        Renderer {
            screen,
            frame_cache,
            border: self.border,
            border_size,
            border_changes,
            invert_flash,
            shadow: None,
            swap_screens: false,
            screen_changes: Vec::new(),
        }
    }
}

} // verus!
