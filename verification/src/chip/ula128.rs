//! The 128k model: the base ULA plus a shadow screen, screen paging and
//! the wider contention of the paged-in banks.

pub mod video;

use vstd::prelude::*;

use crate::bus::BusDevice;
use crate::chip::ula::frame_cache::UlaFrameCache;
use crate::chip::ula::Ula;
use crate::clock::VideoTs;
use crate::memory::SCREEN_SIZE;
use crate::video::Ula128VidFrame;

verus! {

/// The ZX Spectrum 128k chipset state: the base ULA driven by the 128k
/// frame timings, the shadow screen with its own write cache, and the
/// memory-paging bits the video and contention logic depends on.
#[derive(Debug)]
pub struct Ula128<B> {
    /// The base ULA.
    pub ula: Ula<B, Ula128VidFrame>,
    /// Mid-frame writes to the shadow screen.
    pub shadow_frame_cache: UlaFrameCache,
    /// The shadow screen bytes (RAM bank 7).
    pub shadow_screen: Vec<u8>,
    /// Whether the shadow screen is selected right now.
    pub cur_screen_shadow: bool,
    /// Whether the shadow screen was selected at frame start.
    pub beg_screen_shadow: bool,
    /// The RAM bank paged in at `0xC000`.
    pub mem_page3_bank: u8,
    /// The timestamps of mid-frame screen swaps.
    pub screen_changes: Vec<VideoTs>,
}

impl<B> Ula128<B> {
    /// The base ULA is well formed and the shadow structures have their
    /// fixed sizes.
    pub open spec fn wf(self) -> bool {
        &&& self.ula.wf()
        &&& self.shadow_frame_cache.wf()
        &&& self.shadow_screen@.len() == SCREEN_SIZE
        &&& self.mem_page3_bank < 8
    }

    /// Whether the bank paged in at `0xC000` is contended (the odd
    /// banks are).
    pub fn is_page3_contended(&self) -> (r: bool)
        ensures
            r == (self.mem_page3_bank & 1 == 1),
    {
        self.mem_page3_bank & 1 == 1
    }

    /// Which screen, if any, is visible through writes at `0xC000`:
    /// bank 5 shows the normal screen, bank 7 the shadow screen.
    pub fn page3_screen_shadow_bank(&self) -> (r: Option<bool>)
        ensures
            self.mem_page3_bank == 5 ==> r == Some(false),
            self.mem_page3_bank == 7 ==> r == Some(true),
            self.mem_page3_bank != 5 && self.mem_page3_bank != 7 ==> r is None,
    {
        match self.mem_page3_bank {
            5 => Some(false),
            7 => Some(true),
            _ => None,
        }
    }
}

impl<B: Default> Default for Ula128<B> {
    fn default() -> (r: Self)
        ensures
            r.wf(),
            !r.cur_screen_shadow,
            !r.beg_screen_shadow,
            r.mem_page3_bank == 0,
    {
        let mut shadow_screen: Vec<u8> = Vec::new();
        let mut i: usize = 0;
        while i < SCREEN_SIZE
            invariant
                i <= SCREEN_SIZE,
                shadow_screen@.len() == i,
            decreases SCREEN_SIZE - i,
        {
            shadow_screen.push(0);
            i = i + 1;
        }
        Ula128 {
            ula: Ula::default(),
            shadow_frame_cache: UlaFrameCache::new(),
            shadow_screen,
            cur_screen_shadow: false,
            beg_screen_shadow: false,
            mem_page3_bank: 0,
            screen_changes: Vec::new(),
        }
    }
}

} // verus!
