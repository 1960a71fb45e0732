//! The AY-3-891x I/O ports: the register-select latch, the register
//! file, the per-frame change recorder, and the port decodings of the
//! known AY peripherals.

use vstd::prelude::*;

use crate::audio::ay::{AyRegChange, AyRegister};
use crate::clock::{FTs, VideoTs};
use crate::video::{fts_of, VideoFrame};

verus! {

/// One recorded register write, timestamped with the host's clock type.
#[derive(Clone, Copy, PartialEq, Eq, Structural, Debug)]
pub struct AyRecordedChange<T> {
    pub ts: T,
    pub reg: u8,
    pub val: u8,
}

/// The model of the AY I/O state: the latch, the register values and
/// the recorded changes.
pub struct AyIoView<T> {
    pub selected_reg: u8,
    pub regs: Seq<u8>,
    pub recorder: Seq<AyRecordedChange<T>>,
}

/// The I/O half of an AY chip: the select latch, the 16 registers and
/// the ordered log of this frame's register writes.
#[derive(Clone, PartialEq, Eq, Debug)]
pub struct Ay3_8910Io<T> {
    pub selected_reg: u8,
    pub regs: Vec<u8>,
    /// The ordered per-frame log of recorded register writes.
    pub recorder: Vec<AyRecordedChange<T>>,
}

impl<T> Ay3_8910Io<T> {
    /// The register file holds exactly 16 registers and the latch one of
    /// their indices.
    pub open spec fn wf(self) -> bool {
        self.regs@.len() == 16 && self.selected_reg < 16
    }

    /// The model of this I/O state.
    pub open spec fn io_view(self) -> AyIoView<T> {
        AyIoView { selected_reg: self.selected_reg, regs: self.regs@, recorder: self.recorder@ }
    }

    /// The register values.
    pub open spec fn spec_regs(self) -> Seq<u8> {
        self.regs@
    }

    /// The currently selected register index.
    pub open spec fn spec_selected_reg(self) -> u8 {
        self.selected_reg
    }

    /// A fresh port state: register zero selected, all registers zero,
    /// nothing recorded.
    pub fn new() -> (r: Self)
        ensures
            r.wf(),
            r.spec_selected_reg() == 0,
            r.spec_regs() == Seq::<u8>::new(16, |i: int| 0u8),
            r.recorder@.len() == 0,
    {
        let mut regs: Vec<u8> = Vec::new();
        let mut i: usize = 0;
        while i < 16
            invariant
                i <= 16,
                regs@.len() == i,
                forall|j: int| 0 <= j < i ==> regs@[j] == 0u8,
            decreases 16 - i,
        {
            regs.push(0);
            i = i + 1;
        }
        proof {
            assert(regs@ =~= Seq::<u8>::new(16, |i: int| 0u8));
        }
        Ay3_8910Io { selected_reg: 0, regs, recorder: Vec::new() }
    }

    /// Zeroes the registers and the select latch; the recorded changes
    /// of the running frame stay.
    pub fn reset(&mut self)
        ensures
            final(self).wf(),
            final(self).spec_selected_reg() == 0,
            final(self).spec_regs() == Seq::<u8>::new(16, |i: int| 0u8),
            final(self).recorder == old(self).recorder,
    {
        self.selected_reg = 0;
        let mut regs: Vec<u8> = Vec::new();
        let mut i: usize = 0;
        while i < 16
            invariant
                i <= 16,
                regs@.len() == i,
                forall|j: int| 0 <= j < i ==> regs@[j] == 0u8,
            decreases 16 - i,
        {
            regs.push(0);
            i = i + 1;
        }
        proof {
            assert(regs@ =~= Seq::<u8>::new(16, |i: int| 0u8));
        }
        self.regs = regs;
    }

    /// Latches the register index in the low 4 bits of `data`.
    pub fn select_port_write(&mut self, data: u8)
        ensures
            final(self).spec_selected_reg() == data & 15,
            final(self).spec_regs() == old(self).spec_regs(),
            final(self).recorder == old(self).recorder,
    {
        proof {
            assert(data & 15 < 16u8) by (bit_vector);
        }
        self.selected_reg = data & 15;
    }

    /// Writes `data` to the selected register and records the write.
    pub fn data_port_write(&mut self, ts: T, data: u8)
        ensures
            final(self).spec_selected_reg() == old(self).spec_selected_reg(),
            final(self).spec_regs() == if old(self).spec_selected_reg() < old(
                self,
            ).spec_regs().len() {
                old(self).spec_regs().update(old(self).spec_selected_reg() as int, data)
            } else {
                old(self).spec_regs()
            },
            final(self).recorder@ == old(self).recorder@.push(
                AyRecordedChange { ts, reg: old(self).spec_selected_reg(), val: data },
            ),
    {
        let reg = self.selected_reg;
        if (reg as usize) < self.regs.len() {
            self.regs[reg as usize] = data;
        }
        self.recorder.push(AyRecordedChange { ts, reg, val: data });
    }

    /// Reads the selected register back; an open bus when the latch is
    /// out of range.
    pub fn data_port_read(&self) -> (r: u8)
        ensures
            r == if self.spec_selected_reg() < self.spec_regs().len() {
                self.spec_regs()[self.spec_selected_reg() as int]
            } else {
                0xffu8
            },
    {
        if (self.selected_reg as usize) < self.regs.len() {
            self.regs[self.selected_reg as usize]
        } else {
            0xff
        }
    }

    /// A frame has ended; the recorder is drained by the renderer, so
    /// nothing is left to do here.
    pub fn next_frame(&mut self, ts: T)
        ensures
            *final(self) == *old(self),
    {
    }
}

impl Ay3_8910Io<VideoTs> {
    /// Takes this frame's recorded changes, converting each video
    /// timestamp to a flat frame T-state of the frame `V`.
    pub fn drain_ay_reg_changes<V: VideoFrame>(&mut self) -> (r: Vec<AyRegChange>)
        ensures
            final(self).recorder@.len() == 0,
            final(self).spec_regs() == old(self).spec_regs(),
            final(self).spec_selected_reg() == old(self).spec_selected_reg(),
            final(self).wf() == old(self).wf(),
            r@.len() == old(self).recorder@.len(),
            forall|i: int|
                0 <= i < r@.len() ==> r@[i] == (AyRegChange {
                    time: fts_of(
                        V::spec_hts_end() - V::spec_hts_start(),
                        old(self).recorder@[i].ts,
                    ) as FTs,
                    reg: AyRegister::spec_from_u8(old(self).recorder@[i].reg),
                    val: old(self).recorder@[i].val,
                }),
    {
        let mut r: Vec<AyRegChange> = Vec::new();
        let n = self.recorder.len();
        let mut i: usize = 0;
        while i < n
            invariant
                i <= n,
                n == self.recorder@.len(),
                *self == *old(self),
                r@.len() == i,
                forall|j: int|
                    0 <= j < i ==> r@[j] == (AyRegChange {
                        time: fts_of(
                            V::spec_hts_end() - V::spec_hts_start(),
                            old(self).recorder@[j].ts,
                        ) as FTs,
                        reg: AyRegister::spec_from_u8(old(self).recorder@[j].reg),
                        val: old(self).recorder@[j].val,
                    }),
            decreases n - i,
        {
            let rec = self.recorder[i];
            let time = V::vts_to_tstates(rec.ts);
            r.push(AyRegChange { time, reg: AyRegister::from_u8(rec.reg), val: rec.val });
            i = i + 1;
        }
        self.recorder.clear();
        r
    }
}

impl Ay3_8910Io<FTs> {
    /// Takes this frame's recorded changes; the timestamps are already
    /// flat frame T-states.
    pub fn drain_ay_reg_changes_fts(&mut self) -> (r: Vec<AyRegChange>)
        ensures
            final(self).recorder@.len() == 0,
            final(self).spec_regs() == old(self).spec_regs(),
            final(self).spec_selected_reg() == old(self).spec_selected_reg(),
            final(self).wf() == old(self).wf(),
            r@.len() == old(self).recorder@.len(),
            forall|i: int|
                0 <= i < r@.len() ==> r@[i] == (AyRegChange {
                    time: old(self).recorder@[i].ts,
                    reg: AyRegister::spec_from_u8(old(self).recorder@[i].reg),
                    val: old(self).recorder@[i].val,
                }),
    {
        let mut r: Vec<AyRegChange> = Vec::new();
        let n = self.recorder.len();
        let mut i: usize = 0;
        while i < n
            invariant
                i <= n,
                n == self.recorder@.len(),
                *self == *old(self),
                r@.len() == i,
                forall|j: int|
                    0 <= j < i ==> r@[j] == (AyRegChange {
                        time: old(self).recorder@[j].ts,
                        reg: AyRegister::spec_from_u8(old(self).recorder@[j].reg),
                        val: old(self).recorder@[j].val,
                    }),
            decreases n - i,
        {
            let rec = self.recorder[i];
            r.push(AyRegChange { time: rec.ts, reg: AyRegister::from_u8(rec.reg), val: rec.val });
            i = i + 1;
        }
        self.recorder.clear();
        r
    }
}

impl<T> Default for Ay3_8910Io<T> {
    fn default() -> (r: Self)
        ensures
            r.wf(),
            r.spec_selected_reg() == 0,
            r.spec_regs() == Seq::<u8>::new(16, |i: int| 0u8),
            r.recorder@.len() == 0,
    {
        Ay3_8910Io::new()
    }
}

/// How an AY peripheral decodes the Z80's 16-bit port address into its
/// select, data-write and data-read strobes.
pub trait AyPortDecode: Sized {
    /// Whether a write to `port` selects a register.
    spec fn spec_is_select(port: u16) -> bool;

    /// Exec twin of [`AyPortDecode::spec_is_select`].
    fn is_select(port: u16) -> (r: bool)
        ensures
            r == Self::spec_is_select(port),
    ;

    /// Whether a write to `port` writes the selected register.
    spec fn spec_is_data_write(port: u16) -> bool;

    /// Exec twin of [`AyPortDecode::spec_is_data_write`].
    fn is_data_write(port: u16) -> (r: bool)
        ensures
            r == Self::spec_is_data_write(port),
    ;

    /// Whether a read of `port` reads the selected register.
    spec fn spec_is_data_read(port: u16) -> bool;

    /// Exec twin of [`AyPortDecode::spec_is_data_read`].
    fn is_data_read(port: u16) -> (r: bool)
        ensures
            r == Self::spec_is_data_read(port),
    ;
}

/// The 128k decoding: select and read at `0xFFFD`, write at `0xBFFD`
/// (address bits 15/14 with bit 1 low).
#[derive(Clone, Copy, Default, PartialEq, Eq, Structural, Debug)]
pub struct Ay128kPortDecode;

impl AyPortDecode for Ay128kPortDecode {
    open spec fn spec_is_select(port: u16) -> bool {
        port & 0xc002 == 0xc000
    }

    fn is_select(port: u16) -> (r: bool) {
        port & 0xc002 == 0xc000
    }

    open spec fn spec_is_data_write(port: u16) -> bool {
        port & 0xc002 == 0x8000
    }

    fn is_data_write(port: u16) -> (r: bool) {
        port & 0xc002 == 0x8000
    }

    open spec fn spec_is_data_read(port: u16) -> bool {
        port & 0xc002 == 0xc000
    }

    fn is_data_read(port: u16) -> (r: bool) {
        port & 0xc002 == 0xc000
    }
}

/// The Fuller box decoding: select and read at `0x3F`, write at `0x5F`.
#[derive(Clone, Copy, Default, PartialEq, Eq, Structural, Debug)]
pub struct AyFullerBoxPortDecode;

impl AyPortDecode for AyFullerBoxPortDecode {
    open spec fn spec_is_select(port: u16) -> bool {
        port & 0x00ff == 0x003f
    }

    fn is_select(port: u16) -> (r: bool) {
        port & 0x00ff == 0x003f
    }

    open spec fn spec_is_data_write(port: u16) -> bool {
        port & 0x00ff == 0x005f
    }

    fn is_data_write(port: u16) -> (r: bool) {
        port & 0x00ff == 0x005f
    }

    open spec fn spec_is_data_read(port: u16) -> bool {
        port & 0x00ff == 0x003f
    }

    fn is_data_read(port: u16) -> (r: bool) {
        port & 0x00ff == 0x003f
    }
}

/// Offers a port write to the AY I/O state, decoded by `P`; returns
/// whether the write was claimed.
pub fn write_ay_io<P: AyPortDecode, T>(ay: &mut Ay3_8910Io<T>, port: u16, data: u8, ts: T) -> (r:
    bool)
    ensures
        r == (P::spec_is_select(port) || P::spec_is_data_write(port)),
        P::spec_is_select(port) ==> final(ay).spec_selected_reg() == data & 15 && final(ay).spec_regs() == old(ay).spec_regs() && final(ay).recorder == old(ay).recorder,
        !P::spec_is_select(port) && P::spec_is_data_write(port) ==> final(ay).spec_selected_reg()
            == old(ay).spec_selected_reg() && final(ay).spec_regs() == (if old(
            ay,
        ).spec_selected_reg() < old(ay).spec_regs().len() {
            old(ay).spec_regs().update(old(ay).spec_selected_reg() as int, data)
        } else {
            old(ay).spec_regs()
        }) && final(ay).recorder@ == old(ay).recorder@.push(
            AyRecordedChange { ts, reg: old(ay).spec_selected_reg(), val: data },
        ),
        !P::spec_is_select(port) && !P::spec_is_data_write(port) ==> *final(ay) == *old(ay),
{
    if P::is_select(port) {
        ay.select_port_write(data);
        true
    } else if P::is_data_write(port) {
        ay.data_port_write(ts, data);
        true
    } else {
        false
    }
}

} // verus!
