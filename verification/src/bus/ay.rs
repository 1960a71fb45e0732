//! The AY-3-891x programmable sound generator as a bus device.

use vstd::prelude::*;

use crate::audio::ay::{Ay3_8891xAudio, AyRegChange, AyRegister, spec_ay_render};
use crate::audio::{AmpLevels, Blep};
use crate::bus::{BusDevice, DevView, NullDevice, OptionalBusDevice};
use crate::clock::{FTs, VideoTs};
use crate::peripherals::ay::{
    Ay128kPortDecode, Ay3_8910Io, AyFullerBoxPortDecode, AyIoView, AyPortDecode,
    AyRecordedChange, write_ay_io,
};
use crate::video::{fts_of, VideoFrame};

verus! {

/// A convenient AY bus device with the `Melodik` port configuration.
pub type Ay3_891xMelodik<D> = Ay3_891xBusDevice<VideoTs, Ay128kPortDecode, D>;

/// A convenient AY bus device with the `Fuller Box` port configuration.
pub type Ay3_891xFullerBox<D> = Ay3_891xBusDevice<VideoTs, AyFullerBoxPortDecode, D>;

/// Marker for bus devices that hold no AY chip themselves: rendering AY
/// audio passes through them to the rest of the chain.
pub trait PassByAyAudioBusDevice {

}

/// Rendering the AY chips of a bus chain: the call walks the chain and
/// every AY device renders its frame into the sink.
pub trait AyAudioVBusDevice {
    fn render_ay_audio_vts<L: AmpLevels, V: VideoFrame, A: Blep>(
        &mut self,
        blep: &mut A,
        end_ts: VideoTs,
        chans: [usize; 3],
    )
        requires
            0 <= fts_of(V::spec_hts_end() - V::spec_hts_start(), end_ts) <= 0x100000,
    ;
}

/// The AY-3-8910/8912/8913 programmable sound generator as a bus
/// device: envelops the synthesizer and the I/O ports, and renders the
/// sound of the last frame on demand.
#[derive(Debug)]
pub struct Ay3_891xBusDevice<T, P, D> {
    /// The sound generator.
    pub ay_sound: Ay3_8891xAudio,
    /// The I/O ports and the per-frame register-change recorder.
    pub ay_io: Ay3_8910Io<T>,
    pub bus: D,
    pub _port_decode: core::marker::PhantomData<P>,
}

impl<T, P, D: Default> Default for Ay3_891xBusDevice<T, P, D> {
    fn default() -> (r: Self)
        ensures
            r.ay_sound == crate::audio::ay::spec_ay_default(),
            r.ay_io.wf(),
            r.ay_io.recorder@.len() == 0,
            0 <= r.ay_sound.current_ts < 0x10000,
    {
        Ay3_891xBusDevice {
            ay_sound: Ay3_8891xAudio::default(),
            ay_io: Ay3_8910Io::new(),
            bus: D::default(),
            _port_decode: core::marker::PhantomData,
        }
    }
}

/// The model of the AY bus device: the synthesizer and the I/O model.
pub struct AyBusView<T> {
    pub sound: Ay3_8891xAudio,
    pub io: AyIoView<T>,
}

impl<T: Copy, P, D> BusDevice for Ay3_891xBusDevice<T, P, D> where
    P: AyPortDecode,
    D: BusDevice<Timestamp = T>,
 {
    type Timestamp = T;

    type NextDevice = D;

    type ChainView = DevView<AyBusView<T>, D::ChainView>;

    open spec fn bus_view(self) -> Self::ChainView {
        DevView {
            dev: AyBusView { sound: self.ay_sound, io: self.ay_io.io_view() },
            bus: self.bus.bus_view(),
        }
    }

    open spec fn spec_next_device(self) -> D {
        self.bus
    }

    open spec fn spec_with_next(self, next: D) -> Self {
        Ay3_891xBusDevice { bus: next, ..self }
    }

    /// A reset returns the synthesizer and the registers to power-on
    /// state; the changes already recorded this frame stay.
    open spec fn spec_reset(v: Self::ChainView, ts: T) -> Self::ChainView {
        DevView {
            dev: AyBusView {
                sound: crate::audio::ay::spec_ay_default(),
                io: AyIoView {
                    selected_reg: 0u8,
                    regs: Seq::new(16, |i: int| 0u8),
                    recorder: v.dev.io.recorder,
                },
            },
            bus: D::spec_reset(v.bus, ts),
        }
    }

    open spec fn spec_update_timestamp(v: Self::ChainView, ts: T) -> Self::ChainView {
        DevView { dev: v.dev, bus: D::spec_update_timestamp(v.bus, ts) }
    }

    open spec fn spec_next_frame(v: Self::ChainView, ts: T) -> Self::ChainView {
        DevView { dev: v.dev, bus: D::spec_next_frame(v.bus, ts) }
    }

    /// A read of the decoded data port returns the selected register.
    open spec fn spec_read_io(v: Self::ChainView, port: u16, ts: T) -> (
        Self::ChainView,
        Option<(u8, Option<u16>)>,
    ) {
        if P::spec_is_data_read(port) {
            let data = if v.dev.io.selected_reg < v.dev.io.regs.len() {
                v.dev.io.regs[v.dev.io.selected_reg as int]
            } else {
                0xffu8
            };
            (v, Some((data, None)))
        } else {
            let (bus, bus_r) = D::spec_read_io(v.bus, port, ts);
            (DevView { dev: v.dev, bus }, bus_r)
        }
    }

    /// A write of the decoded select port latches a register index; one
    /// of the decoded data port records and stores the value; both are
    /// consumed. Anything else goes down the chain.
    open spec fn spec_write_io(v: Self::ChainView, port: u16, data: u8, ts: T) -> (
        Self::ChainView,
        Option<u16>,
    ) {
        if P::spec_is_select(port) {
            (
                DevView {
                    dev: AyBusView {
                        sound: v.dev.sound,
                        io: AyIoView {
                            selected_reg: data & 15,
                            regs: v.dev.io.regs,
                            recorder: v.dev.io.recorder,
                        },
                    },
                    bus: v.bus,
                },
                Some(0u16),
            )
        } else if P::spec_is_data_write(port) {
            let sel = v.dev.io.selected_reg;
            let regs = if sel < v.dev.io.regs.len() {
                v.dev.io.regs.update(sel as int, data)
            } else {
                v.dev.io.regs
            };
            (
                DevView {
                    dev: AyBusView {
                        sound: v.dev.sound,
                        io: AyIoView {
                            selected_reg: sel,
                            regs,
                            recorder: v.dev.io.recorder.push(
                                AyRecordedChange { ts, reg: sel, val: data },
                            ),
                        },
                    },
                    bus: v.bus,
                },
                Some(0u16),
            )
        } else {
            let (bus, bus_r) = D::spec_write_io(v.bus, port, data, ts);
            (DevView { dev: v.dev, bus }, bus_r)
        }
    }

    fn next_device_ref(&self) -> (r: &D) {
        &self.bus
    }

    fn next_device_mut(&mut self) -> (r: &mut D) {
        &mut self.bus
    }

    fn reset(&mut self, timestamp: T) {
        self.ay_sound.reset();
        self.ay_io.reset();
        self.bus.reset(timestamp);
    }

    fn update_timestamp(&mut self, timestamp: T) {
        self.bus.update_timestamp(timestamp);
    }

    fn next_frame(&mut self, timestamp: T) {
        self.ay_io.next_frame(timestamp);
        self.bus.next_frame(timestamp);
    }

    fn read_io(&mut self, port: u16, timestamp: T) -> (r: Option<(u8, Option<u16>)>) {
        if P::is_data_read(port) {
            return Some((self.ay_io.data_port_read(), None));
        }
        self.bus.read_io(port, timestamp)
    }

    fn write_io(&mut self, port: u16, data: u8, timestamp: T) -> (r: Option<u16>) {
        if write_ay_io::<P, T>(&mut self.ay_io, port, data, timestamp) {
            return Some(0);
        }
        self.bus.write_io(port, data, timestamp)
    }
}

impl<P, D> Ay3_891xBusDevice<VideoTs, P, D> {
    /// Renders this frame's recorded register changes as band-limited
    /// steps via the sink, leaving the synthesizer folded over them and
    /// the recorder empty.
    ///
    /// Provide [`AmpLevels`] handling level values 0 to 15; `chans` maps
    /// the AY channels A, B and C onto sink channels.
    pub fn render_ay_audio<L: AmpLevels, V: VideoFrame, A: Blep>(
        &mut self,
        blep: &mut A,
        end_ts: VideoTs,
        chans: [usize; 3],
    )
        requires
            0 <= old(self).ay_sound.current_ts < 0x10000,
            0 <= fts_of(V::spec_hts_end() - V::spec_hts_start(), end_ts) <= 0x100000,
        ensures
            final(self).ay_io.recorder@.len() == 0,
            final(self).ay_io.spec_regs() == old(self).ay_io.spec_regs(),
            final(self).ay_io.spec_selected_reg() == old(self).ay_io.spec_selected_reg(),
            final(self).bus == old(self).bus,
            final(self).ay_sound == ({
                let end = fts_of(V::spec_hts_end() - V::spec_hts_start(), end_ts);
                let changes = Seq::new(
                    old(self).ay_io.recorder@.len(),
                    |i: int|
                        AyRegChange {
                            time: fts_of(
                                V::spec_hts_end() - V::spec_hts_start(),
                                old(self).ay_io.recorder@[i].ts,
                            ) as FTs,
                            reg: AyRegister::spec_from_u8(old(self).ay_io.recorder@[i].reg),
                            val: old(self).ay_io.recorder@[i].val,
                        },
                );
                let done = spec_ay_render(old(self).ay_sound, changes, 0, end);
                Ay3_8891xAudio { current_ts: (done.current_ts - end) as FTs, ..done }
            }),
    {
        let end_fts = V::vts_to_tstates(end_ts);
        let changes = self.ay_io.drain_ay_reg_changes::<V>();
        proof {
            assert(changes@ =~= Seq::new(
                old(self).ay_io.recorder@.len(),
                |i: int|
                    AyRegChange {
                        time: fts_of(
                            V::spec_hts_end() - V::spec_hts_start(),
                            old(self).ay_io.recorder@[i].ts,
                        ) as FTs,
                        reg: AyRegister::spec_from_u8(old(self).ay_io.recorder@[i].reg),
                        val: old(self).ay_io.recorder@[i].val,
                    },
            ));
        }
        self.ay_sound.render_audio::<L, A>(&changes, blep, end_fts, chans);
    }
}

impl<P, D> Ay3_891xBusDevice<FTs, P, D> {
    /// Renders this frame's recorded register changes, timestamped
    /// directly in frame T-states, as band-limited steps via the sink.
    pub fn render_ay_audio<L: AmpLevels, A: Blep>(
        &mut self,
        blep: &mut A,
        end_ts: FTs,
        chans: [usize; 3],
    )
        requires
            0 <= old(self).ay_sound.current_ts < 0x10000,
            0 <= end_ts <= 0x100000,
        ensures
            final(self).ay_io.recorder@.len() == 0,
            final(self).ay_io.spec_regs() == old(self).ay_io.spec_regs(),
            final(self).ay_io.spec_selected_reg() == old(self).ay_io.spec_selected_reg(),
            final(self).bus == old(self).bus,
            final(self).ay_sound == ({
                let changes = Seq::new(
                    old(self).ay_io.recorder@.len(),
                    |i: int|
                        AyRegChange {
                            time: old(self).ay_io.recorder@[i].ts,
                            reg: AyRegister::spec_from_u8(old(self).ay_io.recorder@[i].reg),
                            val: old(self).ay_io.recorder@[i].val,
                        },
                );
                let done = spec_ay_render(old(self).ay_sound, changes, 0, end_ts as int);
                Ay3_8891xAudio { current_ts: (done.current_ts - end_ts) as FTs, ..done }
            }),
    {
        let changes = self.ay_io.drain_ay_reg_changes_fts();
        proof {
            assert(changes@ =~= Seq::new(
                old(self).ay_io.recorder@.len(),
                |i: int|
                    AyRegChange {
                        time: old(self).ay_io.recorder@[i].ts,
                        reg: AyRegister::spec_from_u8(old(self).ay_io.recorder@[i].reg),
                        val: old(self).ay_io.recorder@[i].val,
                    },
            ));
        }
        self.ay_sound.render_audio::<L, A>(&changes, blep, end_ts, chans);
    }
}

impl<P: AyPortDecode, D> AyAudioVBusDevice for Ay3_891xBusDevice<VideoTs, P, D> where
    D: BusDevice<Timestamp = VideoTs>,
 {
    /// Delegates to [`Ay3_891xBusDevice::render_ay_audio`]; a ticker
    /// position outside its supported range (unreachable through this
    /// device's own operations) renders nothing.
    fn render_ay_audio_vts<L: AmpLevels, V: VideoFrame, A: Blep>(
        &mut self,
        blep: &mut A,
        end_ts: VideoTs,
        chans: [usize; 3],
    )
        ensures
            !(0 <= old(self).ay_sound.current_ts < 0x10000) ==> *final(self) == *old(self),
            0 <= old(self).ay_sound.current_ts < 0x10000 ==> final(self).ay_io.recorder@.len()
                == 0 && final(self).ay_io.spec_regs() == old(self).ay_io.spec_regs() && final(self).ay_io.spec_selected_reg() == old(self).ay_io.spec_selected_reg() && final(self).bus
                == old(self).bus && final(self).ay_sound == ({
                let end = fts_of(V::spec_hts_end() - V::spec_hts_start(), end_ts);
                let changes = Seq::new(
                    old(self).ay_io.recorder@.len(),
                    |i: int|
                        AyRegChange {
                            time: fts_of(
                                V::spec_hts_end() - V::spec_hts_start(),
                                old(self).ay_io.recorder@[i].ts,
                            ) as FTs,
                            reg: AyRegister::spec_from_u8(old(self).ay_io.recorder@[i].reg),
                            val: old(self).ay_io.recorder@[i].val,
                        },
                );
                let done = spec_ay_render(old(self).ay_sound, changes, 0, end);
                Ay3_8891xAudio { current_ts: (done.current_ts - end) as FTs, ..done }
            }),
    {
        if 0 <= self.ay_sound.current_ts && self.ay_sound.current_ts < 0x10000 {
            self.render_ay_audio::<L, V, A>(blep, end_ts, chans)
        }
    }
}

impl<T: Copy> AyAudioVBusDevice for NullDevice<T> {
    fn render_ay_audio_vts<L: AmpLevels, V: VideoFrame, A: Blep>(
        &mut self,
        blep: &mut A,
        end_ts: VideoTs,
        chans: [usize; 3],
    )
        ensures
            *final(self) == *old(self),
    {
    }
}

impl<D, N> AyAudioVBusDevice for OptionalBusDevice<D, N> where
    D: BusDevice + AyAudioVBusDevice,
    N: BusDevice<Timestamp = D::Timestamp> + AyAudioVBusDevice,
 {
    /// The call reaches both the optional device and the next one.
    fn render_ay_audio_vts<L: AmpLevels, V: VideoFrame, A: Blep>(
        &mut self,
        blep: &mut A,
        end_ts: VideoTs,
        chans: [usize; 3],
    ) {
        match &mut self.device {
            Some(d) => d.render_ay_audio_vts::<L, V, A>(blep, end_ts, chans),
            None => {},
        }
        self.next_device.render_ay_audio_vts::<L, V, A>(blep, end_ts, chans)
    }
}

impl<D, N> AyAudioVBusDevice for D where
    D: BusDevice<NextDevice = N> + PassByAyAudioBusDevice,
    N: BusDevice<Timestamp = D::Timestamp> + AyAudioVBusDevice,
 {
    /// A device without an AY chip passes the call along the chain.
    fn render_ay_audio_vts<L: AmpLevels, V: VideoFrame, A: Blep>(
        &mut self,
        blep: &mut A,
        end_ts: VideoTs,
        chans: [usize; 3],
    ) {
        self.next_device_mut().render_ay_audio_vts::<L, V, A>(blep, end_ts, chans)
    }
}

} // verus!
