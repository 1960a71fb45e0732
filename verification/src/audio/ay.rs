//! The AY-3-891x programmable sound generator: three tone generators, a
//! noise generator, an envelope generator and a mixer, reconstructed
//! sample-accurately from a timestamped register-change log.

use vstd::prelude::*;

use crate::audio::{AmpLevels, Blep};
use crate::clock::FTs;

verus! {

/// The AY chip's internal clock divisor relative to its input clock.
pub const INTERNAL_CLOCK_DIVISOR: FTs = 16;

/// Host CPU T-states per AY input clock cycle.
pub const HOST_CLOCK_RATIO: FTs = 2;

/// Host T-states between two internal AY ticks.
pub const CLOCK_INCREASE: FTs = HOST_CLOCK_RATIO * INTERNAL_CLOCK_DIVISOR;

pub const ENV_SHAPE_CONT_MASK: u8 = 0b00001000;

pub const ENV_SHAPE_ATTACK_MASK: u8 = 0b00000100;

pub const ENV_SHAPE_ALT_MASK: u8 = 0b00000010;

pub const ENV_SHAPE_HOLD_MASK: u8 = 0b00000001;

pub const ENV_LEVEL_REV_MASK: u8 = 0b10000000;

pub const ENV_LEVEL_MOD_MASK: u8 = 0b01000000;

pub const ENV_LEVEL_MASK: u8 = 0x0f;

pub const ENV_CYCLE_MASK: u8 = 0xf0;

/// One of the 16 AY-3-891x registers.
#[derive(Clone, Copy, PartialEq, Eq, Structural, Debug)]
pub enum AyRegister {
    ToneFineA,
    ToneCoarseA,
    ToneFineB,
    ToneCoarseB,
    ToneFineC,
    ToneCoarseC,
    NoisePeriod,
    MixerControl,
    AmpLevelA,
    AmpLevelB,
    AmpLevelC,
    EnvPerFine,
    EnvPerCoarse,
    EnvShape,
    IoA,
    IoB,
}

impl AyRegister {
    /// The register selected by the low 4 bits of a select-port write.
    pub open spec fn spec_from_u8(v: u8) -> AyRegister {
        match v & 15 {
            0 => AyRegister::ToneFineA,
            1 => AyRegister::ToneCoarseA,
            2 => AyRegister::ToneFineB,
            3 => AyRegister::ToneCoarseB,
            4 => AyRegister::ToneFineC,
            5 => AyRegister::ToneCoarseC,
            6 => AyRegister::NoisePeriod,
            7 => AyRegister::MixerControl,
            8 => AyRegister::AmpLevelA,
            9 => AyRegister::AmpLevelB,
            10 => AyRegister::AmpLevelC,
            11 => AyRegister::EnvPerFine,
            12 => AyRegister::EnvPerCoarse,
            13 => AyRegister::EnvShape,
            14 => AyRegister::IoA,
            _ => AyRegister::IoB,
        }
    }

    /// Exec twin of [`AyRegister::spec_from_u8`].
    pub fn from_u8(v: u8) -> (r: AyRegister)
        ensures
            r == AyRegister::spec_from_u8(v),
    {
        let l = v & 15;
        proof {
            assert(v & 15 < 16u8) by (bit_vector);
        }
        match l {
            0 => AyRegister::ToneFineA,
            1 => AyRegister::ToneCoarseA,
            2 => AyRegister::ToneFineB,
            3 => AyRegister::ToneCoarseB,
            4 => AyRegister::ToneFineC,
            5 => AyRegister::ToneCoarseC,
            6 => AyRegister::NoisePeriod,
            7 => AyRegister::MixerControl,
            8 => AyRegister::AmpLevelA,
            9 => AyRegister::AmpLevelB,
            10 => AyRegister::AmpLevelC,
            11 => AyRegister::EnvPerFine,
            12 => AyRegister::EnvPerCoarse,
            13 => AyRegister::EnvShape,
            14 => AyRegister::IoA,
            _ => AyRegister::IoB,
        }
    }

    /// The register's index, 0 to 15.
    pub open spec fn spec_index(self) -> u8 {
        match self {
            AyRegister::ToneFineA => 0,
            AyRegister::ToneCoarseA => 1,
            AyRegister::ToneFineB => 2,
            AyRegister::ToneCoarseB => 3,
            AyRegister::ToneFineC => 4,
            AyRegister::ToneCoarseC => 5,
            AyRegister::NoisePeriod => 6,
            AyRegister::MixerControl => 7,
            AyRegister::AmpLevelA => 8,
            AyRegister::AmpLevelB => 9,
            AyRegister::AmpLevelC => 10,
            AyRegister::EnvPerFine => 11,
            AyRegister::EnvPerCoarse => 12,
            AyRegister::EnvShape => 13,
            AyRegister::IoA => 14,
            AyRegister::IoB => 15,
        }
    }

    /// Exec twin of [`AyRegister::spec_index`].
    pub fn index(self) -> (r: u8)
        ensures
            r == self.spec_index(),
            r < 16,
    {
        match self {
            AyRegister::ToneFineA => 0,
            AyRegister::ToneCoarseA => 1,
            AyRegister::ToneFineB => 2,
            AyRegister::ToneCoarseB => 3,
            AyRegister::ToneFineC => 4,
            AyRegister::ToneCoarseC => 5,
            AyRegister::NoisePeriod => 6,
            AyRegister::MixerControl => 7,
            AyRegister::AmpLevelA => 8,
            AyRegister::AmpLevelB => 9,
            AyRegister::AmpLevelC => 10,
            AyRegister::EnvPerFine => 11,
            AyRegister::EnvPerCoarse => 12,
            AyRegister::EnvShape => 13,
            AyRegister::IoA => 14,
            AyRegister::IoB => 15,
        }
    }
}

/// A recorded AY register write: the frame T-state, the register and the
/// written value.
#[derive(Clone, Copy, PartialEq, Eq, Structural, Debug)]
pub struct AyRegChange {
    pub time: FTs,
    pub reg: AyRegister,
    pub val: u8,
}

impl AyRegChange {
    pub fn new(time: FTs, reg: AyRegister, val: u8) -> (r: AyRegChange)
        ensures
            r == (AyRegChange { time, reg, val }),
    {
        AyRegChange { time, reg, val }
    }
}

/// One channel's amplitude register: bit 4 selects the envelope, the low
/// 4 bits give a fixed level.
#[derive(Default, Clone, Copy, PartialEq, Eq, Structural, Debug)]
pub struct AmpLevel(pub u8);

impl AmpLevel {
    pub fn set(&mut self, level: u8)
        ensures
            final(self).0 == level & 0x1f,
    {
        self.0 = level & 0x1f;
    }

    pub fn is_env_control(self) -> (r: bool)
        ensures
            r == (self.0 & 0x10 != 0),
    {
        self.0 & 0x10 != 0
    }

    pub fn level(self) -> (r: u8)
        ensures
            r == self.0 & 0x0f,
    {
        self.0 & 0x0f
    }
}

/// The mixer register: a cleared bit enables tone (bit 0) or noise
/// (bit 3) for the current channel; shifting moves to the next channel.
#[derive(Default, Clone, Copy, PartialEq, Eq, Structural, Debug)]
pub struct Mixer(pub u8);

impl Mixer {
    pub fn has_tone(self) -> (r: bool)
        ensures
            r == (self.0 & 1 == 0),
    {
        self.0 & 1 == 0
    }

    pub fn has_noise(self) -> (r: bool)
        ensures
            r == (self.0 & 0x08 == 0),
    {
        self.0 & 0x08 == 0
    }

    pub fn next_chan(&mut self)
        ensures
            final(self).0 == old(self).0 >> 1,
    {
        self.0 = self.0 >> 1;
    }
}

/// The envelope generator. `cycle` holds the shape bits `CT AT AL HO` in
/// its low nibble and a modulo-16 step counter in the high nibble;
/// `level` packs `RV MD 0 0 v v v v`: the reverse and modulate flags and
/// the 4-bit volume.
#[derive(Clone, Copy, PartialEq, Eq, Structural, Debug)]
pub struct EnvelopeControl {
    pub period: u16,
    pub tick: u16,
    pub cycle: u8,
    pub level: u8,
}

impl Default for EnvelopeControl {
    fn default() -> (r: Self)
        ensures
            r == (EnvelopeControl { period: 1u16, tick: 0u16, cycle: 0u8, level: 0u8 }),
    {
        EnvelopeControl { period: 1, tick: 0, cycle: 0, level: 0 }
    }
}

/// The envelope state set by writing a shape: counters reset, the level
/// starts at the bottom (attack) or the top (decay) with modulation on.
pub open spec fn spec_env_set_shape(e: EnvelopeControl, shape: u8) -> EnvelopeControl {
    EnvelopeControl {
        period: e.period,
        tick: 0u8 as u16,
        cycle: shape & 0x0f,
        level: if shape & ENV_SHAPE_ATTACK_MASK != 0 {
            0x40u8
        } else {
            0xcfu8
        },
    }
}

/// The envelope state after a period write: zero becomes one, and a tick
/// counter past the new period is reduced modulo it.
pub open spec fn spec_env_set_period(e: EnvelopeControl, period: u16) -> EnvelopeControl {
    let p = if period == 0 {
        1u16
    } else {
        period
    };
    EnvelopeControl {
        period: p,
        tick: if e.tick >= p {
            (e.tick as int % p as int) as u16
        } else {
            e.tick
        },
        cycle: e.cycle,
        level: e.level,
    }
}

/// One internal tick of the envelope generator, and the 4-bit level it
/// outputs: on period expiry with modulation on, the volume steps up or
/// down; each 16th step the shape bits decide whether to stop, hold
/// (optionally inverted) or reverse.
pub open spec fn spec_env_update(e: EnvelopeControl) -> (EnvelopeControl, u8) {
    if e.tick >= e.period {
        let tick = (e.tick - e.period) as u16;
        if e.level & 0x40 != 0 {
            let stepped = if e.level & 0x80 == 0 {
                e.level.wrapping_add(1)
            } else {
                e.level.wrapping_sub(1)
            };
            let level1 = (e.level & 0xf0) | (stepped & 0x0f);
            let cycle = e.cycle.wrapping_add(0x10);
            let level2 = if cycle & 0xf0 == 0 {
                if cycle & ENV_SHAPE_CONT_MASK == 0 {
                    0u8
                } else if cycle & ENV_SHAPE_HOLD_MASK != 0 {
                    if cycle & ENV_SHAPE_ALT_MASK == 0 {
                        level1 ^ 0x4f
                    } else {
                        level1 ^ 0x40
                    }
                } else if cycle & ENV_SHAPE_ALT_MASK != 0 {
                    level1 ^ 0x8f
                } else {
                    level1
                }
            } else {
                level1
            };
            (
                EnvelopeControl {
                    period: e.period,
                    tick: tick.wrapping_add(1),
                    cycle,
                    level: level2,
                },
                level2 & 0x0f,
            )
        } else {
            (EnvelopeControl { tick: tick.wrapping_add(1), ..e }, e.level & 0x0f)
        }
    } else {
        (EnvelopeControl { tick: e.tick.wrapping_add(1), ..e }, e.level & 0x0f)
    }
}

impl EnvelopeControl {
    pub fn set_shape(&mut self, shape: u8)
        ensures
            *final(self) == spec_env_set_shape(*old(self), shape),
    {
        self.tick = 0;
        self.cycle = shape & 0x0f;
        self.level = if shape & ENV_SHAPE_ATTACK_MASK != 0 {
            0x40
        } else {
            0xcf
        };
    }

    pub fn set_period_fine(&mut self, perlo: u8)
        ensures
            *final(self) == spec_env_set_period(
                *old(self),
                (old(self).period & 0xff00) | perlo as u16,
            ),
    {
        let p = (self.period & 0xff00) | perlo as u16;
        self.set_period(p);
    }

    pub fn set_period_coarse(&mut self, perhi: u8)
        ensures
            *final(self) == spec_env_set_period(
                *old(self),
                (old(self).period & 0x00ff) | ((perhi as u16) << 8),
            ),
    {
        let p = (self.period & 0x00ff) | ((perhi as u16) << 8);
        self.set_period(p);
    }

    pub fn set_period(&mut self, period: u16)
        ensures
            *final(self) == spec_env_set_period(*old(self), period),
    {
        let p = if period == 0 {
            1
        } else {
            period
        };
        self.period = p;
        if self.tick >= p {
            self.tick = self.tick % p;
        }
    }

    pub fn update_level(&mut self) -> (r: u8)
        ensures
            (*final(self), r) == spec_env_update(*old(self)),
    {
        if self.tick >= self.period {
            let tick = self.tick - self.period;
            if self.level & 0x40 != 0 {
                let stepped = if self.level & 0x80 == 0 {
                    self.level.wrapping_add(1)
                } else {
                    self.level.wrapping_sub(1)
                };
                let mut level = (self.level & 0xf0) | (stepped & 0x0f);
                let cycle = self.cycle.wrapping_add(0x10);
                if cycle & 0xf0 == 0 {
                    if cycle & ENV_SHAPE_CONT_MASK == 0 {
                        level = 0;
                    } else if cycle & ENV_SHAPE_HOLD_MASK != 0 {
                        if cycle & ENV_SHAPE_ALT_MASK == 0 {
                            level = level ^ 0x4f;
                        } else {
                            level = level ^ 0x40;
                        }
                    } else if cycle & ENV_SHAPE_ALT_MASK != 0 {
                        level = level ^ 0x8f;
                    }
                }
                self.level = level;
                self.cycle = cycle;
                self.tick = tick.wrapping_add(1);
                return level & 0x0f;
            }
            self.tick = tick.wrapping_add(1);
            return self.level & 0x0f;
        }
        self.tick = self.tick.wrapping_add(1);
        self.level & 0x0f
    }
}

/// The noise generator: a 17-bit linear-feedback shift register advanced
/// each time the 5-bit period expires.
#[derive(Clone, Copy, PartialEq, Eq, Structural, Debug)]
pub struct NoiseControl {
    pub rng: i32,
    pub period: u8,
    pub tick: u8,
    pub low: bool,
}

impl Default for NoiseControl {
    fn default() -> (r: Self)
        ensures
            r == (NoiseControl { rng: 1i32, period: 0u8, tick: 0u8, low: false }),
    {
        NoiseControl { rng: 1, period: 0, tick: 0, low: false }
    }
}

/// The noise state after a period write: masked to 5 bits, zero becomes
/// one, a tick counter past the new period is reduced modulo it.
pub open spec fn spec_noise_set_period(n: NoiseControl, period: u8) -> NoiseControl {
    let p0 = period & 0x1f;
    let p = if p0 == 0 {
        1u8
    } else {
        p0
    };
    NoiseControl {
        period: p,
        tick: if n.tick >= p {
            (n.tick as int % p as int) as u8
        } else {
            n.tick
        },
        rng: n.rng,
        low: n.low,
    }
}

/// One internal tick of the noise generator and its output: on period
/// expiry the output may toggle (decided by the LFSR) and the LFSR
/// advances by `rng' = (-(rng & 1) & 0x12000) ^ (rng >> 1)`.
pub open spec fn spec_noise_update(n: NoiseControl) -> (NoiseControl, bool) {
    if n.tick >= n.period {
        let tick = (n.tick - n.period) as u8;
        let low = if n.rng.wrapping_add(1) & 2 != 0 {
            !n.low
        } else {
            n.low
        };
        let rng = (0i32.wrapping_sub(n.rng & 1) & 0x12000) ^ (n.rng >> 1);
        (NoiseControl { rng, period: n.period, tick: tick.wrapping_add(1), low }, low)
    } else {
        (NoiseControl { tick: n.tick.wrapping_add(1), ..n }, n.low)
    }
}

impl NoiseControl {
    pub fn set_period(&mut self, period: u8)
        ensures
            *final(self) == spec_noise_set_period(*old(self), period),
    {
        let p0 = period & 0x1f;
        let p = if p0 == 0 {
            1
        } else {
            p0
        };
        self.period = p;
        if self.tick >= p {
            self.tick = self.tick % p;
        }
    }

    pub fn update_is_low(&mut self) -> (r: bool)
        ensures
            (*final(self), r) == spec_noise_update(*old(self)),
    {
        if self.tick >= self.period {
            let tick = self.tick - self.period;
            if self.rng.wrapping_add(1) & 2 != 0 {
                self.low = !self.low;
            }
            self.rng = (0i32.wrapping_sub(self.rng & 1) & 0x12000) ^ (self.rng >> 1);
            self.tick = tick.wrapping_add(1);
            self.low
        } else {
            self.tick = self.tick.wrapping_add(1);
            self.low
        }
    }
}

/// Periods shorter than this silence a tone channel instead of toggling
/// it faster than the host can reproduce.
pub const TONE_GEN_MIN_THRESHOLD: u16 = 5;

/// One square-wave tone generator with a 12-bit period.
#[derive(Default, Clone, Copy, PartialEq, Eq, Structural, Debug)]
pub struct ToneControl {
    pub period: u16,
    pub tick: u16,
    pub low: bool,
}

/// The tone state after a period write: masked to 12 bits, zero becomes
/// one, and a tick counter past twice the new period is reduced modulo
/// that (the counter advances by 2 each internal tick).
pub open spec fn spec_tone_set_period(t: ToneControl, period: u16) -> ToneControl {
    let p0 = period & 0x0fff;
    let p = if p0 == 0 {
        1u16
    } else {
        p0
    };
    ToneControl {
        period: p,
        tick: if t.tick >= 2 * p {
            (t.tick as int % (2 * p as int)) as u16
        } else {
            t.tick
        },
        low: t.low,
    }
}

/// One internal tick of a tone generator and its output: the counter
/// advances by 2; on reaching the period the output toggles. Periods
/// below the threshold force the output high (a silenced channel).
pub open spec fn spec_tone_update(t: ToneControl) -> (ToneControl, bool) {
    if t.period < TONE_GEN_MIN_THRESHOLD {
        (ToneControl { tick: t.tick.wrapping_add(2), ..t }, false)
    } else if t.tick >= t.period {
        let tick = (t.tick - t.period) as u16;
        (ToneControl { period: t.period, tick: tick.wrapping_add(2), low: !t.low }, !t.low)
    } else {
        (ToneControl { tick: t.tick.wrapping_add(2), ..t }, t.low)
    }
}

impl ToneControl {
    pub fn set_period_fine(&mut self, perlo: u8)
        ensures
            *final(self) == spec_tone_set_period(
                *old(self),
                (old(self).period & 0xff00) | perlo as u16,
            ),
    {
        let p = (self.period & 0xff00) | perlo as u16;
        self.set_period(p);
    }

    pub fn set_period_coarse(&mut self, perhi: u8)
        ensures
            *final(self) == spec_tone_set_period(
                *old(self),
                (old(self).period & 0x00ff) | ((perhi as u16) << 8),
            ),
    {
        let p = (self.period & 0x00ff) | ((perhi as u16) << 8);
        self.set_period(p);
    }

    pub fn set_period(&mut self, period: u16)
        ensures
            *final(self) == spec_tone_set_period(*old(self), period),
    {
        let p0 = period & 0x0fff;
        proof {
            assert(period & 0x0fff <= 0x0fff) by (bit_vector);
        }
        let p = if p0 == 0 {
            1
        } else {
            p0
        };
        self.period = p;
        if self.tick >= p * 2 {
            self.tick = self.tick % (p * 2);
        }
    }

    pub fn update_is_low(&mut self) -> (r: bool)
        ensures
            (*final(self), r) == spec_tone_update(*old(self)),
    {
        if self.period < TONE_GEN_MIN_THRESHOLD {
            self.tick = self.tick.wrapping_add(2);
            false
        } else if self.tick >= self.period {
            let tick = self.tick - self.period;
            self.low = !self.low;
            self.tick = tick.wrapping_add(2);
            self.low
        } else {
            self.tick = self.tick.wrapping_add(2);
            self.low
        }
    }
}

/// Steps through the host T-states of one frame, one internal AY tick
/// (32 host T-states) at a time.
#[derive(Clone, Copy, PartialEq, Eq, Structural, Debug)]
pub struct Ticker {
    pub current: FTs,
    pub end_ts: FTs,
}

impl Ticker {
    pub fn new(current: FTs, end_ts: FTs) -> (r: Ticker)
        ensures
            r == (Ticker { current, end_ts }),
    {
        Ticker { current, end_ts }
    }

    /// The leftover T-states carried into the next frame once the ticker
    /// has passed its end.
    pub fn into_next_frame_ts(self) -> (r: FTs)
        requires
            i32::MIN <= self.current - self.end_ts <= i32::MAX,
        ensures
            r == self.current - self.end_ts,
    {
        self.current - self.end_ts
    }

    /// The next tick, if any is left before the end timestamp.
    pub fn next(&mut self) -> (r: Option<FTs>)
        requires
            old(self).current <= 0x7fffff00,
        ensures
            old(self).current < old(self).end_ts ==> r == Some(old(self).current) && *final(self)
                == (Ticker { current: (old(self).current + CLOCK_INCREASE) as FTs, ..*old(self) }),
            old(self).current >= old(self).end_ts ==> r == None::<FTs> && *final(self) == *old(
                self,
            ),
    {
        let res = self.current;
        if res < self.end_ts {
            self.current = res + CLOCK_INCREASE;
            Some(res)
        } else {
            None
        }
    }
}

/// Rendering the AY audio of one frame directly from the chipset that
/// owns the bus the chips sit on.
pub trait AyAudioFrame<A: Blep> {
    /// Renders the AY chips' sound of the last frame into the sink;
    /// `chans` maps the AY channels A, B and C onto sink channels.
    fn render_ay_audio_frame<L: AmpLevels>(&mut self, blep: &mut A, chans: [usize; 3]);
}

/// The full synthesizer state of one AY-3-891x chip.
#[derive(Clone, Copy, PartialEq, Eq, Structural, Debug)]
pub struct Ay3_8891xAudio {
    /// The internal ticker position, carried over between frames.
    pub current_ts: FTs,
    /// Channel output levels after the last rendered tick (A, B, C).
    pub last_level_a: u8,
    pub last_level_b: u8,
    pub last_level_c: u8,
    pub amp_a: AmpLevel,
    pub amp_b: AmpLevel,
    pub amp_c: AmpLevel,
    pub env_control: EnvelopeControl,
    pub noise_control: NoiseControl,
    pub tone_a: ToneControl,
    pub tone_b: ToneControl,
    pub tone_c: ToneControl,
    pub mixer: Mixer,
}

/// The power-on state of the chip.
pub open spec fn spec_ay_default() -> Ay3_8891xAudio {
    Ay3_8891xAudio {
        current_ts: 0i32,
        last_level_a: 0u8,
        last_level_b: 0u8,
        last_level_c: 0u8,
        amp_a: AmpLevel(0u8),
        amp_b: AmpLevel(0u8),
        amp_c: AmpLevel(0u8),
        env_control: EnvelopeControl { period: 1u16, tick: 0u16, cycle: 0u8, level: 0u8 },
        noise_control: NoiseControl { rng: 1i32, period: 0u8, tick: 0u8, low: false },
        tone_a: ToneControl { period: 0u16, tick: 0u16, low: false },
        tone_b: ToneControl { period: 0u16, tick: 0u16, low: false },
        tone_c: ToneControl { period: 0u16, tick: 0u16, low: false },
        mixer: Mixer(0u8),
    }
}

impl Default for Ay3_8891xAudio {
    fn default() -> (r: Self)
        ensures
            r == spec_ay_default(),
    {
        Ay3_8891xAudio {
            current_ts: 0,
            last_level_a: 0,
            last_level_b: 0,
            last_level_c: 0,
            amp_a: AmpLevel(0),
            amp_b: AmpLevel(0),
            amp_c: AmpLevel(0),
            env_control: EnvelopeControl { period: 1, tick: 0, cycle: 0, level: 0 },
            noise_control: NoiseControl { rng: 1, period: 0, tick: 0, low: false },
            tone_a: ToneControl { period: 0, tick: 0, low: false },
            tone_b: ToneControl { period: 0, tick: 0, low: false },
            tone_c: ToneControl { period: 0, tick: 0, low: false },
            mixer: Mixer(0),
        }
    }
}

/// The chip state after one register write.
pub open spec fn spec_ay_update_register(s: Ay3_8891xAudio, reg: AyRegister, val: u8) -> Ay3_8891xAudio {
    match reg {
        AyRegister::ToneFineA => Ay3_8891xAudio { tone_a: spec_tone_set_period(s.tone_a, (s.tone_a.period & 0xff00) | val as u16), ..s },
        AyRegister::ToneCoarseA => Ay3_8891xAudio { tone_a: spec_tone_set_period(s.tone_a, (s.tone_a.period & 0x00ff) | ((val as u16) << 8)), ..s },
        AyRegister::ToneFineB => Ay3_8891xAudio { tone_b: spec_tone_set_period(s.tone_b, (s.tone_b.period & 0xff00) | val as u16), ..s },
        AyRegister::ToneCoarseB => Ay3_8891xAudio { tone_b: spec_tone_set_period(s.tone_b, (s.tone_b.period & 0x00ff) | ((val as u16) << 8)), ..s },
        AyRegister::ToneFineC => Ay3_8891xAudio { tone_c: spec_tone_set_period(s.tone_c, (s.tone_c.period & 0xff00) | val as u16), ..s },
        AyRegister::ToneCoarseC => Ay3_8891xAudio { tone_c: spec_tone_set_period(s.tone_c, (s.tone_c.period & 0x00ff) | ((val as u16) << 8)), ..s },
        AyRegister::NoisePeriod => Ay3_8891xAudio { noise_control: spec_noise_set_period(s.noise_control, val), ..s },
        AyRegister::MixerControl => Ay3_8891xAudio { mixer: Mixer(val), ..s },
        AyRegister::AmpLevelA => Ay3_8891xAudio { amp_a: AmpLevel(val & 0x1f), ..s },
        AyRegister::AmpLevelB => Ay3_8891xAudio { amp_b: AmpLevel(val & 0x1f), ..s },
        AyRegister::AmpLevelC => Ay3_8891xAudio { amp_c: AmpLevel(val & 0x1f), ..s },
        AyRegister::EnvPerFine => Ay3_8891xAudio { env_control: spec_env_set_period(s.env_control, (s.env_control.period & 0xff00) | val as u16), ..s },
        AyRegister::EnvPerCoarse => Ay3_8891xAudio { env_control: spec_env_set_period(s.env_control, (s.env_control.period & 0x00ff) | ((val as u16) << 8)), ..s },
        AyRegister::EnvShape => Ay3_8891xAudio { env_control: spec_env_set_shape(s.env_control, val), ..s },
        _ => s,
    }
}

/// The per-channel output level of one tick: silenced when an enabled
/// tone or noise line is low, otherwise the envelope level or the fixed
/// amplitude, depending on the amplitude register's envelope bit.
pub open spec fn spec_chan_level(mixer: u8, tone_low: bool, noise_low: bool, amp: AmpLevel, env_level: u8) -> u8 {
    if (mixer & 1 == 0 && tone_low) || (mixer & 0x08 == 0 && noise_low) {
        0u8
    } else if amp.0 & 0x10 != 0 {
        env_level
    } else {
        amp.0
    }
}

/// One internal tick of the whole chip: the envelope, the noise and the
/// three tone generators advance, the three output levels are mixed, and
/// the ticker moves 32 host T-states on.
pub open spec fn spec_ay_tick(s: Ay3_8891xAudio) -> Ay3_8891xAudio {
    let (env, env_level) = spec_env_update(s.env_control);
    let (noise, noise_low) = spec_noise_update(s.noise_control);
    let (ta, la) = spec_tone_update(s.tone_a);
    let (tb, lb) = spec_tone_update(s.tone_b);
    let (tc, lc) = spec_tone_update(s.tone_c);
    let m0 = s.mixer.0;
    let m1 = m0 >> 1;
    let m2 = m1 >> 1;
    Ay3_8891xAudio {
        current_ts: s.current_ts.wrapping_add(CLOCK_INCREASE),
        last_level_a: spec_chan_level(m0, la, noise_low, s.amp_a, env_level),
        last_level_b: spec_chan_level(m1, lb, noise_low, s.amp_b, env_level),
        last_level_c: spec_chan_level(m2, lc, noise_low, s.amp_c, env_level),
        env_control: env,
        noise_control: noise,
        tone_a: ta,
        tone_b: tb,
        tone_c: tc,
        ..s
    }
}

/// The chip state after the remaining changes are applied, in order,
/// without any further ticking.
pub open spec fn spec_ay_apply_rest(s: Ay3_8891xAudio, changes: Seq<AyRegChange>, i: int) -> Ay3_8891xAudio
    decreases changes.len() - i when i >= 0
{
    if i < changes.len() {
        spec_ay_apply_rest(
            spec_ay_update_register(s, changes[i].reg, changes[i].val),
            changes,
            i + 1,
        )
    } else {
        s
    }
}

/// Rendering one frame, starting at change index `i` with the ticker at
/// `s.current_ts`: while ticks remain before `end`, due changes are
/// applied and the chip ticks; past the end the remaining changes are
/// applied. The `last_level` fields track each tick's output levels and
/// `current_ts` the ticker.
pub open spec fn spec_ay_render(s: Ay3_8891xAudio, changes: Seq<AyRegChange>, i: int, end: int) -> Ay3_8891xAudio
    decreases
            (if end - s.current_ts > 0 {
                end - s.current_ts
            } else {
                0
            }),
            (if changes.len() - i > 0 {
                changes.len() - i
            } else {
                0
            }),
    when i >= 0 && -0x10000 <= s.current_ts < 0x7fffff00
{
    if (s.current_ts as int) < end {
        if i < changes.len() && changes[i].time <= s.current_ts {
            spec_ay_render(
                spec_ay_update_register(s, changes[i].reg, changes[i].val),
                changes,
                i + 1,
                end,
            )
        } else {
            spec_ay_render(spec_ay_tick(s), changes, i, end)
        }
    } else {
        spec_ay_apply_rest(s, changes, i)
    }
}

/// The amplitude steps one frame of rendering emits, walking the same
/// recursion as [`spec_ay_render`] while carrying each channel's
/// running amplitude: every tick whose mixed output level maps to a new
/// amplitude contributes `(channel, tick T-state, amplitude delta)`,
/// the channels in A, B, C order.
pub open spec fn spec_ay_frame_steps<L: AmpLevels>(
    s: Ay3_8891xAudio,
    changes: Seq<AyRegChange>,
    i: int,
    end: int,
    va: i32,
    vb: i32,
    vc: i32,
) -> Seq<(u8, FTs, i32)>
    decreases
            (if end - s.current_ts > 0 {
                end - s.current_ts
            } else {
                0
            }),
            (if changes.len() - i > 0 {
                changes.len() - i
            } else {
                0
            }),
    when i >= 0 && -0x10000 <= s.current_ts < 0x7fffff00
{
    if (s.current_ts as int) < end {
        if i < changes.len() && changes[i].time <= s.current_ts {
            spec_ay_frame_steps::<L>(
                spec_ay_update_register(s, changes[i].reg, changes[i].val),
                changes,
                i + 1,
                end,
                va,
                vb,
                vc,
            )
        } else {
            let s2 = spec_ay_tick(s);
            let na = L::spec_amp_level(s2.last_level_a as u32);
            let nb = L::spec_amp_level(s2.last_level_b as u32);
            let nc = L::spec_amp_level(s2.last_level_c as u32);
            let sa = if na != va {
                seq![(0u8, s.current_ts, (na - va) as i32)]
            } else {
                Seq::<(u8, FTs, i32)>::empty()
            };
            let sb = if nb != vb {
                seq![(1u8, s.current_ts, (nb - vb) as i32)]
            } else {
                Seq::<(u8, FTs, i32)>::empty()
            };
            let sc = if nc != vc {
                seq![(2u8, s.current_ts, (nc - vc) as i32)]
            } else {
                Seq::<(u8, FTs, i32)>::empty()
            };
            sa + sb + sc + spec_ay_frame_steps::<L>(s2, changes, i, end, na, nb, nc)
        }
    } else {
        Seq::<(u8, FTs, i32)>::empty()
    }
}

impl Ay3_8891xAudio {
    /// Returns the chip to its power-on state.
    pub fn reset(&mut self)
        ensures
            *final(self) == spec_ay_default(),
    {
        *self = Default::default();
    }

    fn update_register(&mut self, reg: AyRegister, val: u8)
        ensures
            *final(self) == spec_ay_update_register(*old(self), reg, val),
    {
        match reg {
            AyRegister::ToneFineA => self.tone_a.set_period_fine(val),
            AyRegister::ToneCoarseA => self.tone_a.set_period_coarse(val),
            AyRegister::ToneFineB => self.tone_b.set_period_fine(val),
            AyRegister::ToneCoarseB => self.tone_b.set_period_coarse(val),
            AyRegister::ToneFineC => self.tone_c.set_period_fine(val),
            AyRegister::ToneCoarseC => self.tone_c.set_period_coarse(val),
            AyRegister::NoisePeriod => self.noise_control.set_period(val),
            AyRegister::MixerControl => self.mixer = Mixer(val),
            AyRegister::AmpLevelA => self.amp_a.set(val),
            AyRegister::AmpLevelB => self.amp_b.set(val),
            AyRegister::AmpLevelC => self.amp_c.set(val),
            AyRegister::EnvPerFine => self.env_control.set_period_fine(val),
            AyRegister::EnvPerCoarse => self.env_control.set_period_coarse(val),
            AyRegister::EnvShape => self.env_control.set_shape(val),
            AyRegister::IoA => {},
            AyRegister::IoB => {},
        }
    }

    /// Advances the chip state over one frame of the ordered
    /// register-change log and returns exactly the amplitude steps the
    /// frame emits: `(channel, T-state, delta)` per output change, in
    /// tick order, the channels in A, B, C order within one tick.
    pub fn render_audio_steps<L: AmpLevels>(
        &mut self,
        changes: &Vec<AyRegChange>,
        end_ts: FTs,
    ) -> (r: Vec<(u8, FTs, i32)>)
        requires
            0 <= old(self).current_ts < 0x10000,
            0 <= end_ts <= 0x100000,
        ensures
            *final(self) == ({
                let done = spec_ay_render(*old(self), changes@, 0, end_ts as int);
                Ay3_8891xAudio { current_ts: (done.current_ts - end_ts) as FTs, ..done }
            }),
            r@ == spec_ay_frame_steps::<L>(
                *old(self),
                changes@,
                0,
                end_ts as int,
                L::spec_amp_level(old(self).last_level_a as u32),
                L::spec_amp_level(old(self).last_level_b as u32),
                L::spec_amp_level(old(self).last_level_c as u32),
            ),
            forall|k: int| 0 <= k < r@.len() ==> (#[trigger] r@[k]).0 < 3,
    {
        let mut steps: Vec<(u8, FTs, i32)> = Vec::new();
        let ghost orig = *self;
        let ghost cseq = changes@;
        let mut tick: FTs = self.current_ts;
        let mut i: usize = 0;
        let n = changes.len();
        let mut vol_a: i32 = L::amp_level(self.last_level_a as u32);
        let mut vol_b: i32 = L::amp_level(self.last_level_b as u32);
        let mut vol_c: i32 = L::amp_level(self.last_level_c as u32);
        let ghost full = spec_ay_frame_steps::<L>(
            orig,
            cseq,
            0,
            end_ts as int,
            vol_a,
            vol_b,
            vol_c,
        );
        while tick < end_ts
            invariant
                0 <= tick < 0x100000 + 32,
                i <= n,
                n == cseq.len(),
                0 <= end_ts <= 0x100000,
                cseq == changes@,
                tick == self.current_ts,
                0 <= vol_a,
                0 <= vol_b,
                0 <= vol_c,
                spec_ay_render(*self, cseq, i as int, end_ts as int) == spec_ay_render(
                    orig,
                    cseq,
                    0,
                    end_ts as int,
                ),
                steps@ + spec_ay_frame_steps::<L>(
                    *self,
                    cseq,
                    i as int,
                    end_ts as int,
                    vol_a,
                    vol_b,
                    vol_c,
                ) == full,
                forall|k: int| 0 <= k < steps@.len() ==> (#[trigger] steps@[k]).0 < 3,
            decreases end_ts + CLOCK_INCREASE - tick,
        {
            while i < n && changes[i].time <= tick
                invariant
                    0 <= tick < 0x100000 + 32,
                    i <= n,
                    n == cseq.len(),
                    0 <= end_ts <= 0x100000,
                    cseq == changes@,
                    tick == self.current_ts,
                    tick < end_ts,
                    0 <= vol_a,
                    0 <= vol_b,
                    0 <= vol_c,
                    spec_ay_render(*self, cseq, i as int, end_ts as int) == spec_ay_render(
                        orig,
                        cseq,
                        0,
                        end_ts as int,
                    ),
                    steps@ + spec_ay_frame_steps::<L>(
                        *self,
                        cseq,
                        i as int,
                        end_ts as int,
                        vol_a,
                        vol_b,
                        vol_c,
                    ) == full,
                decreases n - i,
            {
                let change = changes[i];
                let ghost pre = *self;
                self.update_register(change.reg, change.val);
                proof {
                    assert(spec_ay_render(pre, cseq, i as int, end_ts as int) == spec_ay_render(
                        *self,
                        cseq,
                        i as int + 1,
                        end_ts as int,
                    ));
                    assert(spec_ay_frame_steps::<L>(
                        pre,
                        cseq,
                        i as int,
                        end_ts as int,
                        vol_a,
                        vol_b,
                        vol_c,
                    ) == spec_ay_frame_steps::<L>(
                        *self,
                        cseq,
                        i as int + 1,
                        end_ts as int,
                        vol_a,
                        vol_b,
                        vol_c,
                    ));
                }
                i = i + 1;
            }
            let ghost pre = *self;
            let env_level = self.env_control.update_level();
            let noise_low = self.noise_control.update_is_low();
            let tone_low_a = self.tone_a.update_is_low();
            let tone_low_b = self.tone_b.update_is_low();
            let tone_low_c = self.tone_c.update_is_low();
            let mut m = self.mixer;
            let lvl_a = if (m.has_tone() && tone_low_a) || (m.has_noise() && noise_low) {
                0u8
            } else if self.amp_a.is_env_control() {
                env_level
            } else {
                self.amp_a.0
            };
            m.next_chan();
            let lvl_b = if (m.has_tone() && tone_low_b) || (m.has_noise() && noise_low) {
                0u8
            } else if self.amp_b.is_env_control() {
                env_level
            } else {
                self.amp_b.0
            };
            m.next_chan();
            let lvl_c = if (m.has_tone() && tone_low_c) || (m.has_noise() && noise_low) {
                0u8
            } else if self.amp_c.is_env_control() {
                env_level
            } else {
                self.amp_c.0
            };
            self.last_level_a = lvl_a;
            self.last_level_b = lvl_b;
            self.last_level_c = lvl_c;
            self.current_ts = tick + CLOCK_INCREASE;
            proof {
                assert(*self == spec_ay_tick(pre));
                assert(spec_ay_render(pre, cseq, i as int, end_ts as int) == spec_ay_render(
                    *self,
                    cseq,
                    i as int,
                    end_ts as int,
                ));
            }
            let ghost presteps = steps@;
            let ghost pre_va = vol_a;
            let ghost pre_vb = vol_b;
            let ghost pre_vc = vol_c;
            let va = L::amp_level(lvl_a as u32);
            let ghost sa = if va != vol_a {
                seq![(0u8, tick, (va - vol_a) as i32)]
            } else {
                Seq::<(u8, FTs, i32)>::empty()
            };
            if va != vol_a {
                steps.push((0, tick, va - vol_a));
                vol_a = va;
            }
            proof {
                assert(steps@ =~= presteps + sa);
            }
            let vb = L::amp_level(lvl_b as u32);
            let ghost sb = if vb != vol_b {
                seq![(1u8, tick, (vb - vol_b) as i32)]
            } else {
                Seq::<(u8, FTs, i32)>::empty()
            };
            if vb != vol_b {
                steps.push((1, tick, vb - vol_b));
                vol_b = vb;
            }
            proof {
                assert(steps@ =~= presteps + sa + sb);
            }
            let vc = L::amp_level(lvl_c as u32);
            let ghost sc = if vc != vol_c {
                seq![(2u8, tick, (vc - vol_c) as i32)]
            } else {
                Seq::<(u8, FTs, i32)>::empty()
            };
            if vc != vol_c {
                steps.push((2, tick, vc - vol_c));
                vol_c = vc;
            }
            proof {
                assert(steps@ =~= presteps + sa + sb + sc);
                assert(spec_ay_frame_steps::<L>(
                    pre,
                    cseq,
                    i as int,
                    end_ts as int,
                    pre_va,
                    pre_vb,
                    pre_vc,
                ) == sa + sb + sc + spec_ay_frame_steps::<L>(
                    *self,
                    cseq,
                    i as int,
                    end_ts as int,
                    vol_a,
                    vol_b,
                    vol_c,
                ));
                assert(presteps + (sa + sb + sc + spec_ay_frame_steps::<L>(
                    *self,
                    cseq,
                    i as int,
                    end_ts as int,
                    vol_a,
                    vol_b,
                    vol_c,
                )) =~= presteps + sa + sb + sc + spec_ay_frame_steps::<L>(
                    *self,
                    cseq,
                    i as int,
                    end_ts as int,
                    vol_a,
                    vol_b,
                    vol_c,
                ));
            }
            tick = tick + CLOCK_INCREASE;
        }
        while i < n
            invariant
                i <= n,
                n == cseq.len(),
                cseq == changes@,
                tick == self.current_ts,
                tick >= end_ts,
                0 <= tick < 0x100000 + 32,
                spec_ay_render(*self, cseq, i as int, end_ts as int) == spec_ay_render(
                    orig,
                    cseq,
                    0,
                    end_ts as int,
                ),
                steps@ == full,
                forall|k: int| 0 <= k < steps@.len() ==> (#[trigger] steps@[k]).0 < 3,
            decreases n - i,
        {
            let change = changes[i];
            let ghost pre = *self;
            self.update_register(change.reg, change.val);
            proof {
                assert(spec_ay_render(pre, cseq, i as int, end_ts as int) == spec_ay_apply_rest(
                    pre,
                    cseq,
                    i as int,
                ));
                assert(spec_ay_render(*self, cseq, i as int + 1, end_ts as int)
                    == spec_ay_apply_rest(*self, cseq, i as int + 1));
                assert(spec_ay_apply_rest(pre, cseq, i as int) == spec_ay_apply_rest(
                    *self,
                    cseq,
                    i as int + 1,
                ));
            }
            i = i + 1;
        }
        proof {
            assert(spec_ay_render(*self, cseq, i as int, end_ts as int) == *self);
        }
        self.current_ts = tick - end_ts;
        steps
    }

    /// Renders one frame of band-limited steps into the sink, mutating
    /// the chip state; call once per frame. `changes` is the ordered
    /// register-change log, `end_ts` the frame's end in T-states, and
    /// `chans` maps the AY channels A, B, C to sink channels. The sink
    /// is handed exactly the steps of [`Ay3_8891xAudio::render_audio_steps`],
    /// in order, each on its mapped channel.
    pub fn render_audio<L: AmpLevels, A: Blep>(
        &mut self,
        changes: &Vec<AyRegChange>,
        blep: &mut A,
        end_ts: FTs,
        chans: [usize; 3],
    )
        requires
            0 <= old(self).current_ts < 0x10000,
            0 <= end_ts <= 0x100000,
        ensures
            *final(self) == ({
                let done = spec_ay_render(*old(self), changes@, 0, end_ts as int);
                Ay3_8891xAudio { current_ts: (done.current_ts - end_ts) as FTs, ..done }
            }),
    {
        let steps = self.render_audio_steps::<L>(changes, end_ts);
        let n = steps.len();
        let mut k: usize = 0;
        while k < n
            invariant
                k <= n,
                n == steps@.len(),
                forall|j: int| 0 <= j < steps@.len() ==> (#[trigger] steps@[j]).0 < 3,
            decreases n - k,
        {
            let (chan, time, delta) = steps[k];
            blep.add_step(chans[chan as usize], time, delta);
            k = k + 1;
        }
    }
}

} // verus!
