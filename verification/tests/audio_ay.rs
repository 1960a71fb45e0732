//! The AY-3-891x synthesizer: the envelope generator's shapes and the
//! frame renderer.

use spectrusty::audio::ay::{
    Ay3_8891xAudio, AyRegChange, AyRegister, ENV_LEVEL_MASK, ENV_LEVEL_MOD_MASK,
    ENV_LEVEL_REV_MASK, ENV_SHAPE_ALT_MASK, ENV_SHAPE_ATTACK_MASK, ENV_SHAPE_CONT_MASK,
    ENV_SHAPE_HOLD_MASK,
};
use spectrusty::audio::ay::ToneControl;
use spectrusty::audio::{AmpLevels, AyAmpLevels, AyAmpLevels16, Blep};

#[test]
fn ay_3_889x_env_works() {
    let mut ay = Ay3_8891xAudio::default();

    for shape in [
        0,
        ENV_SHAPE_ALT_MASK,
        ENV_SHAPE_HOLD_MASK,
        ENV_SHAPE_ALT_MASK | ENV_SHAPE_HOLD_MASK,
        ENV_SHAPE_CONT_MASK | ENV_SHAPE_HOLD_MASK,
    ]
    .iter()
    .copied()
    {
        ay.env_control.set_shape(shape);
        assert_eq!(ay.env_control.tick, 0);
        assert_eq!(ay.env_control.cycle, shape);
        assert_eq!(ay.env_control.level, ENV_LEVEL_REV_MASK | ENV_LEVEL_MOD_MASK | ENV_LEVEL_MASK);
        ay.env_control.set_period(0);
        assert_eq!(ay.env_control.period, 1);
        for exp_level in (0..=15).rev() {
            assert_eq!(ay.env_control.update_level(), exp_level);
            assert_eq!(ay.env_control.tick, 1);
        }
        for _ in 0..100 {
            assert_eq!(ay.env_control.tick, 1);
            assert_eq!(ay.env_control.update_level(), 0);
        }
    }

    for shape in [
        0,
        ENV_SHAPE_ALT_MASK,
        ENV_SHAPE_HOLD_MASK,
        ENV_SHAPE_ALT_MASK | ENV_SHAPE_HOLD_MASK,
        ENV_SHAPE_CONT_MASK | ENV_SHAPE_ATTACK_MASK | ENV_SHAPE_ALT_MASK | ENV_SHAPE_HOLD_MASK,
    ]
    .iter()
    .copied()
    {
        ay.env_control.set_shape(shape | ENV_SHAPE_ATTACK_MASK);
        assert_eq!(ay.env_control.tick, 0);
        assert_eq!(ay.env_control.cycle, shape | ENV_SHAPE_ATTACK_MASK);
        assert_eq!(ay.env_control.level, ENV_LEVEL_MOD_MASK);
        ay.env_control.set_period(0);
        assert_eq!(ay.env_control.period, 1);
        for exp_level in 0..=15 {
            assert_eq!(ay.env_control.update_level(), exp_level);
            assert_eq!(ay.env_control.level, ENV_LEVEL_MOD_MASK | exp_level);
            assert_eq!(ay.env_control.tick, 1);
        }
        for _ in 0..100 {
            assert_eq!(ay.env_control.tick, 1);
            assert_eq!(ay.env_control.update_level(), 0);
            assert_eq!(ay.env_control.level, 0);
        }
    }

    ay.env_control.set_shape(ENV_SHAPE_CONT_MASK);
    assert_eq!(ay.env_control.tick, 0);
    assert_eq!(ay.env_control.cycle, ENV_SHAPE_CONT_MASK);
    assert_eq!(ay.env_control.level, ENV_LEVEL_REV_MASK | ENV_LEVEL_MOD_MASK | ENV_LEVEL_MASK);
    ay.env_control.set_period(0);
    assert_eq!(ay.env_control.period, 1);
    for _ in 0..10 {
        for exp_level in (0..=15).rev() {
            assert_eq!(ay.env_control.update_level(), exp_level);
            assert_eq!(ay.env_control.level, ENV_LEVEL_REV_MASK | ENV_LEVEL_MOD_MASK | exp_level);
            assert_eq!(ay.env_control.tick, 1);
        }
    }

    ay.env_control.set_shape(ENV_SHAPE_CONT_MASK | ENV_SHAPE_ALT_MASK);
    assert_eq!(ay.env_control.tick, 0);
    assert_eq!(ay.env_control.cycle, ENV_SHAPE_CONT_MASK | ENV_SHAPE_ALT_MASK);
    assert_eq!(ay.env_control.level, ENV_LEVEL_REV_MASK | ENV_LEVEL_MOD_MASK | ENV_LEVEL_MASK);
    ay.env_control.set_period(0);
    assert_eq!(ay.env_control.period, 1);
    for _ in 0..10 {
        for exp_level in (0..=15).rev() {
            assert_eq!(ay.env_control.update_level(), exp_level);
            assert_eq!(ay.env_control.level, ENV_LEVEL_REV_MASK | ENV_LEVEL_MOD_MASK | exp_level);
            assert_eq!(ay.env_control.tick, 1);
        }
        for exp_level in 0..=15 {
            assert_eq!(ay.env_control.update_level(), exp_level);
            assert_eq!(ay.env_control.level, ENV_LEVEL_MOD_MASK | exp_level);
            assert_eq!(ay.env_control.tick, 1);
        }
    }

    ay.env_control.set_shape(ENV_SHAPE_CONT_MASK | ENV_SHAPE_ALT_MASK | ENV_SHAPE_HOLD_MASK);
    assert_eq!(ay.env_control.tick, 0);
    assert_eq!(
        ay.env_control.cycle,
        ENV_SHAPE_CONT_MASK | ENV_SHAPE_ALT_MASK | ENV_SHAPE_HOLD_MASK
    );
    assert_eq!(ay.env_control.level, ENV_LEVEL_REV_MASK | ENV_LEVEL_MOD_MASK | ENV_LEVEL_MASK);
    ay.env_control.set_period(0);
    assert_eq!(ay.env_control.period, 1);
    for exp_level in (0..=15).rev() {
        assert_eq!(ay.env_control.update_level(), exp_level);
        assert_eq!(ay.env_control.level, ENV_LEVEL_REV_MASK | ENV_LEVEL_MOD_MASK | exp_level);
        assert_eq!(ay.env_control.tick, 1);
    }
    for _ in 0..100 {
        assert_eq!(ay.env_control.tick, 1);
        assert_eq!(ay.env_control.update_level(), 15);
        assert_eq!(ay.env_control.level, ENV_LEVEL_REV_MASK | 15);
    }

    ay.env_control.set_shape(ENV_SHAPE_CONT_MASK | ENV_SHAPE_ATTACK_MASK);
    assert_eq!(ay.env_control.tick, 0);
    assert_eq!(ay.env_control.cycle, ENV_SHAPE_CONT_MASK | ENV_SHAPE_ATTACK_MASK);
    assert_eq!(ay.env_control.level, ENV_LEVEL_MOD_MASK);
    ay.env_control.set_period(0);
    assert_eq!(ay.env_control.period, 1);
    for _ in 0..10 {
        for exp_level in 0..=15 {
            assert_eq!(ay.env_control.update_level(), exp_level);
            assert_eq!(ay.env_control.level, ENV_LEVEL_MOD_MASK | exp_level);
            assert_eq!(ay.env_control.tick, 1);
        }
    }

    ay.env_control.set_shape(ENV_SHAPE_CONT_MASK | ENV_SHAPE_ATTACK_MASK | ENV_SHAPE_HOLD_MASK);
    assert_eq!(ay.env_control.tick, 0);
    assert_eq!(
        ay.env_control.cycle,
        ENV_SHAPE_CONT_MASK | ENV_SHAPE_ATTACK_MASK | ENV_SHAPE_HOLD_MASK
    );
    assert_eq!(ay.env_control.level, ENV_LEVEL_MOD_MASK);
    ay.env_control.set_period(0);
    assert_eq!(ay.env_control.period, 1);
    for exp_level in 0..=15 {
        assert_eq!(ay.env_control.update_level(), exp_level);
        assert_eq!(ay.env_control.level, ENV_LEVEL_MOD_MASK | exp_level);
        assert_eq!(ay.env_control.tick, 1);
    }
    for _ in 0..100 {
        assert_eq!(ay.env_control.tick, 1);
        assert_eq!(ay.env_control.update_level(), 15);
        assert_eq!(ay.env_control.level, 15);
    }

    ay.env_control.set_shape(ENV_SHAPE_CONT_MASK | ENV_SHAPE_ATTACK_MASK | ENV_SHAPE_ALT_MASK);
    assert_eq!(ay.env_control.tick, 0);
    assert_eq!(
        ay.env_control.cycle,
        ENV_SHAPE_CONT_MASK | ENV_SHAPE_ATTACK_MASK | ENV_SHAPE_ALT_MASK
    );
    assert_eq!(ay.env_control.level, ENV_LEVEL_MOD_MASK);
    ay.env_control.set_period(0);
    assert_eq!(ay.env_control.period, 1);
    for _ in 0..10 {
        for exp_level in 0..=15 {
            assert_eq!(ay.env_control.update_level(), exp_level);
            assert_eq!(ay.env_control.level, ENV_LEVEL_MOD_MASK | exp_level);
            assert_eq!(ay.env_control.tick, 1);
        }
        for exp_level in (0..=15).rev() {
            assert_eq!(ay.env_control.update_level(), exp_level);
            assert_eq!(ay.env_control.level, ENV_LEVEL_REV_MASK | ENV_LEVEL_MOD_MASK | exp_level);
            assert_eq!(ay.env_control.tick, 1);
        }
    }
}

struct TestBlep {
    steps: Vec<(usize, i32, i32)>,
}

impl Blep for TestBlep {
    fn ensure_frame_time(&mut self, _sample_rate: u32, _ts_per_second: u32, _frame_ts: i32, _margin_ts: i32) {}
    fn add_step(&mut self, channel: usize, time: i32, delta: i32) {
        self.steps.push((channel, time, delta));
    }
}

#[test]
fn ay_render_emits_steps_for_amp_change() {
    let mut ay = Ay3_8891xAudio::default();
    let mut blep = TestBlep { steps: Vec::new() };
    // Raise channel A's fixed amplitude to 15 at T-state 64, with the
    // mixer muting tone and noise (all mixer bits set).
    let changes = vec![
        AyRegChange::new(0, AyRegister::MixerControl, 0xff),
        AyRegChange::new(64, AyRegister::AmpLevelA, 15),
    ];
    ay.render_audio::<AyAmpLevels, TestBlep>(&changes, &mut blep, 1024, [0, 1, 2]);
    assert_eq!(ay.amp_a.0, 15);
    assert_eq!(ay.mixer.0, 0xff);
    assert_eq!(blep.steps.len(), 1);
    let (chan, time, delta) = blep.steps[0];
    assert_eq!(chan, 0);
    assert_eq!(time, 64);
    assert_eq!(delta, 0x7fffffff);
    assert_eq!(ay.last_level_a, 15);
    assert_eq!(ay.current_ts, 0);
}

#[test]
fn ay_render_applies_late_changes_without_audio() {
    let mut ay = Ay3_8891xAudio::default();
    let mut blep = TestBlep { steps: Vec::new() };
    // A change past the frame end reaches the registers but makes no sound.
    let changes = vec![AyRegChange::new(5000, AyRegister::AmpLevelB, 9)];
    ay.render_audio::<AyAmpLevels, TestBlep>(&changes, &mut blep, 1024, [0, 1, 2]);
    assert_eq!(ay.amp_b.0, 9);
    assert_eq!(blep.steps.len(), 0);
}

#[test]
fn ay_tone_period_update_silences_short_periods() {
    let mut tone = ToneControl::default();
    tone.set_period(3);
    assert_eq!(tone.period, 3);
    // Below the threshold the channel output is forced high.
    for _ in 0..10 {
        assert_eq!(tone.update_is_low(), false);
    }
    tone.set_period(0);
    assert_eq!(tone.period, 1);
    tone.set_period(0x1234);
    assert_eq!(tone.period, 0x234);
}

#[test]
fn amp_level_tables_are_monotone() {
    let mut prev32 = -1;
    let mut prev16 = -1;
    for level in 0..16u32 {
        let a32 = AyAmpLevels::amp_level(level);
        let a16 = AyAmpLevels16::amp_level(level);
        assert!(a32 > prev32);
        assert!(a16 > prev16);
        assert!(a16 <= 0x7fff);
        prev32 = a32;
        prev16 = a16;
    }
    assert_eq!(AyAmpLevels::amp_level(15), 0x7fffffff);
    assert_eq!(AyAmpLevels::amp_level(31), 0x7fffffff);
    assert_eq!(AyAmpLevels16::amp_level(15), 0x7fff);
}

#[test]
fn ay_render_hands_the_sink_its_computed_steps() {
    // The sink receives exactly the step list render_audio_steps
    // computes, each on its mapped channel.
    let mut ay = Ay3_8891xAudio::default();
    let changes = vec![
        AyRegChange::new(0, AyRegister::MixerControl, 0xff),
        AyRegChange::new(64, AyRegister::AmpLevelA, 15),
        AyRegChange::new(128, AyRegister::AmpLevelB, 9),
        AyRegChange::new(256, AyRegister::AmpLevelA, 0),
    ];
    let mut twin = ay;
    let steps = twin.render_audio_steps::<AyAmpLevels>(&changes, 1024);
    let mut blep = TestBlep { steps: Vec::new() };
    let chans = [5usize, 6, 7];
    ay.render_audio::<AyAmpLevels, TestBlep>(&changes, &mut blep, 1024, chans);
    assert_eq!(ay, twin);
    assert_eq!(blep.steps.len(), steps.len());
    for (got, want) in blep.steps.iter().zip(steps.iter()) {
        assert_eq!(got.0, chans[want.0 as usize]);
        assert_eq!(got.1, want.1);
        assert_eq!(got.2, want.2);
    }
    assert!(steps.len() >= 3);
}

#[test]
fn ay_register_from_u8_masks_to_sixteen() {
    assert_eq!(AyRegister::from_u8(0), AyRegister::ToneFineA);
    assert_eq!(AyRegister::from_u8(13), AyRegister::EnvShape);
    assert_eq!(AyRegister::from_u8(16), AyRegister::ToneFineA);
    assert_eq!(AyRegister::from_u8(29), AyRegister::EnvShape);
    for v in 0..16u8 {
        assert_eq!(AyRegister::from_u8(v).index(), v);
    }
}
