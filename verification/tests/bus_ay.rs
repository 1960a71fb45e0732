//! The AY-3-891x bus device: port decoding, the change recorder, and
//! rendering the recorded changes.

use spectrusty::audio::AyAmpLevels;
use spectrusty::audio::Blep;
use spectrusty::bus::ay::Ay3_891xBusDevice;
use spectrusty::bus::{BusDevice, NullDevice};
use spectrusty::clock::FTs;
use spectrusty::audio::ay::AyAudioFrame;
use spectrusty::bus::ay::Ay3_891xMelodik;
use spectrusty::chip::ula::Ula;
use spectrusty::clock::VideoTs;
use spectrusty::peripherals::ay::Ay128kPortDecode;
use spectrusty::video::UlaVideoFrame;

struct TestBlep {
    steps: Vec<(usize, i32, i32)>,
}

impl Blep for TestBlep {
    fn ensure_frame_time(&mut self, _sample_rate: u32, _ts_per_second: u32, _frame_ts: i32, _margin_ts: i32) {}
    fn add_step(&mut self, channel: usize, time: i32, delta: i32) {
        self.steps.push((channel, time, delta));
    }
}

type AyDev = Ay3_891xBusDevice<FTs, Ay128kPortDecode, NullDevice<FTs>>;

#[test]
fn ay_bus_device_records_and_reads_registers() {
    let mut ay: AyDev = Ay3_891xBusDevice::default();
    // Select register 8 (channel A amplitude) and write 15 to it.
    assert_eq!(ay.write_io(0xfffd, 8, 10), Some(0));
    assert_eq!(ay.write_io(0xbffd, 15, 20), Some(0));
    // Reading the data port returns the stored value.
    assert_eq!(ay.read_io(0xfffd, 30), Some((15, None)));
    // An undecoded port falls through the chain.
    assert_eq!(ay.write_io(0x0001, 1, 40), None);
    assert_eq!(ay.read_io(0x0001, 50), None);
    assert_eq!(ay.ay_io.recorder.len(), 1);
    assert_eq!(ay.ay_io.recorder[0].reg, 8);
    assert_eq!(ay.ay_io.recorder[0].val, 15);
    assert_eq!(ay.ay_io.recorder[0].ts, 20);
}

#[test]
fn ay_bus_device_renders_recorded_changes() {
    let mut ay: AyDev = Ay3_891xBusDevice::default();
    // Mute tone and noise, then raise channel C's amplitude.
    assert_eq!(ay.write_io(0xfffd, 7, 0), Some(0));
    assert_eq!(ay.write_io(0xbffd, 0xff, 0), Some(0));
    assert_eq!(ay.write_io(0xfffd, 10, 0), Some(0));
    assert_eq!(ay.write_io(0xbffd, 15, 32), Some(0));
    let mut blep = TestBlep { steps: Vec::new() };
    ay.render_ay_audio::<AyAmpLevels, TestBlep>(&mut blep, 1024, [0, 1, 2]);
    assert_eq!(ay.ay_io.recorder.len(), 0);
    assert_eq!(blep.steps.len(), 1);
    assert_eq!(blep.steps[0].0, 2);
    assert_eq!(blep.steps[0].1, 32);
    assert!(blep.steps[0].2 > 0);
}

#[test]
fn ay_bus_device_reset_restores_power_on_state() {
    let mut ay: AyDev = Ay3_891xBusDevice::default();
    assert_eq!(ay.write_io(0xfffd, 8, 0), Some(0));
    assert_eq!(ay.write_io(0xbffd, 12, 0), Some(0));
    ay.reset(0);
    assert_eq!(ay.read_io(0xfffd, 0), Some((0, None)));
    assert_eq!(ay.ay_sound.amp_a.0, 0);
}

#[test]
fn ula_renders_ay_audio_through_the_chain() {
    let mut ula: Ula<Ay3_891xMelodik<NullDevice<VideoTs>>, UlaVideoFrame> = Ula::default();
    // Program the AY through the bus: mute tone and noise, then raise
    // channel A's amplitude mid-frame.
    assert_eq!(ula.bus.write_io(0xfffd, 7, VideoTs::new(0, 0)), Some(0));
    assert_eq!(ula.bus.write_io(0xbffd, 0xff, VideoTs::new(0, 0)), Some(0));
    assert_eq!(ula.bus.write_io(0xfffd, 8, VideoTs::new(0, 10)), Some(0));
    assert_eq!(ula.bus.write_io(0xbffd, 15, VideoTs::new(10, 0)), Some(0));
    ula.set_video_ts(VideoTs::new(312, 0));
    let mut blep = TestBlep { steps: Vec::new() };
    ula.render_ay_audio_frame::<AyAmpLevels>(&mut blep, [0, 1, 2]);
    assert_eq!(ula.bus.ay_io.recorder.len(), 0);
    assert_eq!(blep.steps.len(), 1);
    assert_eq!(blep.steps[0].0, 0);
    // The change at scan line 10 lands on the next 32-T-state tick.
    assert_eq!(blep.steps[0].1, 2240);
    assert!(blep.steps[0].2 > 0);
}
