//! The ULA engine: frame lifecycle, the event logs, the halted-state
//! fast-forward, and the frame caches.

use spectrusty::audio::AyAmpLevels;
use spectrusty::bus::NullDevice;
use spectrusty::chip::ula::{
    execute_halted_state_until_eof, CPU_HZ, M1_CYCLE_TS, Ula,
};
use spectrusty::clock::VideoTs;
use spectrusty::video::{
    BorderSize, MemoryContention, UlaMemoryContention, UlaVideoFrame, VideoFrame,
};

type TestUla = Ula<NullDevice<VideoTs>, UlaVideoFrame>;

#[test]
fn test_ula() {
    let ula = TestUla::default();
    assert_eq!(UlaVideoFrame::frame_tstates_count(), 69888);
    assert_eq!(ula.cpu_clock_rate(), CPU_HZ);
    assert_eq!(ula.cpu_clock_rate(), 3_500_000);
    assert_eq!(ula.frame_duration_nanos() as u64, 69888u64 * 1_000_000_000 / 3_500_000);
}

#[test]
fn frame_boundary_triggers_prepare_before_execution() {
    let mut ula = TestUla::default();
    ula.set_video_ts(VideoTs::new(312, 0));
    assert!(ula.is_frame_over());
    assert_eq!(ula.current_frame(), 0);
    ula.ensure_next_frame();
    // The next frame was prepared before anything else could run.
    assert_eq!(ula.current_frame(), 1);
    assert_eq!(ula.video_ts(), VideoTs::new(0, 0));
    assert!(!ula.is_frame_over());
    // Within a live frame nothing happens.
    ula.ensure_next_frame();
    assert_eq!(ula.current_frame(), 1);
}

#[test]
fn border_and_earmic_logs_stay_ordered() {
    let mut ula = TestUla::default();
    ula.set_video_ts(VideoTs::new(10, 0));
    assert!(ula.write_io(0xfe, 0b0001_0010));
    ula.set_video_ts(VideoTs::new(20, 5));
    assert!(ula.write_io(0xfe, 0b0000_1101));
    assert!(!ula.write_io(0xff, 0));
    assert_eq!(ula.border_out_changes.len(), 2);
    assert_eq!(ula.border_out_changes[0].vts, VideoTs::new(10, 0));
    assert_eq!(ula.border_out_changes[0].data, 2);
    assert_eq!(ula.border_out_changes[1].vts, VideoTs::new(20, 5));
    assert_eq!(ula.border_out_changes[1].data, 5);
    assert_eq!(ula.earmic_out_changes.len(), 2);
    assert_eq!(ula.earmic_out_changes[0].data, 0b10);
    assert_eq!(ula.earmic_out_changes[1].data, 0b01);
    for w in ula.border_out_changes.windows(2) {
        assert!(w[0].vts.vc < w[1].vts.vc || (w[0].vts.vc == w[1].vts.vc && w[0].vts.hc <= w[1].vts.hc));
    }
    assert_eq!(ula.border_color(), 5);
}

#[test]
fn keyboard_read_combines_selected_rows() {
    let mut ula = TestUla::default();
    // No keys pressed: all five key lines idle high, EAR input low.
    assert_eq!(ula.read_ula_port(0xfefe), 0xbf);
    // Key A (row 1, bit 0) pressed, selected by the low half-row mask.
    ula.keyboard = 0b00001 << 5;
    assert_eq!(ula.read_ula_port(0xfdfe), 0xbe);
    // The same key is invisible through other half-rows.
    assert_eq!(ula.read_ula_port(0xfefe), 0xbf);
}

#[test]
fn ear_in_log_compacts_at_frame_end() {
    let mut ula = TestUla::default();
    // Two EAR input changes: one within this frame, one within the next.
    ula.set_ear_in(true, 100);
    ula.set_ear_in(false, 69888);
    assert_eq!(ula.ear_in_changes.len(), 2);
    ula.set_video_ts(VideoTs::new(312, 0));
    ula.prepare_next_frame();
    // The consumed change is gone; the pending one moved one frame back.
    assert_eq!(ula.ear_in_changes.len(), 1);
    let kept = ula.ear_in_changes[0];
    assert_eq!(kept.data, 0);
    assert!(kept.vts.vc >= 0);
    assert!(kept.vts.vc < 312);
    assert_eq!(ula.current_frame(), 1);
}

#[test]
fn halted_fast_forward_matches_single_stepping() {
    // The fast-forward must land exactly where stepping M1 cycle by M1
    // cycle through the halted state lands, for contended and
    // uncontended fetch addresses alike.
    let samples = [0i16, 15, 63, 64, 65, 100, 191, 255, 256, 311];
    for pc in [0x0000u16, 0x4000] {
        for vc in samples {
            for hc in -69i16..155 {
                let (end, r_incr) =
                    execute_halted_state_until_eof::<UlaVideoFrame, UlaMemoryContention>(
                        VideoTs::new(vc, hc),
                        pc,
                    );
                let (mut wvc, mut whc) = (vc, hc);
                let mut steps: u32 = 0;
                while !(wvc >= 312 && whc >= 0) {
                    let mut h = whc;
                    if UlaMemoryContention::is_contended_address(pc) && (64..256).contains(&wvc) {
                        h = UlaVideoFrame::contention(h);
                    }
                    h += M1_CYCLE_TS;
                    if h >= 155 {
                        wvc += 1;
                        whc = h - 224;
                    } else {
                        whc = h;
                    }
                    steps += 1;
                }
                assert_eq!(end, VideoTs::new(wvc, whc), "pc {} vc {} hc {}", pc, vc, hc);
                assert_eq!(r_incr, steps, "pc {} vc {} hc {}", pc, vc, hc);
            }
        }
    }
}

#[test]
fn screen_writes_reach_the_frame_cache() {
    let mut ula = TestUla::default();
    ula.set_video_ts(VideoTs::new(70, 3));
    ula.write_mem(0x4000, 0xaa);
    ula.write_mem(0x5800, 0x47);
    ula.write_mem(0x8000, 0x12);
    ula.write_mem(0x0000, 0x99);
    assert_eq!(ula.read_mem(0x4000), 0xaa);
    assert_eq!(ula.read_mem(0x5800), 0x47);
    assert_eq!(ula.read_mem(0x8000), 0x12);
    // ROM stays read-only.
    assert_eq!(ula.read_mem(0x0000), 0x00);
    assert_eq!(ula.frame_cache.pixels[0], Some((70, 0xaa)));
    assert_eq!(ula.frame_cache.colors[0], Some((70, 0x47)));
    let renderer = ula.create_renderer(BorderSize::Full);
    assert_eq!(renderer.screen[0], 0xaa);
    assert_eq!(renderer.screen[0x1800], 0x47);
    assert_eq!(renderer.border, 7);
    assert!(!renderer.invert_flash);
    assert_eq!(ula.border_out_changes.len(), 0);
}

#[test]
fn mic_pulses_span_earmic_changes() {
    let mut ula = TestUla::default();
    ula.set_video_ts(VideoTs::new(0, 0));
    assert!(ula.write_io(0xfe, 0b0000_1000));
    ula.set_video_ts(VideoTs::new(0, 100));
    assert!(ula.write_io(0xfe, 0b0000_0000));
    let mut pulses = ula.mic_out_iter_pulses();
    // The first pulse spans from the remembered previous edge; with
    // none recorded it saturates.
    assert_eq!(pulses.next::<UlaVideoFrame>(), Some(u32::MAX));
    assert_eq!(pulses.next::<UlaVideoFrame>(), Some(100));
    assert_eq!(pulses.next::<UlaVideoFrame>(), None);
}

#[test]
fn fed_ear_in_changes_alternate_and_stop_at_threshold() {
    let mut ula = TestUla::default();
    let deltas = vec![100u32, 200, 300, 69888];
    ula.feed_ear_in(&deltas, None);
    assert_eq!(ula.ear_in_changes.len(), 4);
    assert_eq!(ula.ear_in_changes[0].vts, VideoTs::new(0, 100));
    assert_eq!(ula.ear_in_changes[0].data, 1);
    assert_eq!(ula.ear_in_changes[1].vts, VideoTs::new(1, 76));
    assert_eq!(ula.ear_in_changes[1].data, 0);
    assert_eq!(ula.ear_in_changes[2].data, 1);
    assert_eq!(ula.ear_in_changes[3].data, 0);
    // With a one-frame threshold the feed stops at the first change
    // past the frame.
    let mut ula = TestUla::default();
    ula.feed_ear_in(&deltas, Some(1));
    assert_eq!(ula.ear_in_changes.len(), 4);
    let mut ula = TestUla::default();
    let deltas = vec![100u32, 69888, 100, 100];
    ula.feed_ear_in(&deltas, Some(1));
    // The feed stops once a change crosses the one-frame threshold.
    assert_eq!(ula.ear_in_changes.len(), 3);
    assert_eq!(ula.ear_in_changes[2].vts, VideoTs::new(313, -24));
    ula.purge_ear_in_changes(true);
    assert_eq!(ula.ear_in_changes.len(), 0);
    assert_eq!(ula.prev_ear_in, 1);
}

struct TestBlep {
    steps: Vec<(usize, i32, i32)>,
    frame_ts: i32,
}

impl spectrusty::audio::Blep for TestBlep {
    fn ensure_frame_time(&mut self, _sample_rate: u32, _ts_per_second: u32, frame_ts: i32, _margin_ts: i32) {
        self.frame_ts = frame_ts;
    }
    fn add_step(&mut self, channel: usize, time: i32, delta: i32) {
        self.steps.push((channel, time, delta));
    }
}

#[test]
fn earmic_frame_renders_amplitude_steps() {
    let mut ula = TestUla::default();
    ula.set_video_ts(VideoTs::new(10, 0));
    assert!(ula.write_io(0xfe, 0b0001_0000));
    ula.set_video_ts(VideoTs::new(20, 0));
    assert!(ula.write_io(0xfe, 0b0000_0000));
    ula.set_video_ts(VideoTs::new(312, 0));
    let mut blep = TestBlep { steps: Vec::new(), frame_ts: 0 };
    ula.ensure_audio_frame_time(&mut blep, 44100);
    assert_eq!(blep.frame_ts, 69888);
    assert_eq!(ula.get_audio_frame_end_time(), 69888);
    ula.render_earmic_out_audio_frame::<AyAmpLevels, TestBlep>(&mut blep, 0);
    // The EAR bit rising at line 10 and falling at line 20 makes two
    // opposite steps at those T-states.
    assert_eq!(blep.steps.len(), 2);
    assert_eq!(blep.steps[0].1, 10 * 224);
    assert!(blep.steps[0].2 > 0);
    assert_eq!(blep.steps[1].1, 20 * 224);
    assert_eq!(blep.steps[1].2, -blep.steps[0].2);
    // The EAR input was quiet: no steps.
    let n = blep.steps.len();
    ula.render_ear_in_audio_frame::<AyAmpLevels, TestBlep>(&mut blep, 1);
    assert_eq!(blep.steps.len(), n);
    // The sink received exactly the computed step list.
    let expected = spectrusty::audio::frame_audio_steps::<UlaVideoFrame, _, AyAmpLevels>(
        0,
        None,
        &ula.earmic_out_changes,
    );
    assert_eq!(expected.len(), 2);
    for (got, want) in blep.steps.iter().zip(expected.iter()) {
        assert_eq!(got.0, 0);
        assert_eq!(got.1, want.0);
        assert_eq!(got.2, want.1);
    }
}
