//! The 128k ULA: screen paging, the shadow frame cache and renderer.

use spectrusty::bus::NullDevice;
use spectrusty::chip::ula128::Ula128;
use spectrusty::clock::VideoTs;
use spectrusty::video::BorderSize;

type TestUla128 = Ula128<NullDevice<VideoTs>>;

#[test]
fn page3_writes_follow_screen_paging() {
    let mut ula = TestUla128::default();
    let ts = VideoTs::new(70, 0);
    // Bank 0 at 0xC000: no screen is visible there.
    ula.update_frame_cache(0xc000, ts);
    assert_eq!(ula.ula.frame_cache.pixels[0], None);
    assert_eq!(ula.shadow_frame_cache.pixels[0], None);
    // Bank 5: the normal screen shows through 0xC000.
    ula.mem_page3_bank = 5;
    ula.update_frame_cache(0xc000, ts);
    assert_eq!(ula.ula.frame_cache.pixels[0], Some((70, 0)));
    assert_eq!(ula.shadow_frame_cache.pixels[0], None);
    // Bank 7: the shadow screen shows through 0xC000.
    ula.mem_page3_bank = 7;
    ula.update_frame_cache(0xc001, ts);
    assert_eq!(ula.shadow_frame_cache.pixels[1], Some((70, 0)));
    // Attribute writes land in the color grid.
    ula.update_frame_cache(0xd800, ts);
    assert_eq!(ula.shadow_frame_cache.colors[0], Some((70, 0)));
    assert!(ula.is_page3_contended());
    ula.mem_page3_bank = 2;
    assert!(!ula.is_page3_contended());
}

#[test]
fn renderer_carries_both_screens() {
    let mut ula = TestUla128::default();
    ula.beg_screen_shadow = true;
    ula.screen_changes.push(VideoTs::new(100, 0));
    let renderer = ula.create_renderer(BorderSize::Medium);
    assert!(renderer.swap_screens);
    assert!(renderer.shadow.is_some());
    assert_eq!(renderer.screen_changes.len(), 1);
    assert_eq!(ula.screen_changes.len(), 0);
    assert_eq!(renderer.border, 7);
}
