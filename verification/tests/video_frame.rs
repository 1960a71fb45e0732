//! Frame timing and video timestamp arithmetic of the 48k frame.

use spectrusty::clock::VideoTs;
use spectrusty::video::{UlaVideoFrame, VideoFrame};

type TestVideoFrame = UlaVideoFrame;

#[test]
fn test_contention() {
    let vts0 = VideoTs::new(0, 0);
    let tstates = [
        (14335, 14341),
        (14336, 14341),
        (14337, 14341),
        (14338, 14341),
        (14339, 14341),
        (14340, 14341),
        (14341, 14341),
        (14342, 14342),
    ];
    for offset in (0..16).map(|x| x * 8i32) {
        for (testing, target) in tstates.iter().copied() {
            let mut vts = TestVideoFrame::vts_add_ts(vts0, (testing + offset) as u32);
            vts.hc = TestVideoFrame::contention(vts.hc);
            assert_eq!(
                TestVideoFrame::normalize_vts(vts),
                TestVideoFrame::tstates_to_vts(target + offset)
            );
        }
    }
    let refts = tstates[0].0;
    for ts in (refts - 96..refts).chain(refts + 128..refts + TestVideoFrame::hts_count() as i32) {
        let vts = TestVideoFrame::tstates_to_vts(ts);
        assert_eq!(TestVideoFrame::contention(vts.hc), vts.hc);
    }
}

#[test]
fn test_video_frame_vts_utils() {
    let items = [
        ((0, -69), -69, (0, 69819), false, true, (0, -69)),
        ((0, 0), 0, (1, 0), false, true, (0, 0)),
        ((0, -1), -1, (0, 69887), false, true, (0, -1)),
        ((-1, 0), -224, (0, 69664), false, true, (-1, 0)),
        ((1, 0), 224, (1, 224), false, true, (1, 0)),
        ((312, -1), 69887, (1, 69887), true, true, (312, -1)),
        ((312, 0), 69888, (2, 0), true, true, (312, 0)),
        ((0, 224), 224, (1, 224), false, false, (1, 0)),
        ((624, -223), 139553, (2, 69665), true, false, (623, 1)),
    ];
    for ((vc, hc), fts, (nfr, nfts), eof, is_norm, (nvc, nhc)) in items.iter().copied() {
        let vts = VideoTs::new(vc, hc);
        let nvts = VideoTs::new(nvc, nhc);
        assert_eq!(TestVideoFrame::vc_hc_to_tstates(vc, hc), fts);
        assert_eq!(TestVideoFrame::vts_to_tstates(vts), fts);
        assert_eq!(TestVideoFrame::tstates_to_vts(fts), nvts);
        assert_eq!(TestVideoFrame::vts_to_norm_tstates(1, vts), (nfr, nfts));
        assert_eq!(TestVideoFrame::is_vts_eof(vts), eof);
        assert_eq!(TestVideoFrame::is_normalized_vts(vts), is_norm);
        assert_eq!(TestVideoFrame::normalize_vts(vts), nvts);
    }
    assert_eq!(TestVideoFrame::vts_max(), VideoTs::new(i16::MAX, 154));
    assert_eq!(TestVideoFrame::vts_min(), VideoTs::new(i16::MIN, -69));
    let items = [
        ((0, 0), 0, (0, 0)),
        ((0, 0), 1, (0, 1)),
        ((-1, 154), 1, (0, -69)),
        ((0, 0), 224, (1, 0)),
        ((-1, 1), 223, (0, 0)),
        ((0, 0), 69888, (312, 0)),
        ((1, -1), 69888, (313, -1)),
        ((2, 224), 69888, (315, 0)),
    ];
    for ((vc0, hc0), delta, (vc1, hc1)) in items.iter().copied() {
        let vts0 = VideoTs::new(vc0, hc0);
        let vts1 = VideoTs::new(vc1, hc1);
        assert_eq!(TestVideoFrame::vts_add_ts(vts0, delta), vts1);
        assert_eq!(TestVideoFrame::vts_diff(vts0, vts1), delta as i32);
        assert_eq!(TestVideoFrame::vts_diff(vts1, vts0), -(delta as i32));
    }
    let items = [
        ((312, 0), (0, 0)),
        ((312, -69), (0, -69)),
        ((623, 154), (311, 154)),
        ((0, 224), (-312, 224)),
        ((-32767, -32768), (-32768, -32768)),
        ((-32768, -32768), (-32768, -32768)),
    ];
    for ((vc0, hc0), (vc1, hc1)) in items.iter().copied() {
        let vts0 = VideoTs::new(vc0, hc0);
        let vts1 = VideoTs::new(vc1, hc1);
        assert_eq!(TestVideoFrame::vts_saturating_sub_frame(vts0), vts1);
    }
    let items = [
        ((0, 0), (0, 0), (0, 0), (0, 0)),
        ((1, 1), (1, 1), (0, 0), (2, 2)),
        ((1, 1), (-1, -1), (2, 2), (0, 0)),
        ((1, 154), (1, 1), (0, 153), (3, -69)),
        ((-32768, -69), (1, 1), (-32768, -69), (-32767, -68)),
        ((-32768, -69), (-32768, -69), (0, 0), (-32768, -69)),
        ((32767, 154), (1, 1), (32766, 153), (32767, 154)),
        ((32767, 154), (32767, 154), (0, 0), (32767, 154)),
    ];
    for ((vc0, hc0), (vc1, hc1), (svc, shc), (avc, ahc)) in items.iter().copied() {
        let vts0 = VideoTs::new(vc0, hc0);
        let vts1 = VideoTs::new(vc1, hc1);
        let subvts = VideoTs::new(svc, shc);
        let addvts = VideoTs::new(avc, ahc);
        assert_eq!(TestVideoFrame::vts_saturating_sub_vts_normalized(vts0, vts1), subvts);
        assert_eq!(TestVideoFrame::vts_saturating_add_vts_normalized(vts0, vts1), addvts);
        assert_eq!(TestVideoFrame::vts_saturating_add_vts_normalized(vts1, vts0), addvts);
    }
}
