use std::sync::Arc;

use waywire::stream::{h264_profile, H264Profile, VideoAnnouncements};
use waywire::values::{
    Chroma, Continuity, Fps, FrameDimension, FrameKind, FrameMetadata, Generation, VideoSample,
};

fn sample(generation: u32, chroma: Chroma) -> VideoSample {
    VideoSample {
        data: Arc::new(vec![1]),
        kind: FrameKind::Key,
        continuity: Continuity::Continuous,
        metadata: FrameMetadata {
            generation: Generation::new(generation).expect("positive generation"),
            width: FrameDimension::new(640).expect("even width"),
            height: FrameDimension::new(480).expect("even height"),
            capture_nanos: 1,
            sequence: 1,
            input_sequence: None,
            fps: Fps::new(60).expect("valid frame rate"),
            chroma,
        },
    }
}

#[test]
fn each_generation_is_announced_once_with_its_codec() {
    let mut announcements = VideoAnnouncements::new();
    let first = sample(1, Chroma::Rgb);
    assert_eq!(announcements.codec_before(&first), Some("avc1.F40034"));
    // Until the configuration was sent, it is still due.
    assert_eq!(announcements.codec_before(&first), Some("avc1.F40034"));
    announcements.announced(&first);
    assert_eq!(announcements.codec_before(&first), None);
    let second = sample(2, Chroma::Yuv420);
    assert_eq!(announcements.codec_before(&second), Some("avc1.640034"));
    announcements.announced(&second);
    assert_eq!(announcements.codec_before(&second), None);
    assert_eq!(announcements.codec_before(&first), Some("avc1.F40034"));
}

#[test]
fn only_subsampled_chroma_fits_the_high_profile() {
    assert_eq!(h264_profile(Chroma::Yuv420), H264Profile::High);
    assert_eq!(h264_profile(Chroma::Yuv444), H264Profile::High444Predictive);
    assert_eq!(h264_profile(Chroma::Rgb), H264Profile::High444Predictive);
}
