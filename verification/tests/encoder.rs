use waywire::encoder::{
    encoded_dimensions, encoder_transition, ffmpeg_args, EncoderConfig, EncoderTransition,
    VideoError,
};
use waywire::stream::{h264_profile, H264Profile};
use waywire::values::{Chroma, Crf, Fps, FrameDimension, Generation, Kbps, ScalePercent};

fn generation(value: u32) -> Generation {
    Generation::new(value).expect("valid test generation")
}

fn dimension(value: u16) -> FrameDimension {
    FrameDimension::new(value).expect("valid test frame dimension")
}

fn fps(value: u32) -> Fps {
    Fps::new(value).expect("valid test frame rate")
}

fn kbps(value: u32) -> Kbps {
    Kbps::new(value).expect("valid test bitrate")
}

fn crf(value: u8) -> Crf {
    Crf::new(value).expect("valid test CRF")
}

fn config(width: u16, height: u16) -> EncoderConfig {
    EncoderConfig {
        raw_width: dimension(width),
        raw_height: dimension(height),
        encoded_width: dimension(width),
        encoded_height: dimension(height),
        fps: fps(60),
        bitrate_kbps: kbps(8_000),
        crf: crf(23),
        chroma: Chroma::Yuv444,
    }
}

fn has_pair(args: &[String], flag: &str, value: &str) -> bool {
    args.windows(2)
        .any(|pair| pair[0] == flag && pair[1] == value)
}

#[test]
fn ffmpeg_flags_match_the_rtp_contract() {
    let args = ffmpeg_args(5000, config(2, 2), generation(17));
    assert!(has_pair(&args, "-payload_type", "96"));
    assert!(has_pair(&args, "-ssrc", "17"));
    assert!(has_pair(
        &args,
        "-x264-params",
        "aud=1:repeat-headers=1:colorprim=bt709:transfer=iec61966-2-1:colormatrix=bt709:fullrange=on",
    ));
    assert_eq!(
        args.last()
            .expect("FFmpeg argument list should include an output URL"),
        "rtp://127.0.0.1:5000?pkt_size=60000"
    );
}

#[test]
fn ffmpeg_uses_capped_crf_without_a_target_bitrate() {
    let args = ffmpeg_args(5000, config(2, 2), generation(17));

    assert!(has_pair(&args, "-crf", "23"));
    assert!(has_pair(&args, "-maxrate", "8000k"));
    assert!(has_pair(&args, "-bufsize", "16000k"));
    assert!(!args.iter().any(|argument| argument == "-b:v"));
}

#[test]
fn keyframes_use_quarter_the_nominal_frame_rate_without_changing_input_rate() {
    for (rate, interval) in [(60, 15), (30, 8), (10, 3)] {
        let mut config = config(2, 2);
        config.fps = fps(rate);
        let args = ffmpeg_args(5000, config, generation(17));
        for (flag, value) in [
            ("-framerate", rate),
            ("-g", interval),
            ("-keyint_min", interval),
        ] {
            assert!(has_pair(&args, flag, &value.to_string()));
        }
        assert!(!args.iter().any(|argument| argument == "-re"));
    }
}

#[test]
fn ffmpeg_converts_and_tags_desktop_srgb_for_each_chroma_choice() {
    for chroma in [Chroma::Yuv444, Chroma::Yuv420] {
        let mut config = config(2, 2);
        config.chroma = chroma;
        let args = ffmpeg_args(5000, config, generation(17));
        for [flag, value] in [
            ["-profile:v", h264_profile(chroma).ffmpeg_profile()],
            ["-pix_fmt", chroma.ffmpeg_pixel_format()],
            ["-vf", "scale=2:2:out_color_matrix=bt709:out_range=pc"],
            ["-colorspace", "bt709"],
            ["-color_primaries", "bt709"],
            ["-color_trc", "iec61966-2-1"],
            ["-color_range", "pc"],
        ] {
            assert!(has_pair(&args, flag, value));
        }
    }
}

#[test]
fn ffmpeg_rgb_preserves_components_at_full_and_reduced_size() {
    for width in [320, 160] {
        let mut config = config(320, 180);
        config.chroma = Chroma::Rgb;
        config.encoded_width = dimension(width);
        let args = ffmpeg_args(5000, config, generation(17));
        for [flag, value] in [
            ["-pixel_format", "bgr0"],
            ["-c:v", "libx264rgb"],
            ["-preset", "ultrafast"],
            ["-pix_fmt", "bgr0"],
            ["-colorspace", "rgb"],
            ["-color_range", "pc"],
            [
                "-x264-params",
                "aud=1:repeat-headers=1:colorprim=bt709:transfer=iec61966-2-1:colormatrix=gbr:fullrange=on",
            ],
        ] {
            assert!(has_pair(&args, flag, value));
        }
        let scale = format!("scale={}:{}", width, config.encoded_height.get());
        assert!(has_pair(&args, "-vf", scale.as_str()));
    }
}

#[test]
fn dimensions_enforce_level_and_four_k_budget() {
    assert_eq!(
        encoded_dimensions(
            3840,
            2160,
            ScalePercent::new(100).expect("full test scale should be valid"),
            fps(60),
        ),
        (3840, 2160)
    );
    assert_eq!(
        config(2, 2)
            .validate()
            .expect("fixed test frame should have a valid encoder config"),
        16
    );
    let mut oversized = config(2, 2);
    oversized.raw_width = dimension(3842);
    oversized.raw_height = dimension(2160);
    assert!(matches!(
        oversized.validate(),
        Err(VideoError::InvalidFrame)
    ));
}

#[test]
fn every_same_generation_config_change_requests_a_new_generation() {
    let active = config(2, 2);
    let changed_configs = [
        EncoderConfig {
            raw_width: dimension(4),
            ..active
        },
        EncoderConfig {
            raw_height: dimension(4),
            ..active
        },
        EncoderConfig {
            encoded_width: dimension(4),
            ..active
        },
        EncoderConfig {
            encoded_height: dimension(4),
            ..active
        },
        EncoderConfig {
            fps: fps(30),
            ..active
        },
        EncoderConfig {
            bitrate_kbps: kbps(4_000),
            ..active
        },
        EncoderConfig {
            crf: crf(18),
            ..active
        },
        EncoderConfig {
            chroma: Chroma::Yuv420,
            ..active
        },
    ];

    for changed in changed_configs {
        assert_eq!(
            encoder_transition(active, generation(1), changed, generation(1)),
            EncoderTransition::RequestNewGeneration
        );
    }
    assert_eq!(
        encoder_transition(active, generation(1), changed_configs[0], generation(2)),
        EncoderTransition::ReplaceForGeneration
    );
    assert_eq!(
        encoder_transition(active, generation(1), active, generation(1)),
        EncoderTransition::Reuse
    );
}

#[test]
fn scaled_frames_have_even_edges() {
    let half = ScalePercent::minimum();
    assert_eq!(encoded_dimensions(1282, 722, half, fps(60)), (640, 360));
    assert_eq!(encoded_dimensions(2, 2, half, fps(60)), (2, 2));
}

#[test]
fn fast_large_frames_are_scaled_into_the_level() {
    let full = ScalePercent::maximum();
    let (width, height) = encoded_dimensions(3840, 2160, full, fps(120));
    let blocks = u64::from(width.div_ceil(16)) * u64::from(height.div_ceil(16));
    assert!(blocks * 120 <= 2_073_600);
    assert_eq!((width, height), (2764, 1554));
}

#[test]
fn codec_strings_name_the_profile_and_the_level() {
    assert_eq!(h264_profile(Chroma::Yuv420), H264Profile::High);
    assert_eq!(h264_profile(Chroma::Yuv420).codec(), "avc1.640034");
    assert_eq!(h264_profile(Chroma::Yuv444).codec(), "avc1.F40034");
    assert_eq!(h264_profile(Chroma::Rgb).codec(), "avc1.F40034");
}
