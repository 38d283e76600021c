//! Settings of the H.264 encoder and the arguments that start it.

use crate::stream::{h264_profile, spec_h264_profile, H264Profile};
use crate::text::{decimal, decimal_text};
use crate::values::{Chroma, Crf, FrameDimension, Fps, Generation, Kbps, ScalePercent};
use vstd::prelude::*;

verus! {

/// The largest raw frame: 3840 by 2160 pixels.
pub const MAX_RAW_PIXELS: u32 = 8_294_400;

/// The largest frame of H.264 level 5.2, in macroblocks of 16 by 16 pixels.
pub const LEVEL_FRAME_MACROBLOCKS: u64 = 36_864;

/// The macroblocks that H.264 level 5.2 allows in a second.
pub const LEVEL_SECOND_MACROBLOCKS: u64 = 2_073_600;

/// The RTP payload type of the stream.
pub const PAYLOAD_TYPE: u32 = 96;

/// The largest RTP packet that the encoder sends, in bytes.
pub const RTP_PACKET_BYTES: u32 = 60_000;

#[derive(Clone, Copy, Debug, PartialEq, Eq, Structural)]
pub enum VideoError {
    /// The frame does not belong to what the encoder expects.
    InvalidFrame,
}

/// What an encoder process is started with.
#[derive(Clone, Copy, Debug, PartialEq, Eq, Structural)]
pub struct EncoderConfig {
    pub raw_width: FrameDimension,
    pub raw_height: FrameDimension,
    pub encoded_width: FrameDimension,
    pub encoded_height: FrameDimension,
    pub fps: Fps,
    pub bitrate_kbps: Kbps,
    pub crf: Crf,
    pub chroma: Chroma,
}

impl EncoderConfig {
    pub open spec fn raw_pixels(self) -> int {
        self.raw_width@ * self.raw_height@
    }

    /// Checks that a raw frame is at most as large as a 4K picture, and returns how
    /// many bytes it has, at four bytes a pixel.
    pub fn validate(&self) -> (r: Result<usize, VideoError>)
        ensures
            match r {
                Ok(bytes) => self.raw_pixels() <= MAX_RAW_PIXELS && bytes == 4
                    * self.raw_pixels(),
                Err(VideoError::InvalidFrame) => self.raw_pixels() > MAX_RAW_PIXELS,
            },
    {
        let width: u16 = self.raw_width.get();
        let height: u16 = self.raw_height.get();
        assert(0 <= width * height <= 65535 * 65535) by (nonlinear_arith)
            requires
                0 <= width <= 65535,
                0 <= height <= 65535,
        ;
        let pixels: u32 = width as u32 * height as u32;
        if pixels <= MAX_RAW_PIXELS {
            Ok(pixels as usize * 4)
        } else {
            Err(VideoError::InvalidFrame)
        }
    }
}

pub open spec fn macroblocks(width: int, height: int) -> int {
    ((width + 15) / 16) * ((height + 15) / 16)
}

/// Whether H.264 level 5.2 allows frames of that size at that rate.
pub open spec fn within_level(width: int, height: int, fps: int) -> bool {
    &&& macroblocks(width, height) <= LEVEL_FRAME_MACROBLOCKS
    &&& macroblocks(width, height) * fps <= LEVEL_SECOND_MACROBLOCKS
}

/// An edge at a percentage of its length: the next lower even number, 2 at least.
pub open spec fn scaled_edge(edge: int, percent: int) -> int {
    let even = edge * percent / 100 / 2 * 2;
    if even < 2 {
        2
    } else {
        even
    }
}

/// Whether frames at that percentage of their size are within the level.
pub open spec fn scale_fits(width: int, height: int, percent: int, fps: int) -> bool {
    within_level(scaled_edge(width, percent), scaled_edge(height, percent), fps)
}

fn scale_edge(edge: u32, percent: u32) -> (r: u16)
    requires
        edge <= crate::messages::MAX_OUTPUT_EDGE,
        percent <= 100,
    ensures
        r == scaled_edge(edge as int, percent as int),
        r >= 2,
        r % 2 == 0,
{
    assert(0 <= edge * percent <= 7680 * 100) by (nonlinear_arith)
        requires
            0 <= edge <= 7680,
            0 <= percent <= 100,
    ;
    let even: u32 = edge * percent / 100 / 2 * 2;
    if even < 2 {
        2
    } else {
        even as u16
    }
}

fn fits(width: u16, height: u16, fps: u32) -> (r: bool)
    requires
        fps <= 120,
    ensures
        r == within_level(width as int, height as int, fps as int),
{
    let columns: u64 = (width as u64 + 15) / 16;
    let rows: u64 = (height as u64 + 15) / 16;
    assert(0 <= columns * rows <= 4096 * 4096) by (nonlinear_arith)
        requires
            0 <= columns <= 4096,
            0 <= rows <= 4096,
    ;
    let blocks: u64 = columns * rows;
    assert(0 <= blocks * fps <= 16777216 * 120) by (nonlinear_arith)
        requires
            0 <= blocks <= 16777216,
            0 <= fps <= 120,
    ;
    blocks <= LEVEL_FRAME_MACROBLOCKS && blocks * fps as u64 <= LEVEL_SECOND_MACROBLOCKS
}

/// The percentage that frames are scaled by: the largest one up to what was asked
/// for at which they are within the level.
pub open spec fn is_encoded_percent(
    width: int,
    height: int,
    asked: int,
    fps: int,
    percent: int,
) -> bool {
    &&& 1 <= percent <= asked
    &&& scale_fits(width, height, percent, fps)
    &&& forall|more: int| percent < more <= asked ==> !#[trigger] scale_fits(width, height, more, fps)
}

/// The size of the encoded frames: the output's size at the asked percentage, or at
/// the largest lower one that the encoder's level allows at that frame rate.
pub fn encoded_dimensions(width: u32, height: u32, scale: ScalePercent, fps: Fps) -> (r: (u16, u16))
    requires
        width <= crate::messages::MAX_OUTPUT_EDGE,
        height <= crate::messages::MAX_OUTPUT_EDGE,
    ensures
        exists|percent: int| #[trigger]
            is_encoded_percent(width as int, height as int, scale@ as int, fps@ as int, percent)
                && r.0 == scaled_edge(width as int, percent) && r.1 == scaled_edge(
                height as int,
                percent,
            ),
        r.0 >= 2 && r.0 % 2 == 0,
        r.1 >= 2 && r.1 % 2 == 0,
{
    let mut percent: u32 = scale.get();
    let rate: u32 = fps.get();
    while percent > 1
        invariant
            1 <= percent <= scale@ <= 100,
            1 <= rate <= 120,
            rate == fps@,
            width <= crate::messages::MAX_OUTPUT_EDGE,
            height <= crate::messages::MAX_OUTPUT_EDGE,
            forall|more: int|
                percent < more <= scale@ ==> !#[trigger] scale_fits(
                    width as int,
                    height as int,
                    more,
                    rate as int,
                ),
        ensures
            1 <= percent <= scale@,
            forall|more: int|
                percent < more <= scale@ ==> !#[trigger] scale_fits(
                    width as int,
                    height as int,
                    more,
                    rate as int,
                ),
            percent > 1 ==> scale_fits(width as int, height as int, percent as int, rate as int),
        decreases percent,
    {
        if fits(scale_edge(width, percent), scale_edge(height, percent), rate) {
            break ;
        }
        percent = percent - 1;
    }
    proof {
        if percent == 1 {
            lemma_smallest_scale_fits(width as int, height as int, rate as int);
        }
        assert(is_encoded_percent(
            width as int,
            height as int,
            scale@ as int,
            fps@ as int,
            percent as int,
        ));
    }
    (scale_edge(width, percent), scale_edge(height, percent))
}

proof fn lemma_smallest_scale_fits(width: int, height: int, fps: int)
    requires
        0 <= width <= crate::messages::MAX_OUTPUT_EDGE,
        0 <= height <= crate::messages::MAX_OUTPUT_EDGE,
        1 <= fps <= 120,
    ensures
        scale_fits(width, height, 1, fps),
{
    let w = scaled_edge(width, 1);
    let h = scaled_edge(height, 1);
    assert(2 <= w <= 76 && 2 <= h <= 76);
    let columns = (w + 15) / 16;
    let rows = (h + 15) / 16;
    assert(0 <= columns <= 5 && 0 <= rows <= 5);
    assert(0 <= columns * rows <= 25) by (nonlinear_arith)
        requires
            0 <= columns <= 5,
            0 <= rows <= 5,
    ;
    assert(columns * rows * fps <= 25 * 120) by (nonlinear_arith)
        requires
            0 <= columns * rows <= 25,
            1 <= fps <= 120,
    ;
}

/// Frames that are within the level at the asked percentage are scaled by it.
pub proof fn law_frames_within_the_level_keep_their_scale(
    width: int,
    height: int,
    asked: int,
    fps: int,
    percent: int,
)
    requires
        is_encoded_percent(width, height, asked, fps, percent),
        scale_fits(width, height, asked, fps),
    ensures
        percent == asked,
{
    if percent < asked {
        assert(!scale_fits(width, height, asked, fps));
    }
}

/// What becomes of a running encoder when the next frame asks for these settings.
#[derive(Clone, Copy, Debug, PartialEq, Eq, Structural)]
pub enum EncoderTransition {
    Reuse,
    ReplaceForGeneration,
    /// The settings changed within a generation: the frame has to wait for a new one.
    RequestNewGeneration,
}

pub open spec fn transition_of(
    active: EncoderConfig,
    active_generation: Generation,
    next: EncoderConfig,
    next_generation: Generation,
) -> EncoderTransition {
    if active_generation@ != next_generation@ {
        EncoderTransition::ReplaceForGeneration
    } else if active == next {
        EncoderTransition::Reuse
    } else {
        EncoderTransition::RequestNewGeneration
    }
}

/// One encoder serves one generation with one set of settings.
pub fn encoder_transition(
    active: EncoderConfig,
    active_generation: Generation,
    next: EncoderConfig,
    next_generation: Generation,
) -> (r: EncoderTransition)
    ensures
        r == transition_of(active, active_generation, next, next_generation),
{
    if active_generation.get() != next_generation.get() {
        EncoderTransition::ReplaceForGeneration
    } else if active == next {
        EncoderTransition::Reuse
    } else {
        EncoderTransition::RequestNewGeneration
    }
}

/// A stream never changes its settings within a generation.
pub proof fn law_settings_are_fixed_within_a_generation(
    active: EncoderConfig,
    active_generation: Generation,
    next: EncoderConfig,
    next_generation: Generation,
)
    requires
        transition_of(active, active_generation, next, next_generation)
            == EncoderTransition::Reuse,
    ensures
        active == next,
        active_generation@ == next_generation@,
{
}

impl H264Profile {
    pub open spec fn spec_ffmpeg_profile(self) -> Seq<char> {
        match self {
            H264Profile::High => "high"@,
            H264Profile::High444Predictive => "high444"@,
        }
    }

    /// FFmpeg's name of the profile.
    pub fn ffmpeg_profile(self) -> (r: &'static str)
        ensures
            r@ == self.spec_ffmpeg_profile(),
    {
        match self {
            H264Profile::High => "high",
            H264Profile::High444Predictive => "high444",
        }
    }
}

impl Chroma {
    pub open spec fn spec_ffmpeg_pixel_format(self) -> Seq<char> {
        match self {
            Chroma::Rgb => "bgr0"@,
            Chroma::Yuv444 => "yuv444p"@,
            Chroma::Yuv420 => "yuv420p"@,
        }
    }

    /// FFmpeg's name of the pixel format that is encoded.
    pub fn ffmpeg_pixel_format(self) -> (r: &'static str)
        ensures
            r@ == self.spec_ffmpeg_pixel_format(),
    {
        match self {
            Chroma::Rgb => "bgr0",
            Chroma::Yuv444 => "yuv444p",
            Chroma::Yuv420 => "yuv420p",
        }
    }
}

pub open spec fn texts(args: Seq<String>) -> Seq<Seq<char>> {
    args.map_values(|arg: String| arg@)
}

pub open spec fn size_text(width: FrameDimension, separator: Seq<char>, height: FrameDimension) ->
    Seq<char> {
    decimal(width@ as nat) + separator + decimal(height@ as nat)
}

pub open spec fn scale_filter(config: EncoderConfig) -> Seq<char> {
    let plain = "scale="@ + size_text(config.encoded_width, ":"@, config.encoded_height);
    if config.chroma is Rgb {
        plain
    } else {
        plain + ":out_color_matrix=bt709:out_range=pc"@
    }
}

pub open spec fn x264_params(chroma: Chroma) -> Seq<char> {
    if chroma is Rgb {
        "aud=1:repeat-headers=1:colorprim=bt709:transfer=iec61966-2-1:colormatrix=gbr:fullrange=on"@
    } else {
        "aud=1:repeat-headers=1:colorprim=bt709:transfer=iec61966-2-1:colormatrix=bt709:fullrange=on"@
    }
}

/// Raw frames come in on standard input.
pub open spec fn input_arguments(config: EncoderConfig) -> Seq<Seq<char>> {
    seq![
        "-hide_banner"@,
        "-loglevel"@,
        "error"@,
        "-f"@,
        "rawvideo"@,
        "-pixel_format"@,
        "bgr0"@,
        "-video_size"@,
        size_text(config.raw_width, "x"@, config.raw_height),
        "-framerate"@,
        decimal(config.fps@ as nat),
        "-i"@,
        "pipe:0"@,
        "-an"@,
    ]
}

/// Pictures are scaled and tagged as full-range sRGB, so that desktop colours keep
/// their values.
pub open spec fn picture_arguments(config: EncoderConfig) -> Seq<Seq<char>> {
    seq![
        "-vf"@,
        scale_filter(config),
        "-c:v"@,
        if config.chroma is Rgb {
            "libx264rgb"@
        } else {
            "libx264"@
        },
        "-preset"@,
        "ultrafast"@,
        "-tune"@,
        "zerolatency"@,
        "-profile:v"@,
        spec_h264_profile(config.chroma).spec_ffmpeg_profile(),
        "-level:v"@,
        "5.2"@,
        "-pix_fmt"@,
        config.chroma.spec_ffmpeg_pixel_format(),
        "-colorspace"@,
        if config.chroma is Rgb {
            "rgb"@
        } else {
            "bt709"@
        },
        "-color_primaries"@,
        "bt709"@,
        "-color_trc"@,
        "iec61966-2-1"@,
        "-color_range"@,
        "pc"@,
    ]
}

/// The quality is constant, and the bitrate only a ceiling over two seconds.
pub open spec fn rate_arguments(config: EncoderConfig) -> Seq<Seq<char>> {
    seq![
        "-crf"@,
        decimal(config.crf@ as nat),
        "-maxrate"@,
        decimal(config.bitrate_kbps@ as nat) + "k"@,
        "-bufsize"@,
        decimal((2 * config.bitrate_kbps@) as nat) + "k"@,
        "-g"@,
        decimal(config.fps.spec_keyframe_interval() as nat),
        "-keyint_min"@,
        decimal(config.fps.spec_keyframe_interval() as nat),
        "-x264-params"@,
        x264_params(config.chroma),
    ]
}

/// All formats are encoded with the same bitrate ceiling over two seconds, the same
/// keyframe interval and the same low-latency settings.
pub proof fn law_formats_share_cap_and_latency(config: EncoderConfig, chroma: Chroma)
    ensures
        rate_arguments(EncoderConfig { chroma, ..config }).take(10) == rate_arguments(config).take(
            10,
        ),
        rate_arguments(config).subrange(2, 6) == seq![
            "-maxrate"@,
            decimal(config.bitrate_kbps@ as nat) + "k"@,
            "-bufsize"@,
            decimal((2 * config.bitrate_kbps@) as nat) + "k"@,
        ],
        picture_arguments(config).subrange(4, 8) == seq![
            "-preset"@,
            "ultrafast"@,
            "-tune"@,
            "zerolatency"@,
        ],
{
    let other = rate_arguments(EncoderConfig { chroma, ..config });
    assert(other.take(10) =~= rate_arguments(config).take(10));
}

/// The stream goes out over RTP, with the generation as its source identifier.
pub open spec fn output_arguments(port: u16, generation: Generation) -> Seq<Seq<char>> {
    seq![
        "-f"@,
        "rtp"@,
        "-payload_type"@,
        decimal(PAYLOAD_TYPE as nat),
        "-ssrc"@,
        decimal(generation@ as nat),
        "rtp://127.0.0.1:"@ + decimal(port as nat) + "?pkt_size="@ + decimal(
            RTP_PACKET_BYTES as nat,
        ),
    ]
}

pub open spec fn ffmpeg_arguments(port: u16, config: EncoderConfig, generation: Generation) -> Seq<
    Seq<char>,
> {
    input_arguments(config) + picture_arguments(config) + rate_arguments(config)
        + output_arguments(port, generation)
}

fn push_text(args: &mut Vec<String>, text: &str)
    ensures
        texts(final(args)@) == texts(old(args)@).push(text@),
{
    args.push(text.to_owned());
    assert(texts(args@) =~= texts(old(args)@).push(text@));
}

fn size_argument(width: FrameDimension, separator: &str, height: FrameDimension) -> (r: String)
    ensures
        r@ == size_text(width, separator@, height),
{
    let mut text: String = decimal_text(width.get() as u128);
    text.append(separator);
    text.append(decimal_text(height.get() as u128).as_str());
    text
}

fn push_input(args: &mut Vec<String>, config: EncoderConfig)
    ensures
        texts(final(args)@) == texts(old(args)@) + input_arguments(config),
{
    push_text(args, "-hide_banner");
    push_text(args, "-loglevel");
    push_text(args, "error");
    push_text(args, "-f");
    push_text(args, "rawvideo");
    push_text(args, "-pixel_format");
    push_text(args, "bgr0");
    push_text(args, "-video_size");
    push_text(args, size_argument(config.raw_width, "x", config.raw_height).as_str());
    push_text(args, "-framerate");
    push_text(args, decimal_text(config.fps.get() as u128).as_str());
    push_text(args, "-i");
    push_text(args, "pipe:0");
    push_text(args, "-an");
    assert(texts(args@) =~= texts(old(args)@) + input_arguments(config));
}

fn push_picture(args: &mut Vec<String>, config: EncoderConfig)
    ensures
        texts(final(args)@) == texts(old(args)@) + picture_arguments(config),
{
    let rgb: bool = match config.chroma {
        Chroma::Rgb => true,
        Chroma::Yuv444 => false,
        Chroma::Yuv420 => false,
    };
    let mut filter: String = "scale=".to_owned();
    filter.append(size_argument(config.encoded_width, ":", config.encoded_height).as_str());
    if !rgb {
        filter.append(":out_color_matrix=bt709:out_range=pc");
    }
    push_text(args, "-vf");
    push_text(args, filter.as_str());
    push_text(args, "-c:v");
    push_text(
        args,
        if rgb {
            "libx264rgb"
        } else {
            "libx264"
        },
    );
    push_text(args, "-preset");
    push_text(args, "ultrafast");
    push_text(args, "-tune");
    push_text(args, "zerolatency");
    push_text(args, "-profile:v");
    push_text(args, h264_profile(config.chroma).ffmpeg_profile());
    push_text(args, "-level:v");
    push_text(args, "5.2");
    push_text(args, "-pix_fmt");
    push_text(args, config.chroma.ffmpeg_pixel_format());
    push_text(args, "-colorspace");
    push_text(
        args,
        if rgb {
            "rgb"
        } else {
            "bt709"
        },
    );
    push_text(args, "-color_primaries");
    push_text(args, "bt709");
    push_text(args, "-color_trc");
    push_text(args, "iec61966-2-1");
    push_text(args, "-color_range");
    push_text(args, "pc");
    assert(texts(args@) =~= texts(old(args)@) + picture_arguments(config));
}

fn push_rate(args: &mut Vec<String>, config: EncoderConfig)
    ensures
        texts(final(args)@) == texts(old(args)@) + rate_arguments(config),
{
    let kbps: u128 = config.bitrate_kbps.get() as u128;
    let mut ceiling: String = decimal_text(kbps);
    ceiling.append("k");
    let mut buffer: String = decimal_text(2 * kbps);
    buffer.append("k");
    let interval: String = decimal_text(config.fps.keyframe_interval() as u128);
    push_text(args, "-crf");
    push_text(args, decimal_text(config.crf.get() as u128).as_str());
    push_text(args, "-maxrate");
    push_text(args, ceiling.as_str());
    push_text(args, "-bufsize");
    push_text(args, buffer.as_str());
    push_text(args, "-g");
    push_text(args, interval.as_str());
    push_text(args, "-keyint_min");
    push_text(args, interval.as_str());
    push_text(args, "-x264-params");
    let params: &str = match config.chroma {
        Chroma::Rgb =>
            "aud=1:repeat-headers=1:colorprim=bt709:transfer=iec61966-2-1:colormatrix=gbr:fullrange=on",
        Chroma::Yuv444 | Chroma::Yuv420 =>
            "aud=1:repeat-headers=1:colorprim=bt709:transfer=iec61966-2-1:colormatrix=bt709:fullrange=on",
    };
    push_text(args, params);
    assert(texts(args@) =~= texts(old(args)@) + rate_arguments(config));
}

fn push_output(args: &mut Vec<String>, port: u16, generation: Generation)
    ensures
        texts(final(args)@) == texts(old(args)@) + output_arguments(port, generation),
{
    let mut url: String = "rtp://127.0.0.1:".to_owned();
    url.append(decimal_text(port as u128).as_str());
    url.append("?pkt_size=");
    url.append(decimal_text(RTP_PACKET_BYTES as u128).as_str());
    push_text(args, "-f");
    push_text(args, "rtp");
    push_text(args, "-payload_type");
    push_text(args, decimal_text(PAYLOAD_TYPE as u128).as_str());
    push_text(args, "-ssrc");
    push_text(args, decimal_text(generation.get() as u128).as_str());
    push_text(args, url.as_str());
    assert(texts(args@) =~= texts(old(args)@) + output_arguments(port, generation));
}

/// The arguments of the FFmpeg process that encodes one generation.
pub fn ffmpeg_args(port: u16, config: EncoderConfig, generation: Generation) -> (args: Vec<String>)
    ensures
        texts(args@) == ffmpeg_arguments(port, config, generation),
{
    let mut args: Vec<String> = Vec::new();
    assert(texts(args@) =~= Seq::<Seq<char>>::empty());
    push_input(&mut args, config);
    push_picture(&mut args, config);
    push_rate(&mut args, config);
    push_output(&mut args, port, generation);
    assert(texts(args@) =~= ffmpeg_arguments(port, config, generation));
    args
}

/// FFmpeg cuts the raw frames as the compositor writes them: rows of the raw width,
/// as many as the raw height, four bytes a pixel, at the frame rate of the settings.
/// Width times height times four is the length of a frame.
pub proof fn law_raw_frames_are_read_as_they_are_written(
    port: u16,
    config: EncoderConfig,
    generation: Generation,
)
    ensures
        ({
            let args = ffmpeg_arguments(port, config, generation);
            &&& args[3] == "-f"@ && args[4] == "rawvideo"@
            &&& args[5] == "-pixel_format"@ && args[6] == "bgr0"@
            &&& args[7] == "-video_size"@
            &&& args[8] == decimal(config.raw_width@ as nat) + "x"@ + decimal(
                config.raw_height@ as nat,
            )
            &&& args[9] == "-framerate"@
            &&& args[10] == decimal(config.fps@ as nat)
            &&& args[11] == "-i"@ && args[12] == "pipe:0"@
            &&& args[13] == "-an"@
            &&& 4 * config.raw_pixels() == config.raw_width@ * config.raw_height@ * 4
        }),
{
}

/// The pictures are scaled to the encoded width and height. RGB stays RGB under its own
/// codec; the others are converted to full-range BT.709, and only 4:2:0 needs no more
/// than the high profile.
pub proof fn law_pictures_are_encoded_as_configured(
    port: u16,
    config: EncoderConfig,
    generation: Generation,
)
    ensures
        ({
            let args = ffmpeg_arguments(port, config, generation);
            let scale = "scale="@ + (decimal(config.encoded_width@ as nat) + ":"@ + decimal(
                config.encoded_height@ as nat,
            ));
            let rgb = config.chroma == Chroma::Rgb;
            &&& args[14] == "-vf"@
            &&& rgb ==> args[15] == scale
            &&& !rgb ==> args[15] == scale + ":out_color_matrix=bt709:out_range=pc"@
            &&& args[16] == "-c:v"@
            &&& args[17] == if rgb {
                "libx264rgb"@
            } else {
                "libx264"@
            }
            &&& args[18] == "-preset"@ && args[19] == "ultrafast"@
            &&& args[20] == "-tune"@ && args[21] == "zerolatency"@
            &&& args[22] == "-profile:v"@
            &&& args[23] == if config.chroma == Chroma::Yuv420 {
                "high"@
            } else {
                "high444"@
            }
            &&& args[24] == "-level:v"@ && args[25] == "5.2"@
            &&& args[26] == "-pix_fmt"@
            &&& args[27] == match config.chroma {
                Chroma::Rgb => "bgr0"@,
                Chroma::Yuv444 => "yuv444p"@,
                Chroma::Yuv420 => "yuv420p"@,
            }
            &&& args[28] == "-colorspace"@
            &&& args[29] == if rgb {
                "rgb"@
            } else {
                "bt709"@
            }
            &&& args[30] == "-color_primaries"@ && args[31] == "bt709"@
            &&& args[32] == "-color_trc"@ && args[33] == "iec61966-2-1"@
            &&& args[34] == "-color_range"@ && args[35] == "pc"@
        }),
{
}

/// The rate factor is that of the settings, their bitrate caps the rate over two
/// seconds, and a keyframe comes four times a second or slightly less often: after the
/// least number of frames of which four make up a second.
pub proof fn law_the_rate_is_capped_as_configured(
    port: u16,
    config: EncoderConfig,
    generation: Generation,
    interval: nat,
)
    requires
        4 * interval >= config.fps@,
        4 * interval < config.fps@ + 4,
    ensures
        ({
            let args = ffmpeg_arguments(port, config, generation);
            &&& args[36] == "-crf"@ && args[37] == decimal(config.crf@ as nat)
            &&& args[38] == "-maxrate"@ && args[39] == decimal(config.bitrate_kbps@ as nat) + "k"@
            &&& args[40] == "-bufsize"@ && args[41] == decimal(
                (config.bitrate_kbps@ + config.bitrate_kbps@) as nat,
            ) + "k"@
            &&& args[42] == "-g"@ && args[43] == decimal(interval)
            &&& args[44] == "-keyint_min"@ && args[45] == decimal(interval)
            &&& args[46] == "-x264-params"@
            &&& args[47] == if config.chroma == Chroma::Rgb {
                "aud=1:repeat-headers=1:colorprim=bt709:transfer=iec61966-2-1:colormatrix=gbr:fullrange=on"@
            } else {
                "aud=1:repeat-headers=1:colorprim=bt709:transfer=iec61966-2-1:colormatrix=bt709:fullrange=on"@
            }
        }),
{
}

/// The stream goes to the given port of the local host, as payload type 96, in packets
/// of up to 60000 bytes, and its source identifier is the generation. The arguments end
/// with the address.
pub proof fn law_the_stream_goes_to_its_port(
    port: u16,
    config: EncoderConfig,
    generation: Generation,
)
    ensures
        ({
            let args = ffmpeg_arguments(port, config, generation);
            &&& args[0] == "-hide_banner"@ && args[1] == "-loglevel"@ && args[2] == "error"@
            &&& args[48] == "-f"@ && args[49] == "rtp"@
            &&& args[50] == "-payload_type"@ && args[51] == decimal(96)
            &&& args[52] == "-ssrc"@ && args[53] == decimal(generation@ as nat)
            &&& args[54] == "rtp://127.0.0.1:"@ + decimal(port as nat) + "?pkt_size="@ + decimal(
                60_000,
            )
            &&& args.len() == 55
        }),
{
}

/// A scaled edge is even, at least two pixels, and otherwise the longest even edge that
/// is no longer than the percentage allows.
pub proof fn law_scaled_edges_are_even(edge: int, percent: int)
    requires
        0 <= edge,
        0 <= percent,
    ensures
        ({
            let scaled = scaled_edge(edge, percent);
            &&& scaled % 2 == 0
            &&& scaled >= 2
            &&& scaled > 2 ==> 100 * scaled <= edge * percent
            &&& edge * percent < 100 * (scaled + 2)
        }),
        edge >= 2 && edge % 2 == 0 ==> scaled_edge(edge, 100) == edge,
{
    assert(0 <= edge * percent) by (nonlinear_arith)
        requires
            0 <= edge,
            0 <= percent,
    ;
}

/// Level 5.2 allows 36864 blocks of 16 by 16 pixels in a frame and 2073600 of them in a
/// second; blocks at the right and the lower edge count in full.
pub proof fn law_the_level_counts_blocks(
    width: int,
    height: int,
    fps: int,
    columns: int,
    rows: int,
)
    requires
        16 * columns - 16 < width <= 16 * columns,
        16 * rows - 16 < height <= 16 * rows,
    ensures
        macroblocks(width, height) == columns * rows,
        within_level(width, height, fps) <==> columns * rows <= 36_864 && columns * rows * fps
            <= 2_073_600,
{
    assert((width + 15) / 16 == columns);
    assert((height + 15) / 16 == rows);
}

/// The encoded frames are as large as the level lets them be: no percentage up to the
/// one asked for that is larger keeps within it, and only one percentage is that.
pub proof fn law_frames_are_as_large_as_the_level_allows(
    width: int,
    height: int,
    asked: int,
    fps: int,
    percent: int,
    other: int,
)
    requires
        is_encoded_percent(width, height, asked, fps, percent),
    ensures
        1 <= percent <= asked,
        within_level(scaled_edge(width, percent), scaled_edge(height, percent), fps),
        percent < other <= asked ==> !within_level(
            scaled_edge(width, other),
            scaled_edge(height, other),
            fps,
        ),
        is_encoded_percent(width, height, asked, fps, other) ==> other == percent,
{
    if percent < other <= asked {
        assert(!scale_fits(width, height, other, fps));
    }
    if is_encoded_percent(width, height, asked, fps, other) && other < percent {
        assert(!scale_fits(width, height, percent, fps));
    }
}

/// A frame of another generation gets an encoder of its own. Within a generation the
/// encoder goes on exactly while nothing in its settings changes.
pub proof fn law_encoders_serve_one_generation(
    active: EncoderConfig,
    active_generation: Generation,
    next: EncoderConfig,
    next_generation: Generation,
)
    ensures
        ({
            let transition = transition_of(active, active_generation, next, next_generation);
            let same = active.raw_width == next.raw_width && active.raw_height == next.raw_height
                && active.encoded_width == next.encoded_width && active.encoded_height
                == next.encoded_height && active.fps == next.fps && active.bitrate_kbps
                == next.bitrate_kbps && active.crf == next.crf && active.chroma == next.chroma;
            &&& transition == EncoderTransition::ReplaceForGeneration <==> active_generation@
                != next_generation@
            &&& transition == EncoderTransition::Reuse <==> active_generation@ == next_generation@
                && same
            &&& transition == EncoderTransition::RequestNewGeneration <==> active_generation@
                == next_generation@ && !same
        }),
{
}

} // verus!
