//! What a viewer's socket is sent for each frame.

use crate::values::{Chroma, Generation, VideoSample};
use vstd::prelude::*;

verus! {

/// The H.264 profile, constraint and level bytes of a stream.
#[derive(Clone, Copy, Debug, PartialEq, Eq, Structural)]
pub enum H264Profile {
    High,
    High444Predictive,
}

/// Only 4:2:0 fits the plain High profile.
pub open spec fn spec_h264_profile(chroma: Chroma) -> H264Profile {
    match chroma {
        Chroma::Yuv420 => H264Profile::High,
        Chroma::Yuv444 | Chroma::Rgb => H264Profile::High444Predictive,
    }
}

pub fn h264_profile(chroma: Chroma) -> (r: H264Profile)
    ensures
        r == spec_h264_profile(chroma),
{
    match chroma {
        Chroma::Yuv420 => H264Profile::High,
        Chroma::Yuv444 | Chroma::Rgb => H264Profile::High444Predictive,
    }
}

impl H264Profile {
    pub open spec fn spec_codec(self) -> Seq<char> {
        match self {
            H264Profile::High => "avc1.640034"@,
            H264Profile::High444Predictive => "avc1.F40034"@,
        }
    }

    /// The codec string that a browser's decoder is configured with.
    pub fn codec(self) -> (r: &'static str)
        ensures
            r@ == self.spec_codec(),
    {
        match self {
            H264Profile::High => "avc1.640034",
            H264Profile::High444Predictive => "avc1.F40034",
        }
    }
}

/// The generation whose configuration the viewer was last sent.
#[derive(Debug)]
pub struct VideoAnnouncements {
    pub announced: Option<Generation>,
}

impl VideoAnnouncements {
    /// Whether a frame comes without its generation having been announced.
    pub open spec fn is_news(self, frame: VideoSample) -> bool {
        self.announced != Some(frame.metadata.generation)
    }

    /// The announcements after one of a frame's generation.
    pub open spec fn after(frame: VideoSample) -> Self {
        VideoAnnouncements { announced: Some(frame.metadata.generation) }
    }

    pub fn new() -> (r: Self)
        ensures
            r.announced is None,
    {
        VideoAnnouncements { announced: None }
    }

    /// The codec of a frame whose generation was not announced yet. The configuration
    /// and the generation's first keyframe share the socket, so message order is what
    /// reconfigures the decoder in time.
    pub fn codec_before(&self, frame: &VideoSample) -> (r: Option<&'static str>)
        ensures
            r is Some <==> self.is_news(*frame),
            r matches Some(codec) ==> codec@ == spec_h264_profile(
                frame.metadata.chroma,
            ).spec_codec(),
    {
        if self.announced == Some(frame.metadata.generation) {
            None
        } else {
            Some(h264_profile(frame.metadata.chroma).codec())
        }
    }

    /// The configuration was sent.
    pub fn announced(&mut self, frame: &VideoSample)
        ensures
            *final(self) == Self::after(*frame),
    {
        self.announced = Some(frame.metadata.generation);
    }
}

/// A viewer is told the codec before the first frame of each generation and not again
/// before that generation ends.
pub proof fn law_generations_are_announced_once(first: VideoSample, next: VideoSample)
    ensures
        (VideoAnnouncements { announced: None }).is_news(first),
        VideoAnnouncements::after(first).is_news(next) <==> next.metadata.generation
            != first.metadata.generation,
{
}

/// A decoder for 4:2:0 is configured for the high profile, any other for the profile
/// that carries full colour; both at level 5.2.
pub proof fn law_decoders_fit_the_chroma(chroma: Chroma)
    ensures
        chroma == Chroma::Yuv420 ==> spec_h264_profile(chroma).spec_codec() == "avc1.640034"@,
        chroma != Chroma::Yuv420 ==> spec_h264_profile(chroma).spec_codec() == "avc1.F40034"@,
{
}

} // verus!
