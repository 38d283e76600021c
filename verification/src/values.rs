//! Validated values that the gateway, the compositor and the browser exchange.

use std::sync::Arc;
use vstd::prelude::*;

verus! {

/// The largest encoded access unit that the browser protocol carries.
pub const MAX_VIDEO_DATA_BYTES: usize = 0x100_0000;

/// The value that a constructor refused.
#[derive(Clone, Copy, Debug, PartialEq, Eq, Structural)]
pub enum InvalidValue {
    Generation,
    FrameRate,
    Bitrate,
    Scale,
    Crf,
    FrameDimension,
    InputSequence,
    RequestId,
}

impl InvalidValue {
    pub open spec fn spec_message(self) -> Seq<char> {
        match self {
            InvalidValue::Generation => "generation must be positive"@,
            InvalidValue::FrameRate => "frame rate must be between 1 and 120"@,
            InvalidValue::Bitrate => "bitrate must be at least 300 kbps"@,
            InvalidValue::Scale => "scale must be between 50 and 100 percent"@,
            InvalidValue::Crf => "CRF must be at most 51"@,
            InvalidValue::FrameDimension => "frame dimensions must be positive and even"@,
            InvalidValue::InputSequence => "input sequence must be positive"@,
            InvalidValue::RequestId => "request ID must be positive"@,
        }
    }

    pub fn message(self) -> (text: &'static str)
        ensures
            text@ == self.spec_message(),
    {
        match self {
            InvalidValue::Generation => "generation must be positive",
            InvalidValue::FrameRate => "frame rate must be between 1 and 120",
            InvalidValue::Bitrate => "bitrate must be at least 300 kbps",
            InvalidValue::Scale => "scale must be between 50 and 100 percent",
            InvalidValue::Crf => "CRF must be at most 51",
            InvalidValue::FrameDimension => "frame dimensions must be positive and even",
            InvalidValue::InputSequence => "input sequence must be positive",
            InvalidValue::RequestId => "request ID must be positive",
        }
    }
}

/// A count that is never zero.
#[derive(Clone, Copy, Debug, PartialEq, Eq, Structural)]
pub struct NonZeroCount(u64);

impl NonZeroCount {
    #[verifier::type_invariant]
    spec fn inv(self) -> bool {
        self.0 > 0
    }

    pub closed spec fn view(&self) -> u64 {
        self.0
    }

    pub fn new(value: u64) -> (r: Option<Self>)
        ensures
            r is Some <==> value > 0,
            r matches Some(count) ==> count@ == value,
    {
        if value > 0 {
            Some(NonZeroCount(value))
        } else {
            None
        }
    }

    pub fn one() -> (r: Self)
        ensures
            r@ == 1,
    {
        NonZeroCount(1)
    }

    pub fn get(self) -> (r: u64)
        ensures
            r == self@,
            r > 0,
    {
        proof {
            use_type_invariant(&self);
        }
        self.0
    }

    pub fn saturating_add(self, other: u64) -> (r: Self)
        ensures
            r@ == if self@ + other <= u64::MAX {
                self@ + other
            } else {
                u64::MAX as int
            },
    {
        proof {
            use_type_invariant(&self);
        }
        NonZeroCount(self.0.saturating_add(other))
    }
}

/// Numbers one run of the encoder. Frames of a later generation replace those of
/// an earlier one.
#[derive(Clone, Copy, Debug, PartialEq, Eq, Structural)]
pub struct Generation(u32);

impl Generation {
    #[verifier::type_invariant]
    spec fn inv(self) -> bool {
        self.0 > 0
    }

    pub closed spec fn view(&self) -> u32 {
        self.0
    }

    pub fn new(value: u32) -> (r: Result<Self, InvalidValue>)
        ensures
            value > 0 <==> r is Ok,
            r matches Ok(generation) ==> generation@ == value,
            r matches Err(error) ==> error == InvalidValue::Generation,
    {
        if value > 0 {
            Ok(Generation(value))
        } else {
            Err(InvalidValue::Generation)
        }
    }

    pub fn first() -> (r: Self)
        ensures
            r@ == 1,
    {
        Generation(1)
    }

    /// The generation after this one, if there is one.
    pub fn next(self) -> (r: Option<Self>)
        ensures
            r is Some <==> self@ < u32::MAX,
            r matches Some(next) ==> next@ == self@ + 1,
    {
        proof {
            use_type_invariant(&self);
        }
        if self.0 < u32::MAX {
            Some(Generation(self.0 + 1))
        } else {
            None
        }
    }

    pub fn get(self) -> (r: u32)
        ensures
            r == self@,
            r > 0,
    {
        proof {
            use_type_invariant(&self);
        }
        self.0
    }
}

/// Generations are told apart by their numbers alone.
pub broadcast proof fn lemma_generation_ext(a: Generation, b: Generation)
    ensures
        #![trigger a.view(), b.view()]
        a@ == b@ ==> a == b,
{
}

pub open spec fn valid_fps(value: int) -> bool {
    1 <= value <= 120
}

/// A nominal frame rate in frames per second.
#[derive(Clone, Copy, Debug, PartialEq, Eq, PartialOrd, Ord, Structural)]
pub struct Fps(u32);

impl Fps {
    #[verifier::type_invariant]
    spec fn inv(self) -> bool {
        valid_fps(self.0 as int)
    }

    pub closed spec fn view(&self) -> u32 {
        self.0
    }

    pub fn new(value: u32) -> (r: Result<Self, InvalidValue>)
        ensures
            valid_fps(value as int) <==> r is Ok,
            r matches Ok(fps) ==> fps@ == value,
            r matches Err(error) ==> error == InvalidValue::FrameRate,
    {
        if 1 <= value && value <= 120 {
            Ok(Fps(value))
        } else {
            Err(InvalidValue::FrameRate)
        }
    }

    pub fn get(self) -> (r: u32)
        ensures
            r == self@,
            valid_fps(r as int),
    {
        proof {
            use_type_invariant(&self);
        }
        self.0
    }

    /// Frames between keyframes: a quarter of a second, rounded up.
    pub open spec fn spec_keyframe_interval(self) -> int {
        (self@ + 3) / 4
    }

    pub fn keyframe_interval(self) -> (r: u32)
        ensures
            r == self.spec_keyframe_interval(),
            1 <= r <= 30,
    {
        proof {
            use_type_invariant(&self);
        }
        (self.0 + 3) / 4
    }

    /// One step down, but not below `floor`.
    pub fn lowered_by(self, step: u32, floor: Fps) -> (r: Self)
        ensures
            r@ == if self@ - step >= floor@ {
                self@ - step
            } else {
                floor@ as int
            },
    {
        proof {
            use_type_invariant(&self);
            use_type_invariant(&floor);
        }
        let lowered: u32 = self.0.saturating_sub(step);
        if lowered >= floor.0 {
            Fps(lowered)
        } else {
            floor
        }
    }

    /// One step up, but not above `ceiling`.
    pub fn raised_by(self, step: u32, ceiling: Fps) -> (r: Self)
        ensures
            r@ == if self@ + step <= ceiling@ {
                self@ + step
            } else {
                ceiling@ as int
            },
    {
        proof {
            use_type_invariant(&self);
            use_type_invariant(&ceiling);
        }
        let raised: u32 = self.0.saturating_add(step);
        if raised <= ceiling.0 {
            Fps(raised)
        } else {
            ceiling
        }
    }
}

/// Frame rates are told apart by their numbers alone.
pub broadcast proof fn lemma_fps_ext(a: Fps, b: Fps)
    ensures
        #![trigger a.view(), b.view()]
        a@ == b@ ==> a == b,
{
}

pub const MIN_KBPS: u32 = 300;

/// A video bitrate cap in kilobits per second.
#[derive(Clone, Copy, Debug, PartialEq, Eq, PartialOrd, Ord, Structural)]
pub struct Kbps(u32);

impl Kbps {
    #[verifier::type_invariant]
    spec fn inv(self) -> bool {
        self.0 >= MIN_KBPS
    }

    pub closed spec fn view(&self) -> u32 {
        self.0
    }

    pub fn new(value: u32) -> (r: Result<Self, InvalidValue>)
        ensures
            value >= MIN_KBPS <==> r is Ok,
            r matches Ok(bitrate) ==> bitrate@ == value,
            r matches Err(error) ==> error == InvalidValue::Bitrate,
    {
        if value >= MIN_KBPS {
            Ok(Kbps(value))
        } else {
            Err(InvalidValue::Bitrate)
        }
    }

    pub fn get(self) -> (r: u32)
        ensures
            r == self@,
            r >= MIN_KBPS,
    {
        proof {
            use_type_invariant(&self);
        }
        self.0
    }

    /// The given percentage, rounded down and brought back into range.
    pub open spec fn spec_scaled(value: int, percent: int) -> int {
        let scaled = value * percent / 100;
        if scaled < MIN_KBPS {
            MIN_KBPS as int
        } else if scaled > u32::MAX {
            u32::MAX as int
        } else {
            scaled
        }
    }

    pub fn scaled(self, percent: u8) -> (r: Self)
        ensures
            r@ == Self::spec_scaled(self@ as int, percent as int),
    {
        proof {
            use_type_invariant(&self);
        }
        assert(self.0 * percent <= u32::MAX * 255) by (nonlinear_arith)
            requires
                self.0 <= u32::MAX,
                percent <= 255,
        ;
        let scaled: u64 = self.0 as u64 * percent as u64 / 100;
        if scaled < MIN_KBPS as u64 {
            Kbps(MIN_KBPS)
        } else if scaled > u32::MAX as u64 {
            Kbps(u32::MAX)
        } else {
            Kbps(scaled as u32)
        }
    }

    pub fn at_least(self, floor: Kbps) -> (r: Self)
        ensures
            r == if self@ < floor@ {
                floor
            } else {
                self
            },
    {
        if self.0 < floor.0 {
            floor
        } else {
            self
        }
    }

    pub fn at_most(self, ceiling: Kbps) -> (r: Self)
        ensures
            r == if self@ > ceiling@ {
                ceiling
            } else {
                self
            },
    {
        if self.0 > ceiling.0 {
            ceiling
        } else {
            self
        }
    }
}

/// Bitrates are told apart by their numbers alone.
pub broadcast proof fn lemma_kbps_ext(a: Kbps, b: Kbps)
    ensures
        #![trigger a.view(), b.view()]
        a@ == b@ ==> a == b,
{
}

pub open spec fn valid_scale(value: int) -> bool {
    50 <= value <= 100
}

/// The encoded frame's edge length as a percentage of the output's.
#[derive(Clone, Copy, Debug, PartialEq, Eq, PartialOrd, Ord, Structural)]
pub struct ScalePercent(u32);

impl ScalePercent {
    #[verifier::type_invariant]
    spec fn inv(self) -> bool {
        valid_scale(self.0 as int)
    }

    pub closed spec fn view(&self) -> u32 {
        self.0
    }

    pub fn new(value: u32) -> (r: Result<Self, InvalidValue>)
        ensures
            valid_scale(value as int) <==> r is Ok,
            r matches Ok(scale) ==> scale@ == value,
            r matches Err(error) ==> error == InvalidValue::Scale,
    {
        if 50 <= value && value <= 100 {
            Ok(ScalePercent(value))
        } else {
            Err(InvalidValue::Scale)
        }
    }

    pub fn get(self) -> (r: u32)
        ensures
            r == self@,
            valid_scale(r as int),
    {
        proof {
            use_type_invariant(&self);
        }
        self.0
    }

    pub fn minimum() -> (r: Self)
        ensures
            r@ == 50,
    {
        ScalePercent(50)
    }

    pub fn maximum() -> (r: Self)
        ensures
            r@ == 100,
    {
        ScalePercent(100)
    }

    /// One step down, but not below `floor`.
    pub fn lowered_by(self, step: u32, floor: ScalePercent) -> (r: Self)
        ensures
            r@ == if self@ - step >= floor@ {
                self@ - step
            } else {
                floor@ as int
            },
    {
        proof {
            use_type_invariant(&self);
            use_type_invariant(&floor);
        }
        let lowered: u32 = self.0.saturating_sub(step);
        if lowered >= floor.0 {
            ScalePercent(lowered)
        } else {
            floor
        }
    }

    /// One step up, but not above `ceiling`.
    pub fn raised_by(self, step: u32, ceiling: ScalePercent) -> (r: Self)
        ensures
            r@ == if self@ + step <= ceiling@ {
                self@ + step
            } else {
                ceiling@ as int
            },
    {
        proof {
            use_type_invariant(&self);
            use_type_invariant(&ceiling);
        }
        let raised: u32 = self.0.saturating_add(step);
        if raised <= ceiling.0 {
            ScalePercent(raised)
        } else {
            ceiling
        }
    }
}

/// Scales are told apart by their numbers alone.
pub broadcast proof fn lemma_scale_ext(a: ScalePercent, b: ScalePercent)
    ensures
        #![trigger a.view(), b.view()]
        a@ == b@ ==> a == b,
{
}

/// The encoder's constant rate factor: lower is better.
#[derive(Clone, Copy, Debug, PartialEq, Eq, PartialOrd, Ord, Structural)]
pub struct Crf(u8);

impl Crf {
    #[verifier::type_invariant]
    spec fn inv(self) -> bool {
        self.0 <= 51
    }

    pub closed spec fn view(&self) -> u8 {
        self.0
    }

    pub fn new(value: u8) -> (r: Result<Self, InvalidValue>)
        ensures
            value <= 51 <==> r is Ok,
            r matches Ok(crf) ==> crf@ == value,
            r matches Err(error) ==> error == InvalidValue::Crf,
    {
        if value <= 51 {
            Ok(Crf(value))
        } else {
            Err(InvalidValue::Crf)
        }
    }

    /// A rate factor that is known to be in range.
    pub fn constant(value: u8) -> (r: Self)
        requires
            value <= 51,
        ensures
            r@ == value,
    {
        Crf(value)
    }

    pub fn get(self) -> (r: u8)
        ensures
            r == self@,
            r <= 51,
    {
        proof {
            use_type_invariant(&self);
        }
        self.0
    }
}

/// Rate factors are told apart by their numbers alone.
pub broadcast proof fn lemma_crf_ext(a: Crf, b: Crf)
    ensures
        #![trigger a.view(), b.view()]
        a@ == b@ ==> a == b,
{
}

pub open spec fn valid_dimension(value: int) -> bool {
    value > 0 && value % 2 == 0
}

/// The width or height of an encoded frame in pixels.
#[derive(Clone, Copy, Debug, PartialEq, Eq, Structural)]
pub struct FrameDimension(u16);

impl FrameDimension {
    #[verifier::type_invariant]
    spec fn inv(self) -> bool {
        valid_dimension(self.0 as int)
    }

    pub closed spec fn view(&self) -> u16 {
        self.0
    }

    pub fn new(value: u16) -> (r: Result<Self, InvalidValue>)
        ensures
            valid_dimension(value as int) <==> r is Ok,
            r matches Ok(dimension) ==> dimension@ == value,
            r matches Err(error) ==> error == InvalidValue::FrameDimension,
    {
        if value > 0 && value % 2 == 0 {
            Ok(FrameDimension(value))
        } else {
            Err(InvalidValue::FrameDimension)
        }
    }

    /// A dimension that is known to be valid.
    pub fn constant(value: u16) -> (r: Self)
        requires
            valid_dimension(value as int),
        ensures
            r@ == value,
    {
        FrameDimension(value)
    }

    pub fn get(self) -> (r: u16)
        ensures
            r == self@,
            valid_dimension(r as int),
    {
        proof {
            use_type_invariant(&self);
        }
        self.0
    }
}

/// Dimensions are told apart by their numbers alone.
pub broadcast proof fn lemma_dimension_ext(a: FrameDimension, b: FrameDimension)
    ensures
        #![trigger a.view(), b.view()]
        a@ == b@ ==> a == b,
{
}

/// Counts the input messages of the controlling browser.
#[derive(Clone, Copy, Debug, PartialEq, Eq, Structural)]
pub struct InputSequence(u64);

impl InputSequence {
    #[verifier::type_invariant]
    spec fn inv(self) -> bool {
        self.0 > 0
    }

    pub closed spec fn view(&self) -> u64 {
        self.0
    }

    pub fn new(value: u64) -> (r: Result<Self, InvalidValue>)
        ensures
            value > 0 <==> r is Ok,
            r matches Ok(sequence) ==> sequence@ == value,
            r matches Err(error) ==> error == InvalidValue::InputSequence,
    {
        if value > 0 {
            Ok(InputSequence(value))
        } else {
            Err(InvalidValue::InputSequence)
        }
    }

    pub fn get(self) -> (r: u64)
        ensures
            r == self@,
            r > 0,
    {
        proof {
            use_type_invariant(&self);
        }
        self.0
    }
}

#[derive(Clone, Copy, Debug, PartialEq, Eq, Structural)]
pub enum Chroma {
    Rgb,
    Yuv444,
    Yuv420,
}

#[derive(Clone, Copy, Debug, PartialEq, Eq, Structural)]
pub enum FrameKind {
    Key,
    Delta,
}

#[derive(Clone, Copy, Debug, PartialEq, Eq, Structural)]
pub enum Continuity {
    Continuous,
    AfterGap,
}

/// Whether a decodable picture is at hand or the stream waits for a keyframe.
#[derive(Clone, Copy, Debug, PartialEq, Eq, Structural)]
pub enum GopState {
    KeyframeCached,
    Recovering,
}

/// What the compositor reports of each frame that it handed to the encoder.
#[derive(Clone, Copy, Debug, PartialEq, Eq, Structural)]
pub struct FrameMetadata {
    pub generation: Generation,
    pub width: FrameDimension,
    pub height: FrameDimension,
    pub capture_nanos: u64,
    pub sequence: u64,
    pub input_sequence: Option<InputSequence>,
    pub fps: Fps,
    pub chroma: Chroma,
}

/// One encoded frame with the metadata that belongs to it.
#[derive(Debug)]
pub struct VideoSample {
    pub data: Arc<Vec<u8>>,
    pub kind: FrameKind,
    pub continuity: Continuity,
    pub metadata: FrameMetadata,
}

impl Clone for VideoSample {
    fn clone(&self) -> (r: Self)
        ensures
            r == *self,
    {
        VideoSample {
            data: self.data.clone(),
            kind: self.kind,
            continuity: self.continuity,
            metadata: self.metadata,
        }
    }
}

/// The three levels that adaptive quality moves.
#[derive(Clone, Copy, Debug, PartialEq, Eq, Structural)]
pub struct QualityLevels {
    pub bitrate: Kbps,
    pub fps: Fps,
    pub scale: ScalePercent,
}

#[derive(Clone, Copy, Debug, PartialEq, Eq, Structural)]
pub enum QualityPreset {
    Automatic,
    High,
    Medium,
    Low,
}

pub broadcast group group_values_ext {
    lemma_generation_ext,
    lemma_fps_ext,
    lemma_kbps_ext,
    lemma_scale_ext,
    lemma_crf_ext,
    lemma_dimension_ext,
}

/// The ranges of the values: frame rates from 1 to 120, scales from 50 to 100 percent,
/// bitrates from 300 kbps, and frame edges that are positive and even.
pub proof fn law_values_have_ranges(value: int)
    ensures
        valid_fps(value) <==> 0 < value < 121,
        valid_scale(value) <==> 49 < value < 101,
        MIN_KBPS == 300,
        valid_dimension(value) <==> 2 <= value && 2 * (value / 2) == value,
{
}

/// Keyframes are a quarter of a second apart, rounded up to whole frames.
pub proof fn law_keyframes_come_four_times_a_second(fps: Fps)
    ensures
        fps@ <= 4 * fps.spec_keyframe_interval() < fps@ + 4,
{
}

/// A share of a bitrate is rounded down and kept within what a bitrate can be; a larger
/// share is no lower, and one hundred percent is the bitrate.
pub proof fn law_shares_of_a_bitrate(value: int, percent: int)
    requires
        300 <= value <= u32::MAX,
        0 <= percent <= 255,
    ensures
        ({
            let share = Kbps::spec_scaled(value, percent);
            &&& 300 <= share <= u32::MAX
            &&& share > 300 ==> 100 * share <= value * percent
            &&& share < u32::MAX ==> value * percent < 100 * share + 100
            &&& value * percent < 30_000 ==> share == 300
        }),
        Kbps::spec_scaled(value, 100) == value,
{
}

} // verus!
