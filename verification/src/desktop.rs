//! The compositor's own state: which picture it shows, in which generation, and what
//! each of the gateway's commands does to it.

use crate::clock::Instant;
use crate::encoder::{
    encoded_dimensions, is_encoded_percent, scaled_edge, EncoderConfig, VideoError,
};
use crate::frames::{CapturedFrame, FrameModel, Pool, PoolModel};
use crate::messages::{
    ButtonState, ClipboardText, Command, CursorShape, CursorVisibility, Event, FrameSize, KeyState,
    QualityCommand, ResizeApplied, ScaleV120, TextAction,
};
use crate::pipeline::KeyframeState;
use crate::values::{
    Chroma, Crf, FrameDimension, FrameMetadata, Fps, Generation, InputSequence, Kbps, ScalePercent,
};
use vstd::prelude::*;

verus! {

broadcast use crate::values::group_values_ext;

/// The constant rate factor that the compositor starts with.
pub const INITIAL_CRF: u8 = 23;

/// How long Xwayland may take to become ready.
pub const XWAYLAND_DEADLINE_NANOS: u64 = 10_000_000_000;

/// How often Xwayland is looked after.
pub const XWAYLAND_PERIOD_NANOS: u64 = 100_000_000;

#[derive(Debug)]
pub struct Desktop {
    pub quality: QualityCommand,
    pub size: FrameSize,
    pub generation: Generation,
    /// The generation of which viewers have a keyframe.
    pub acknowledged: Option<Generation>,
    /// The number of the next frame.
    pub sequence: u64,
    pub latest_input_sequence: Option<InputSequence>,
    /// Whether something has changed that the damage of the windows does not tell.
    pub dirty: bool,
    pub running: bool,
    /// The first failure, which ended the run.
    pub failure: Option<String>,
    /// The X11 display, once Xwayland is ready.
    pub display: Option<u32>,
}

#[verifier::ext_equal]
pub struct DesktopModel {
    pub quality: QualityCommand,
    pub size: FrameSize,
    pub generation: u32,
    pub acknowledged: Option<u32>,
    pub sequence: u64,
    pub latest_input_sequence: Option<InputSequence>,
    pub dirty: bool,
    pub running: bool,
    pub failure: Option<Seq<char>>,
    pub display: Option<u32>,
}

/// The mode of the output: its size, and its refresh rate in millihertz.
#[derive(Clone, Copy, Debug, PartialEq, Eq, Structural)]
pub struct OutputMode {
    pub width: i32,
    pub height: i32,
    pub refresh: i32,
}

pub open spec fn mode_of(size: FrameSize, fps: Fps) -> OutputMode {
    OutputMode {
        width: size.spec_width() as i32,
        height: size.spec_height() as i32,
        refresh: (fps@ * 1000) as i32,
    }
}

/// The output's mode for a size and a frame rate.
pub fn output_mode(size: FrameSize, fps: Fps) -> (r: OutputMode)
    ensures
        r == mode_of(size, fps),
        r.width == size.spec_width(),
        r.height == size.spec_height(),
        r.refresh == fps@ * 1000,
{
    let width: u32 = size.width();
    let height: u32 = size.height();
    let rate: u32 = fps.get();
    OutputMode { width: width as i32, height: height as i32, refresh: rate as i32 * 1000 }
}

/// What the compositor does after it has taken a command in.
#[derive(Debug)]
pub enum Effect {
    Nothing,
    /// The pointer moves to a place in the output, of which each coordinate runs
    /// from 0 to 65535.
    MoveTo { x: u16, y: u16 },
    MoveBy { dx: i32, dy: i32 },
    Button { button: u32, state: ButtonState },
    /// A key, by its evdev code.
    Key { key: u32, state: ButtonState },
    /// Everything that the browser holds is let go of.
    ReleaseInput,
    Scroll { dx: i32, dy: i32 },
    /// The output changes. Then the encoder is told the generation and the gateway
    /// that the size was applied; without `applied` no generation is left, and the
    /// command fails.
    Resize { mode: OutputMode, scale_v120: ScaleV120, applied: Option<ResizeApplied> },
    /// The encoder is told the new generation.
    SetGeneration { generation: Generation },
    /// The text replaces what is being composed.
    CommitText { text: String },
    /// The text is shown as being composed, with the cursor behind it.
    ComposeText { text: String, cursor: i32 },
    SetClipboard(ClipboardText),
}

#[derive(Clone, Copy, Debug, PartialEq, Eq, Structural)]
pub enum CommandError {
    GenerationExhausted,
    TextTooLong,
}

impl CommandError {
    pub open spec fn spec_message(self) -> Seq<char> {
        match self {
            CommandError::GenerationExhausted => "media generation exhausted"@,
            CommandError::TextTooLong => "text is too long"@,
        }
    }

    pub fn message(self) -> (text: &'static str)
        ensures
            text@ == self.spec_message(),
    {
        match self {
            CommandError::GenerationExhausted => "media generation exhausted",
            CommandError::TextTooLong => "text is too long",
        }
    }
}

pub open spec fn text_bytes(text: Seq<char>) -> int {
    vstd::utf8::encode_utf8(text).len() as int
}

impl DesktopModel {
    pub open spec fn failed(self, error: Seq<char>) -> Self {
        DesktopModel {
            failure: match self.failure {
                Some(first) => Some(first),
                None => Some(error),
            },
            running: false,
            ..self
        }
    }

    /// The next generation, of which nobody has seen anything yet.
    pub open spec fn advanced(self) -> Self {
        if self.generation < u32::MAX {
            DesktopModel {
                generation: (self.generation + 1) as u32,
                acknowledged: None,
                dirty: true,
                ..self
            }
        } else {
            self
        }
    }

    pub open spec fn input_seen(self, command: Command) -> Self {
        match command.spec_input_sequence() {
            Some(sequence) => DesktopModel { latest_input_sequence: Some(sequence), ..self },
            None => self,
        }
    }

    pub open spec fn applied(self, command: Command) -> Self {
        let seen = self.input_seen(command);
        match command {
            Command::Resize { size, .. } => DesktopModel { size, ..seen }.advanced(),
            Command::Quality(quality) => if quality != self.quality {
                DesktopModel { quality, ..seen }.advanced()
            } else {
                seen
            },
            Command::ResetVideo => seen.advanced(),
            Command::KeyframeReadiness(readiness) => if readiness.generation@ == self.generation {
                DesktopModel {
                    acknowledged: match readiness.state {
                        KeyframeState::Cached => Some(self.generation),
                        KeyframeState::Missing => None,
                    },
                    ..seen
                }
            } else {
                seen
            },
            _ => seen,
        }
    }

    /// Whether `result` is what the command asks for.
    pub open spec fn effect(self, command: Command, result: Result<Effect, CommandError>) -> bool {
        let exhausted = self.generation == u32::MAX;
        match command {
            Command::PointerAbsolute { x, y, .. } => result == Ok::<Effect, CommandError>(
                Effect::MoveTo { x, y },
            ),
            Command::PointerRelative { dx, dy, .. } => result == Ok::<Effect, CommandError>(
                Effect::MoveBy { dx, dy },
            ),
            Command::PointerButton { button, state, .. } => result == Ok::<Effect, CommandError>(
                Effect::Button { button, state },
            ),
            Command::PointerScroll { dx, dy, .. } => result == Ok::<Effect, CommandError>(
                Effect::Scroll { dx, dy },
            ),
            Command::KeyboardKey { key, key_state, .. } => result == Ok::<Effect, CommandError>(
                match key_state {
                    KeyState::Pressed => Effect::Key { key, state: ButtonState::Pressed },
                    KeyState::Released => Effect::Key { key, state: ButtonState::Released },
                    KeyState::Repeated => Effect::Nothing,
                },
            ),
            Command::ReleaseAll => result == Ok::<Effect, CommandError>(Effect::ReleaseInput),
            Command::Resize { request_id, size, scale_v120 } => result matches Ok(
                Effect::Resize { mode, scale_v120: scale, applied },
            ) && {
                &&& mode == mode_of(size, self.quality.fps)
                &&& scale == scale_v120
                &&& match applied {
                    Some(applied) => !exhausted && applied.request_id == request_id && applied.size
                        == size && applied.scale_v120 == scale_v120 && applied.generation@
                        == self.generation + 1,
                    None => exhausted,
                }
            },
            Command::Quality(quality) => if quality == self.quality {
                result == Ok::<Effect, CommandError>(Effect::Nothing)
            } else {
                self.new_generation(result)
            },
            Command::ResetVideo => self.new_generation(result),
            Command::KeyframeReadiness(_) => result == Ok::<Effect, CommandError>(Effect::Nothing),
            Command::Text { action, text, .. } => if text_bytes(text@) > i32::MAX {
                result == Err::<Effect, CommandError>(CommandError::TextTooLong)
            } else {
                match action {
                    TextAction::Commit => result matches Ok(Effect::CommitText { text: out })
                        && out@ == text@,
                    TextAction::Preedit => result matches Ok(
                        Effect::ComposeText { text: out, cursor },
                    ) && out@ == text@ && cursor == text_bytes(text@),
                }
            },
            Command::Clipboard(text) => result matches Ok(Effect::SetClipboard(out)) && out
                == text,
        }
    }

    pub open spec fn new_generation(self, result: Result<Effect, CommandError>) -> bool {
        if self.generation == u32::MAX {
            result == Err::<Effect, CommandError>(CommandError::GenerationExhausted)
        } else {
            result matches Ok(Effect::SetGeneration { generation }) && generation@
                == self.generation + 1
        }
    }

    /// Whether a picture is due although no window was damaged.
    pub open spec fn forced(self) -> bool {
        self.dirty || self.acknowledged != Some(self.generation)
    }
}

impl Desktop {
    pub open spec fn view(&self) -> DesktopModel {
        DesktopModel {
            quality: self.quality,
            size: self.size,
            generation: self.generation@,
            acknowledged: match self.acknowledged {
                Some(generation) => Some(generation@),
                None => None,
            },
            sequence: self.sequence,
            latest_input_sequence: self.latest_input_sequence,
            dirty: self.dirty,
            running: self.running,
            failure: match self.failure {
                Some(error) => Some(error@),
                None => None,
            },
            display: self.display,
        }
    }

    /// A desktop before its first picture: RGB at full scale, in the first
    /// generation.
    pub fn new(frame_rate: Fps, bitrate: Kbps, resolution: FrameSize) -> (r: Self)
        ensures
            r@.quality.fps == frame_rate,
            r@.quality.bitrate_kbps == bitrate,
            r@.quality.scale_percent@ == 100,
            r@.quality.crf@ == INITIAL_CRF,
            r@.quality.crf@ == 23,
            r@.quality.chroma == Chroma::Rgb,
            r@ == (DesktopModel {
                quality: r@.quality,
                size: resolution,
                generation: 1,
                acknowledged: None,
                sequence: 0,
                latest_input_sequence: None,
                dirty: true,
                running: true,
                failure: None,
                display: None,
            }),
    {
        Desktop {
            quality: QualityCommand {
                bitrate_kbps: bitrate,
                fps: frame_rate,
                scale_percent: ScalePercent::maximum(),
                crf: Crf::constant(INITIAL_CRF),
                chroma: Chroma::Rgb,
            },
            size: resolution,
            generation: Generation::first(),
            acknowledged: None,
            sequence: 0,
            latest_input_sequence: None,
            dirty: true,
            running: true,
            failure: None,
            display: None,
        }
    }

    /// Ends the run. The first failure is the one that is reported.
    pub fn fail(&mut self, error: String)
        ensures
            final(self)@ == old(self)@.failed(error@),
    {
        if self.failure.is_none() {
            self.failure = Some(error);
        }
        self.running = false;
        assert(self@ =~= old(self)@.failed(error@));
    }

    /// Moves on to the next generation, unless all are used up.
    pub fn advance_generation(&mut self) -> (r: Option<Generation>)
        ensures
            final(self)@ == old(self)@.advanced(),
            r is Some <==> old(self)@.generation < u32::MAX,
            r matches Some(generation) ==> generation@ == final(self)@.generation,
    {
        match self.generation.next() {
            Some(next) => {
                self.generation = next;
                self.acknowledged = None;
                self.dirty = true;
                assert(self@ =~= old(self)@.advanced());
                Some(next)
            },
            None => None,
        }
    }

    fn advance(&mut self) -> (r: Result<Effect, CommandError>)
        ensures
            final(self)@ == old(self)@.advanced(),
            old(self)@.new_generation(r),
    {
        match self.advance_generation() {
            Some(generation) => Ok(Effect::SetGeneration { generation }),
            None => Err(CommandError::GenerationExhausted),
        }
    }

    /// Takes a command of the gateway in and says what follows from it. A new size,
    /// new encoder settings and a reset each start a new generation.
    pub fn apply_command(&mut self, command: Command) -> (r: Result<Effect, CommandError>)
        ensures
            final(self)@ == old(self)@.applied(command),
            old(self)@.effect(command, r),
    {
        if let Some(sequence) = command.input_sequence() {
            self.latest_input_sequence = Some(sequence);
        }
        assert(self@ =~= old(self)@.input_seen(command));
        match command {
            Command::PointerAbsolute { x, y, .. } => Ok(Effect::MoveTo { x, y }),
            Command::PointerRelative { dx, dy, .. } => Ok(Effect::MoveBy { dx, dy }),
            Command::PointerButton { button, state, .. } => Ok(Effect::Button { button, state }),
            Command::PointerScroll { dx, dy, .. } => Ok(Effect::Scroll { dx, dy }),
            Command::KeyboardKey { key, key_state, .. } => Ok(
                match key_state {
                    KeyState::Pressed => Effect::Key { key, state: ButtonState::Pressed },
                    KeyState::Released => Effect::Key { key, state: ButtonState::Released },
                    KeyState::Repeated => Effect::Nothing,
                },
            ),
            Command::ReleaseAll => Ok(Effect::ReleaseInput),
            Command::Resize { request_id, size, scale_v120 } => {
                let ghost seen = self@;
                self.size = size;
                assert(self@ =~= (DesktopModel { size, ..seen }));
                let mode: OutputMode = output_mode(size, self.quality.fps);
                let applied: Option<ResizeApplied> = match self.advance_generation() {
                    Some(generation) => Some(
                        ResizeApplied { request_id, size, scale_v120, generation },
                    ),
                    None => None,
                };
                Ok(Effect::Resize { mode, scale_v120, applied })
            },
            Command::Quality(quality) => {
                if quality != self.quality {
                    let ghost seen = self@;
                    self.quality = quality;
                    assert(self@ =~= (DesktopModel { quality, ..seen }));
                    self.advance()
                } else {
                    Ok(Effect::Nothing)
                }
            },
            Command::ResetVideo => self.advance(),
            Command::KeyframeReadiness(readiness) => {
                if readiness.generation.get() == self.generation.get() {
                    self.acknowledged = match readiness.state {
                        KeyframeState::Cached => Some(readiness.generation),
                        KeyframeState::Missing => None,
                    };
                }
                assert(self@ =~= old(self)@.applied(command));
                Ok(Effect::Nothing)
            },
            Command::Text { action, text, .. } => {
                let length: usize = text.as_str().as_bytes().len();
                if length > 0x7fff_ffff {
                    return Err(CommandError::TextTooLong);
                }
                match action {
                    TextAction::Commit => Ok(Effect::CommitText { text }),
                    TextAction::Preedit => Ok(
                        Effect::ComposeText { text, cursor: length as i32 },
                    ),
                }
            },
            Command::Clipboard(text) => Ok(Effect::SetClipboard(text)),
        }
    }
}

/// A new size, new settings or a reset is answered in a new generation, of which a
/// picture is then due and none was acknowledged. Everything else stays in the
/// generation that it found.
pub proof fn law_generations_change_only_on_request(desktop: DesktopModel, command: Command)
    requires
        desktop.generation < u32::MAX,
    ensures
        ({
            let after = desktop.applied(command);
            let asks = command is Resize || command is ResetVideo || (command matches Command::Quality(
                quality,
            ) && quality != desktop.quality);
            &&& asks ==> after.generation == desktop.generation + 1 && after.forced()
                && after.acknowledged is None
            &&& !asks ==> after.generation == desktop.generation && after.quality == desktop.quality
                && after.size == desktop.size
        }),
{
}

/// An acknowledgement of another generation than the present one changes nothing.
pub proof fn law_stale_acknowledgements_are_ignored(
    desktop: DesktopModel,
    readiness: crate::pipeline::KeyframeReadiness,
)
    requires
        readiness.generation@ != desktop.generation,
    ensures
        desktop.applied(Command::KeyframeReadiness(readiness)) == desktop,
{
}

/// The first failure is kept, whatever fails after it.
pub proof fn law_first_failure_is_reported(
    desktop: DesktopModel,
    first: Seq<char>,
    second: Seq<char>,
)
    requires
        desktop.failure is None,
    ensures
        desktop.failed(first).failed(second).failure == Some(first),
        !desktop.failed(first).failed(second).running,
{
}

/// What the encoder reports to the compositor.
#[derive(Debug)]
pub enum Notification {
    /// The encoder was handed a frame.
    Submitted(FrameMetadata),
    /// The encoder of that generation is gone and needs a new one.
    RestartRequired { generation: Generation },
    Fatal(String),
}

/// What follows from it.
#[derive(Debug)]
pub enum NotificationEffect {
    Nothing,
    /// The gateway is told of the frame.
    Report(FrameMetadata),
    /// The encoder is told the new generation.
    SetGeneration { generation: Generation },
}

impl DesktopModel {
    pub open spec fn notified(self, notification: Notification) -> Self {
        match notification {
            Notification::Submitted(_) => self,
            Notification::RestartRequired { generation } => if generation@ != self.generation {
                self
            } else if self.generation < u32::MAX {
                self.advanced()
            } else {
                self.failed(CommandError::GenerationExhausted.spec_message())
            },
            Notification::Fatal(error) => self.failed(error@),
        }
    }
}

impl Desktop {
    /// Takes a report of the encoder in. A restart is granted only to the encoder of
    /// the present generation, by starting the next one.
    pub fn notification(&mut self, notification: Notification) -> (effect: NotificationEffect)
        ensures
            final(self)@ == old(self)@.notified(notification),
            match notification {
                Notification::Submitted(metadata) => effect == NotificationEffect::Report(metadata),
                Notification::RestartRequired { generation } => if generation@ == old(self)@.generation && generation@ < u32::MAX {
                    effect matches NotificationEffect::SetGeneration { generation: next } && next@
                        == generation@ + 1
                } else {
                    effect is Nothing
                },
                Notification::Fatal(_) => effect is Nothing,
            },
    {
        match notification {
            Notification::Submitted(metadata) => NotificationEffect::Report(metadata),
            Notification::RestartRequired { generation } => {
                if generation.get() != self.generation.get() {
                    return NotificationEffect::Nothing;
                }
                match self.advance_generation() {
                    Some(next) => NotificationEffect::SetGeneration { generation: next },
                    None => {
                        self.fail(CommandError::GenerationExhausted.message().to_owned());
                        NotificationEffect::Nothing
                    },
                }
            },
            Notification::Fatal(error) => {
                self.fail(error);
                NotificationEffect::Nothing
            },
        }
    }
}

/// What is prepared before a picture is drawn.
#[derive(Clone, Copy, Debug, PartialEq, Eq, Structural)]
pub struct RenderPlan {
    /// The picture's buffer has another size than the output and is replaced.
    pub reallocate: bool,
    /// How old the contents of the buffer are, in pictures; 0 to draw all of it.
    pub age: usize,
}

#[derive(Clone, Copy, Debug, PartialEq, Eq, Structural)]
pub enum RenderError {
    SequenceExhausted,
    Video(VideoError),
}

impl RenderError {
    pub open spec fn spec_message(self) -> Seq<char> {
        match self {
            RenderError::SequenceExhausted => "frame sequence exhausted"@,
            RenderError::Video(_) => "invalid frame"@,
        }
    }

    pub fn message(self) -> (text: &'static str)
        ensures
            text@ == self.spec_message(),
    {
        match self {
            RenderError::SequenceExhausted => "frame sequence exhausted",
            RenderError::Video(_) => "invalid frame",
        }
    }
}

/// Whether a frame is the one that the desktop hands to the encoder, with those
/// pixels, captured at that time.
pub open spec fn is_capture(
    desktop: DesktopModel,
    pixels: Seq<u8>,
    capture_nanos: u64,
    frame: FrameModel,
) -> bool {
    &&& frame.pixels == pixels
    &&& frame.config.raw_width@ == desktop.size.spec_width()
    &&& frame.config.raw_height@ == desktop.size.spec_height()
    &&& exists|percent: int| #[trigger]
        is_encoded_percent(
            desktop.size.spec_width() as int,
            desktop.size.spec_height() as int,
            desktop.quality.scale_percent@ as int,
            desktop.quality.fps@ as int,
            percent,
        ) && frame.config.encoded_width@ == scaled_edge(desktop.size.spec_width() as int, percent)
            && frame.config.encoded_height@ == scaled_edge(
            desktop.size.spec_height() as int,
            percent,
        )
    &&& frame.config.fps == desktop.quality.fps
    &&& frame.config.bitrate_kbps == desktop.quality.bitrate_kbps
    &&& frame.config.crf == desktop.quality.crf
    &&& frame.config.chroma == desktop.quality.chroma
    &&& frame.metadata.generation@ == desktop.generation
    &&& frame.metadata.width == frame.config.encoded_width
    &&& frame.metadata.height == frame.config.encoded_height
    &&& frame.metadata.capture_nanos == capture_nanos
    &&& frame.metadata.sequence == desktop.sequence
    &&& frame.metadata.input_sequence == desktop.latest_input_sequence
    &&& frame.metadata.fps == desktop.quality.fps
    &&& frame.metadata.chroma == desktop.quality.chroma
}

impl DesktopModel {
    pub open spec fn drawn(self, submitted: bool) -> Self {
        DesktopModel {
            dirty: false,
            sequence: if submitted {
                (self.sequence + 1) as u64
            } else {
                self.sequence
            },
            ..self
        }
    }
}

impl DesktopModel {
    pub open spec fn render_plan(self, image_width: usize, image_height: usize) -> RenderPlan {
        RenderPlan {
            reallocate: image_width != self.size.spec_width() || image_height
                != self.size.spec_height(),
            age: if self.forced() {
                0
            } else {
                1
            },
        }
    }
}

/// Whether a picture was handed to the encoder as it should be: with this result, from
/// the desktop and the pool before to those after.
pub open spec fn hands_over(
    before: DesktopModel,
    after: DesktopModel,
    pool_before: PoolModel,
    pool_after: PoolModel,
    damaged: bool,
    pixels: Seq<u8>,
    capture_nanos: u64,
    result: Result<bool, RenderError>,
) -> bool {
    if !damaged && !before.forced() {
        &&& result == Ok::<bool, RenderError>(false)
        &&& after == before.drawn(false)
        &&& pool_after == pool_before
    } else if before.sequence == u64::MAX {
        &&& result == Err::<bool, RenderError>(RenderError::SequenceExhausted)
        &&& after == before
        &&& pool_after == pool_before
    } else {
        match result {
            Ok(submitted) => {
                &&& submitted
                &&& after == before.drawn(true)
                &&& exists|frame: FrameModel|
                    is_capture(before, pixels, capture_nanos, frame) && pool_before.accepts(frame)
                        && pool_after == #[trigger] pool_before.submitted(frame)
            },
            Err(error) => {
                &&& error is Video
                &&& exists|frame: FrameModel|
                    is_capture(before, pixels, capture_nanos, frame) && !(
                    #[trigger] pool_before.accepts(frame))
                &&& after == (DesktopModel { sequence: (before.sequence + 1) as u64, ..before })
                &&& pool_after == pool_before
            },
        }
    }
}

pub open spec fn monotonic_time(seconds: int, nanos: int) -> Option<int> {
    if seconds < 0 || nanos < 0 {
        None
    } else {
        Some(seconds * 1_000_000_000 + nanos)
    }
}

/// The time of a monotonic clock in nanoseconds. `None` for a time before its start.
pub fn capture_time(seconds: i64, nanos: i64) -> (r: Option<u64>)
    requires
        seconds * 1_000_000_000 + nanos <= u64::MAX,
    ensures
        match r {
            Some(time) => seconds >= 0 && nanos >= 0 && time == seconds * 1_000_000_000 + nanos,
            None => seconds < 0 || nanos < 0,
        },
        match r {
            Some(time) => monotonic_time(seconds as int, nanos as int) == Some(time as int),
            None => monotonic_time(seconds as int, nanos as int) is None,
        },
{
    if seconds < 0 || nanos < 0 {
        None
    } else {
        Some(seconds as u64 * 1_000_000_000 + nanos as u64)
    }
}

impl Desktop {
    /// Prepares a picture: all of it is drawn while something is dirty or viewers lack
    /// a keyframe of the present generation.
    pub fn plan_render(&self, image_width: usize, image_height: usize) -> (r: RenderPlan)
        ensures
            r.reallocate == (image_width != self@.size.spec_width() || image_height
                != self@.size.spec_height()),
            r.age == if self@.forced() {
                0int
            } else {
                1int
            },
            r == self@.render_plan(image_width, image_height),
    {
        let width: u32 = self.size.width();
        let height: u32 = self.size.height();
        RenderPlan {
            reallocate: image_width != width as usize || image_height != height as usize,
            age: if self.is_forced() {
                0
            } else {
                1
            },
        }
    }

    fn is_forced(&self) -> (r: bool)
        ensures
            r == self@.forced(),
    {
        if self.dirty {
            return true;
        }
        match self.acknowledged {
            Some(generation) => generation.get() != self.generation.get(),
            None => true,
        }
    }

    /// Hands a picture to the encoder if it shows something new, or if viewers wait
    /// for one, and counts it.
    pub fn submit_picture(
        &mut self,
        pool: &mut Pool,
        damaged: bool,
        pixels: &[u8],
        capture_nanos: u64,
    ) -> (r: Result<bool, RenderError>)
        requires
            old(pool).wf(),
        ensures
            final(pool).wf(),
            match r {
                Ok(submitted) => {
                    &&& submitted == (damaged || old(self)@.forced())
                    &&& final(self)@ == old(self)@.drawn(submitted)
                    &&& submitted ==> old(self)@.sequence < u64::MAX && exists|frame: FrameModel|
                        is_capture(old(self)@, pixels@, capture_nanos, frame) && old(pool)@.accepts(frame) && final(pool)@ == #[trigger] old(pool)@.submitted(frame)
                    &&& !submitted ==> *final(pool) == *old(pool)
                },
                Err(RenderError::SequenceExhausted) => {
                    &&& damaged || old(self)@.forced()
                    &&& old(self)@.sequence == u64::MAX
                    &&& final(self)@ == old(self)@
                    &&& *final(pool) == *old(pool)
                },
                Err(RenderError::Video(error)) => {
                    &&& damaged || old(self)@.forced()
                    &&& old(self)@.sequence < u64::MAX
                    &&& exists|frame: FrameModel|
                        is_capture(old(self)@, pixels@, capture_nanos, frame) && !(
                        #[trigger] old(pool)@.accepts(frame))
                    &&& final(self)@ == (DesktopModel {
                        sequence: (old(self)@.sequence + 1) as u64,
                        ..old(self)@
                    })
                    &&& *final(pool) == *old(pool)
                },
            },
            hands_over(
                old(self)@,
                final(self)@,
                old(pool)@,
                final(pool)@,
                damaged,
                pixels@,
                capture_nanos,
                r,
            ),
    {
        if !damaged && !self.is_forced() {
            self.dirty = false;
            assert(self@ =~= old(self)@.drawn(false));
            return Ok(false);
        }
        let width: u32 = self.size.width();
        let height: u32 = self.size.height();
        let (encoded_width, encoded_height): (u16, u16) = encoded_dimensions(
            width,
            height,
            self.quality.scale_percent,
            self.quality.fps,
        );
        let config: EncoderConfig = EncoderConfig {
            raw_width: FrameDimension::constant(width as u16),
            raw_height: FrameDimension::constant(height as u16),
            encoded_width: FrameDimension::constant(encoded_width),
            encoded_height: FrameDimension::constant(encoded_height),
            fps: self.quality.fps,
            bitrate_kbps: self.quality.bitrate_kbps,
            crf: self.quality.crf,
            chroma: self.quality.chroma,
        };
        let metadata: FrameMetadata = FrameMetadata {
            generation: self.generation,
            width: config.encoded_width,
            height: config.encoded_height,
            capture_nanos,
            sequence: self.sequence,
            input_sequence: self.latest_input_sequence,
            fps: self.quality.fps,
            chroma: self.quality.chroma,
        };
        if self.sequence == u64::MAX {
            return Err(RenderError::SequenceExhausted);
        }
        self.sequence = self.sequence + 1;
        let frame: CapturedFrame<'_> = CapturedFrame::new(pixels, metadata, config);
        let ghost model = frame.model();
        assert(is_capture(old(self)@, pixels@, capture_nanos, model));
        match pool.submit(frame) {
            Ok(_) => {
                self.dirty = false;
                assert(self@ =~= old(self)@.drawn(true));
                Ok(true)
            },
            Err(error) => {
                assert(!old(pool)@.accepts(model));
                assert(self@ =~= (DesktopModel {
                    sequence: (old(self)@.sequence + 1) as u64,
                    ..old(self)@
                }));
                Err(RenderError::Video(error))
            },
        }
    }
}

/// Until viewers have a keyframe of the present generation, every picture goes out,
/// damaged or not; after that, an idle desktop sends none.
pub proof fn law_idle_desktops_send_nothing(desktop: DesktopModel)
    ensures
        desktop.acknowledged != Some(desktop.generation) ==> desktop.drawn(true).forced(),
        desktop.acknowledged == Some(desktop.generation) ==> !desktop.drawn(true).forced()
            && !desktop.drawn(false).forced(),
{
}

/// The nanoseconds between two pictures, to the nearest one.
pub open spec fn period_of(fps: int) -> int {
    (1_000_000_000 + fps / 2) / fps
}

/// When the next picture is due.
#[derive(Clone, Copy, Debug, PartialEq, Eq, Structural)]
pub struct FrameClock {
    pub next: Instant,
}

impl FrameClock {
    pub open spec fn spec_wait(self, now: Instant) -> u64 {
        if self.next.nanos >= now.nanos {
            (self.next.nanos - now.nanos) as u64
        } else {
            0
        }
    }

    pub open spec fn spec_due(self, now: Instant) -> bool {
        now.nanos >= self.next.nanos
    }

    /// The clock after a picture was drawn.
    pub open spec fn after_drawing(now: Instant, fps: Fps) -> Self {
        FrameClock { next: now.spec_plus(period_of(fps@ as int)) }
    }

    pub fn new(now: Instant) -> (r: Self)
        ensures
            r.next == now,
    {
        FrameClock { next: now }
    }

    /// How long to wait for the next picture, in nanoseconds.
    pub fn wait(&self, now: Instant) -> (r: u64)
        ensures
            r == if self.next.nanos >= now.nanos {
                self.next.nanos - now.nanos
            } else {
                0
            },
            r == self.spec_wait(now),
    {
        self.next.since(now)
    }

    pub fn due(&self, now: Instant) -> (r: bool)
        ensures
            r == (now.nanos >= self.next.nanos),
            r == self.spec_due(now),
    {
        now.nanos >= self.next.nanos
    }

    /// A picture was drawn: the next one is due a frame's time later.
    pub fn drawn(&mut self, now: Instant, fps: Fps)
        ensures
            final(self).next == now.spec_plus(period_of(fps@ as int)),
            *final(self) == Self::after_drawing(now, fps),
    {
        let rate: u64 = fps.get() as u64;
        let period: u64 = (1_000_000_000 + rate / 2) / rate;
        self.next = now.plus(period);
    }
}

pub open spec fn starts_on(started: bool, display: Option<u32>, arguments: int) -> Option<u32> {
    if started || arguments == 0 {
        None
    } else {
        display
    }
}

/// Whether the session's application is started: once, as soon as Xwayland has a
/// display for it, if there is an application at all. Returns the display.
pub fn session_display(started: bool, display: Option<u32>, arguments: usize) -> (r: Option<u32>)
    ensures
        r == if !started && arguments > 0 {
            display
        } else {
            None
        },
        r == starts_on(started, display, arguments as int),
{
    if !started && arguments > 0 {
        display
    } else {
        None
    }
}

pub open spec fn application(given: Seq<Vec<u8>>, environment: Option<Vec<u8>>) -> Seq<Vec<u8>> {
    if given.len() > 0 {
        given
    } else {
        match environment {
            Some(program) if program@.len() > 0 => seq![program],
            _ => Seq::empty(),
        }
    }
}

/// The application's arguments: those given, or else the one program that the
/// environment names, if it names one.
pub fn session_arguments(given: Vec<Vec<u8>>, environment: Option<Vec<u8>>) -> (r: Vec<Vec<u8>>)
    ensures
        r@ == if given@.len() > 0 {
            given@
        } else {
            match environment {
                Some(program) if program@.len() > 0 => seq![program],
                _ => Seq::empty(),
            }
        },
        r@ == application(given@, environment),
{
    if given.len() > 0 {
        return given;
    }
    let mut arguments: Vec<Vec<u8>> = Vec::new();
    if let Some(program) = environment {
        if program.len() > 0 {
            arguments.push(program);
        }
    }
    assert(given@ =~= Seq::empty());
    arguments
}

/// How the session's application is doing.
#[derive(Debug)]
pub enum SessionStatus {
    Running,
    Exited,
    Unknown(String),
}

/// What reading the gateway's commands gave.
#[derive(Debug)]
pub enum CommandInput {
    /// The gateway closed the stream, in the middle of a command where `unfinished`
    /// says so.
    End { unfinished: Option<String> },
    /// The bytes were no commands.
    Malformed(String),
    /// Nothing is there yet, or a signal came in between.
    Blocked,
    Failed(String),
}

impl DesktopModel {
    pub open spec fn stopped(self) -> Self {
        DesktopModel { running: false, ..self }
    }

    pub open spec fn after_input(self, input: CommandInput) -> Self {
        match input {
            CommandInput::End { unfinished: Some(error) } => self.failed(error@),
            CommandInput::End { unfinished: None } => self.stopped(),
            CommandInput::Malformed(error) => self.failed(error@),
            CommandInput::Blocked => self,
            CommandInput::Failed(error) => self.failed(error@),
        }
    }

    pub open spec fn after_session(self, status: SessionStatus) -> Self {
        match status {
            SessionStatus::Running => self,
            SessionStatus::Exited => self.stopped(),
            SessionStatus::Unknown(error) => self.failed(error@),
        }
    }
}

impl Desktop {
    /// Takes in what came of reading the gateway's commands and says whether to go on
    /// reading. The run ends with the stream.
    pub fn command_input(&mut self, input: CommandInput) -> (goes_on: bool)
        ensures
            final(self)@ == old(self)@.after_input(input),
            goes_on == !(input is End),
    {
        match input {
            CommandInput::End { unfinished } => {
                if let Some(error) = unfinished {
                    self.fail(error);
                }
                self.running = false;
                assert(self@ =~= old(self)@.after_input(input));
                false
            },
            CommandInput::Malformed(error) => {
                self.fail(error);
                true
            },
            CommandInput::Blocked => true,
            CommandInput::Failed(error) => {
                self.fail(error);
                true
            },
        }
    }

    /// The run ends with the session's application.
    pub fn session_status(&mut self, status: SessionStatus)
        ensures
            final(self)@ == old(self)@.after_session(status),
    {
        match status {
            SessionStatus::Running => {},
            SessionStatus::Exited => {
                self.running = false;
                assert(self@ =~= old(self)@.stopped());
            },
            SessionStatus::Unknown(error) => self.fail(error),
        }
    }

    /// The result of the run: the first failure, if there was one.
    pub fn finish(self) -> (r: Result<(), String>)
        ensures
            match r {
                Ok(()) => self@.failure is None,
                Err(error) => self@.failure == Some(error@),
            },
    {
        match self.failure {
            Some(error) => Err(error),
            None => Ok(()),
        }
    }
}

/// What Xwayland reports while it starts.
#[derive(Debug)]
pub enum XwaylandEvent {
    /// It is ready, and its window manager was started.
    Ready { display: u32 },
    /// It is ready, but its window manager could not be started.
    ManagerFailed { error: String },
    StartupFailed,
    /// Its window manager lost the connection.
    Disconnected,
}

/// How Xwayland failed while it was looked after.
#[derive(Clone, Copy, Debug, PartialEq, Eq, Structural)]
pub enum XwaylandFailure {
    Disconnected,
    NotReady,
}

impl XwaylandFailure {
    pub open spec fn spec_message(self) -> Seq<char> {
        match self {
            XwaylandFailure::Disconnected => "Xwayland disconnected"@,
            XwaylandFailure::NotReady => "Xwayland did not become ready within 10 seconds"@,
        }
    }

    pub fn message(self) -> (text: &'static str)
        ensures
            text@ == self.spec_message(),
    {
        match self {
            XwaylandFailure::Disconnected => "Xwayland disconnected",
            XwaylandFailure::NotReady => "Xwayland did not become ready within 10 seconds",
        }
    }
}

pub open spec fn manager_failure(error: Seq<char>) -> Seq<char> {
    "Xwayland WM startup: "@ + error
}

impl DesktopModel {
    pub open spec fn after_xwayland(self, event: XwaylandEvent) -> Self {
        match event {
            XwaylandEvent::Ready { display } => DesktopModel { display: Some(display), ..self },
            XwaylandEvent::ManagerFailed { error } => self.failed(manager_failure(error@)),
            XwaylandEvent::StartupFailed => self.failed("Xwayland startup failed"@),
            XwaylandEvent::Disconnected => DesktopModel { display: None, ..self }.failed(
                "Xwayland WM disconnected"@,
            ),
        }
    }

    /// What is wrong with Xwayland at that time, if anything is.
    pub open spec fn xwayland_failure(self, connected: bool, now: Instant, deadline: Instant) ->
        Option<XwaylandFailure> {
        if !connected {
            Some(XwaylandFailure::Disconnected)
        } else if self.display is None && now.nanos >= deadline.nanos {
            Some(XwaylandFailure::NotReady)
        } else {
            None
        }
    }
}

impl Desktop {
    /// Takes a report of Xwayland in. The desktop does not go on without it.
    pub fn xwayland(&mut self, event: XwaylandEvent)
        ensures
            final(self)@ == old(self)@.after_xwayland(event),
    {
        match event {
            XwaylandEvent::Ready { display } => {
                self.display = Some(display);
                assert(self@ =~= old(self)@.after_xwayland(event));
            },
            XwaylandEvent::ManagerFailed { error } => {
                let mut text: String = "Xwayland WM startup: ".to_owned();
                text.append(error.as_str());
                self.fail(text);
            },
            XwaylandEvent::StartupFailed => self.fail("Xwayland startup failed".to_owned()),
            XwaylandEvent::Disconnected => {
                self.display = None;
                assert(self@ =~= (DesktopModel { display: None, ..old(self)@ }));
                self.fail("Xwayland WM disconnected".to_owned());
            },
        }
    }

    /// Looks after Xwayland and says whether to go on doing so: it must stay connected
    /// and be ready by the deadline.
    pub fn monitor_xwayland(&mut self, connected: bool, now: Instant, deadline: Instant) -> (goes_on:
        bool)
        ensures
            match old(self)@.xwayland_failure(connected, now, deadline) {
                Some(failure) => !goes_on && final(self)@ == old(self)@.failed(
                    failure.spec_message(),
                ),
                None => goes_on && final(self)@ == old(self)@,
            },
    {
        let failure: XwaylandFailure = if !connected {
            XwaylandFailure::Disconnected
        } else if self.display.is_none() && now.nanos >= deadline.nanos {
            XwaylandFailure::NotReady
        } else {
            return true;
        };
        self.fail(failure.message().to_owned());
        false
    }
}

/// The cursor that a client asks for.
#[derive(Clone, Copy, Debug, PartialEq, Eq, Structural)]
pub enum CursorImage {
    Hidden,
    /// A named cursor; without a shape if the name is not known.
    Named(Option<CursorShape>),
    /// A picture of the client's own.
    Surface,
}

pub open spec fn cursor_reports(image: CursorImage) -> Seq<Event> {
    match image {
        CursorImage::Hidden => seq![Event::CursorVisibility(CursorVisibility::Hidden)],
        CursorImage::Named(Some(shape)) => seq![
            Event::CursorShape(shape),
            Event::CursorVisibility(CursorVisibility::Visible),
        ],
        _ => seq![
            Event::CursorShape(CursorShape(0)),
            Event::CursorVisibility(CursorVisibility::Visible),
        ],
    }
}

/// What the gateway is told of a cursor: cursors without a known name look like the
/// default one.
pub fn cursor_image(image: CursorImage) -> (events: Vec<Event>)
    ensures
        events@ == cursor_reports(image),
{
    let mut events: Vec<Event> = Vec::new();
    match image {
        CursorImage::Hidden => {
            events.push(Event::CursorVisibility(CursorVisibility::Hidden));
        },
        CursorImage::Named(shape) => {
            events.push(
                Event::CursorShape(
                    match shape {
                        Some(shape) => shape,
                        None => CursorShape(0),
                    },
                ),
            );
            events.push(Event::CursorVisibility(CursorVisibility::Visible));
        },
        CursorImage::Surface => {
            events.push(Event::CursorShape(CursorShape(0)));
            events.push(Event::CursorVisibility(CursorVisibility::Visible));
        },
    }
    assert(events@ =~= cursor_reports(image));
    events
}

/// The settings that a command asks for are in force after it, whatever they were: the
/// quality is that of the last quality command and the size that of the last resize.
/// No other command touches either.
pub proof fn law_settings_are_those_asked_for_last(desktop: DesktopModel, command: Command)
    ensures
        ({
            let after = desktop.applied(command);
            &&& command matches Command::Quality(quality) ==> after.quality == quality
                && after.size == desktop.size
            &&& command matches Command::Resize { size, .. } ==> after.size == size && after.quality
                == desktop.quality
            &&& !(command is Quality) && !(command is Resize) ==> after.quality == desktop.quality
                && after.size == desktop.size
        }),
{
}

/// The next picture after a command that changed the quality or the size is encoded
/// with what was asked for, in a generation of its own.
pub proof fn law_pictures_follow_the_settings(
    desktop: DesktopModel,
    command: Command,
    pixels: Seq<u8>,
    capture_nanos: u64,
    frame: FrameModel,
)
    requires
        desktop.generation < u32::MAX,
        is_capture(desktop.applied(command), pixels, capture_nanos, frame),
    ensures
        command matches Command::Quality(quality) ==> {
            &&& frame.config.fps == quality.fps
            &&& frame.config.bitrate_kbps == quality.bitrate_kbps
            &&& frame.config.crf == quality.crf
            &&& frame.config.chroma == quality.chroma
            &&& frame.metadata.fps == quality.fps
            &&& frame.metadata.chroma == quality.chroma
            &&& quality != desktop.quality ==> frame.metadata.generation@ == desktop.generation + 1
        },
        command matches Command::Resize { size, .. } ==> {
            &&& frame.config.raw_width@ == size.spec_width()
            &&& frame.config.raw_height@ == size.spec_height()
            &&& frame.metadata.generation@ == desktop.generation + 1
        },
        command is ResetVideo ==> frame.metadata.generation@ == desktop.generation + 1,
{
}

/// A picture goes to the encoder as it is, with the size of the output, the settings in
/// force, and the generation, number and latest input of the desktop.
pub proof fn law_pictures_carry_the_state_of_the_desktop(
    desktop: DesktopModel,
    pixels: Seq<u8>,
    capture_nanos: u64,
    frame: FrameModel,
)
    requires
        is_capture(desktop, pixels, capture_nanos, frame),
    ensures
        frame.pixels == pixels,
        frame.config.raw_width@ == desktop.size.spec_width(),
        frame.config.raw_height@ == desktop.size.spec_height(),
        frame.config.fps == desktop.quality.fps,
        frame.config.bitrate_kbps == desktop.quality.bitrate_kbps,
        frame.config.crf == desktop.quality.crf,
        frame.config.chroma == desktop.quality.chroma,
        frame.metadata.width == frame.config.encoded_width,
        frame.metadata.height == frame.config.encoded_height,
        frame.metadata.generation@ == desktop.generation,
        frame.metadata.sequence == desktop.sequence,
        frame.metadata.input_sequence == desktop.latest_input_sequence,
        frame.metadata.capture_nanos == capture_nanos,
        frame.metadata.fps == desktop.quality.fps,
        frame.metadata.chroma == desktop.quality.chroma,
        exists|percent: int|
            #![trigger scaled_edge(desktop.size.spec_width() as int, percent)]
            1 <= percent <= desktop.quality.scale_percent@ && frame.config.encoded_width@
                == scaled_edge(desktop.size.spec_width() as int, percent)
                && frame.config.encoded_height@ == scaled_edge(
                desktop.size.spec_height() as int,
                percent,
            ),
{
    let percent = choose|percent: int| #[trigger]
        is_encoded_percent(
            desktop.size.spec_width() as int,
            desktop.size.spec_height() as int,
            desktop.quality.scale_percent@ as int,
            desktop.quality.fps@ as int,
            percent,
        ) && frame.config.encoded_width@ == scaled_edge(desktop.size.spec_width() as int, percent)
            && frame.config.encoded_height@ == scaled_edge(
            desktop.size.spec_height() as int,
            percent,
        );
    assert(frame.config.encoded_width@ == scaled_edge(desktop.size.spec_width() as int, percent));
}

/// Every command that stems from an input message marks the pictures that follow it
/// with that message; no other command does.
pub proof fn law_pictures_name_the_latest_input(desktop: DesktopModel, command: Command)
    ensures
        desktop.applied(command).latest_input_sequence == match command {
            Command::PointerAbsolute { sequence, .. } => Some(sequence),
            Command::PointerRelative { sequence, .. } => Some(sequence),
            Command::PointerButton { sequence, .. } => Some(sequence),
            Command::PointerScroll { sequence, .. } => Some(sequence),
            Command::KeyboardKey { sequence, .. } => Some(sequence),
            Command::Text { sequence, .. } => Some(sequence),
            Command::Clipboard(_) | Command::Resize { .. } | Command::Quality(_)
            | Command::KeyframeReadiness(_) | Command::ResetVideo
            | Command::ReleaseAll => desktop.latest_input_sequence,
        },
{
}

/// Commands neither number pictures nor end the run.
pub proof fn law_commands_keep_the_run_going(desktop: DesktopModel, command: Command)
    ensures
        desktop.applied(command).sequence == desktop.sequence,
        desktop.applied(command).running == desktop.running,
        desktop.applied(command).failure == desktop.failure,
        desktop.applied(command).display == desktop.display,
        desktop.generation == u32::MAX ==> desktop.applied(command).generation
            == desktop.generation,
        desktop.dirty ==> desktop.applied(command).dirty,
{
}

/// Viewers have a keyframe once the gateway says so of the present generation, and
/// until it says otherwise of it or another generation starts. A report is no reason to
/// draw.
pub proof fn law_acknowledgements_are_of_the_present_generation(
    desktop: DesktopModel,
    readiness: crate::pipeline::KeyframeReadiness,
    command: Command,
)
    requires
        readiness.generation@ == desktop.generation,
    ensures
        readiness.state == KeyframeState::Cached ==> desktop.applied(
            Command::KeyframeReadiness(readiness),
        ).acknowledged == Some(desktop.generation),
        readiness.state == KeyframeState::Missing ==> desktop.applied(
            Command::KeyframeReadiness(readiness),
        ).acknowledged is None,
        desktop.applied(Command::KeyframeReadiness(readiness)).dirty == desktop.dirty,
        desktop.applied(Command::KeyframeReadiness(readiness)).generation == desktop.generation,
        !(command is KeyframeReadiness) && desktop.applied(command).generation
            == desktop.generation ==> desktop.applied(command).acknowledged
            == desktop.acknowledged,
{
}

/// A picture is drawn without damage while something is dirty or viewers have no
/// keyframe of the present generation, and only then.
pub proof fn law_pictures_are_forced_until_viewers_can_decode(desktop: DesktopModel)
    ensures
        desktop.forced() <==> desktop.dirty || desktop.acknowledged is None
            || desktop.acknowledged->0 != desktop.generation,
        !desktop.drawn(true).dirty,
        !desktop.drawn(false).dirty,
        desktop.sequence < u64::MAX ==> desktop.drawn(true).sequence == desktop.sequence + 1,
        desktop.drawn(false).sequence == desktop.sequence,
        desktop.drawn(true).generation == desktop.generation,
        desktop.drawn(true).acknowledged == desktop.acknowledged,
        desktop.drawn(true).latest_input_sequence == desktop.latest_input_sequence,
{
}

/// Input commands pass on what they say and cannot fail; a repeated key is left to the
/// client.
pub proof fn law_input_is_passed_on(
    desktop: DesktopModel,
    command: Command,
    result: Result<Effect, CommandError>,
)
    requires
        desktop.effect(command, result),
    ensures
        command matches Command::PointerAbsolute { x, y, .. } ==> result == Ok::<_, CommandError>(
            Effect::MoveTo { x, y },
        ),
        command matches Command::PointerRelative { dx, dy, .. } ==> result == Ok::<
            _,
            CommandError,
        >(Effect::MoveBy { dx, dy }),
        command matches Command::PointerButton { button, state, .. } ==> result == Ok::<
            _,
            CommandError,
        >(Effect::Button { button, state }),
        command matches Command::PointerScroll { dx, dy, .. } ==> result == Ok::<_, CommandError>(
            Effect::Scroll { dx, dy },
        ),
        command matches Command::KeyboardKey { key, key_state: KeyState::Pressed, .. } ==> result
            == Ok::<_, CommandError>(Effect::Key { key, state: ButtonState::Pressed }),
        command matches Command::KeyboardKey { key, key_state: KeyState::Released, .. } ==> result
            == Ok::<_, CommandError>(Effect::Key { key, state: ButtonState::Released }),
        command matches Command::KeyboardKey { key_state: KeyState::Repeated, .. } ==> result
            == Ok::<_, CommandError>(Effect::Nothing),
        command is ReleaseAll ==> result == Ok::<_, CommandError>(Effect::ReleaseInput),
        command matches Command::Clipboard(text) ==> result matches Ok(Effect::SetClipboard(out))
            && out@ == text@,
{
}

/// Text is committed or shown as it is, the cursor behind its last byte; only one of
/// more bytes than a cursor can count is refused.
pub proof fn law_text_is_passed_on(
    desktop: DesktopModel,
    action: TextAction,
    sequence: InputSequence,
    text: String,
    result: Result<Effect, CommandError>,
)
    requires
        desktop.effect(Command::Text { action, sequence, text }, result),
    ensures
        ({
            let bytes = vstd::utf8::encode_utf8(text@).len();
            &&& result is Err <==> bytes > 0x7fff_ffff
            &&& result is Err ==> result->Err_0 == CommandError::TextTooLong
            &&& result is Ok && action == TextAction::Commit ==> result->Ok_0 is CommitText
                && result->Ok_0->CommitText_text@ == text@
            &&& result is Ok && action == TextAction::Preedit ==> result->Ok_0 is ComposeText
                && result->Ok_0->ComposeText_text@ == text@ && result->Ok_0->cursor == bytes
        }),
{
}

/// A resize changes the output to the asked size, at the frame rate in force and the
/// asked scale, and is answered in the next generation under its request's number.
pub proof fn law_resizes_are_answered(
    desktop: DesktopModel,
    request_id: crate::messages::RequestId,
    size: FrameSize,
    scale_v120: ScaleV120,
    result: Result<Effect, CommandError>,
)
    requires
        desktop.effect(Command::Resize { request_id, size, scale_v120 }, result),
        size.spec_width() <= 7680,
        size.spec_height() <= 7680,
        desktop.quality.fps@ <= 120,
    ensures
        result is Ok,
        result->Ok_0 is Resize,
        result->Ok_0->mode.width == size.spec_width(),
        result->Ok_0->mode.height == size.spec_height(),
        result->Ok_0->mode.refresh == 1000 * desktop.quality.fps@,
        result->Ok_0->scale_v120 == scale_v120,
        result->Ok_0->applied is Some <==> desktop.generation < u32::MAX,
        result->Ok_0->applied matches Some(applied) ==> {
            &&& applied.request_id == request_id
            &&& applied.size == size
            &&& applied.scale_v120 == scale_v120
            &&& applied.generation@ == desktop.generation + 1
        },
{
}

/// New settings and a reset tell the encoder the next generation or fail for want of
/// one; settings that are in force already, and reports, have no effect.
pub proof fn law_the_encoder_is_told_of_each_generation(
    desktop: DesktopModel,
    command: Command,
    result: Result<Effect, CommandError>,
)
    requires
        desktop.effect(command, result),
    ensures
        ({
            let asks = command is ResetVideo || (command matches Command::Quality(quality)
                && quality != desktop.quality);
            &&& asks && desktop.generation == u32::MAX ==> result == Err::<Effect, CommandError>(
                CommandError::GenerationExhausted,
            )
            &&& asks && desktop.generation < u32::MAX ==> result is Ok
                && result->Ok_0 is SetGeneration && result->Ok_0->generation@ == desktop.generation
                + 1 && result->Ok_0->generation@ == desktop.applied(command).generation
            &&& !asks && (command is Quality || command is KeyframeReadiness) ==> result == Ok::<
                _,
                CommandError,
            >(Effect::Nothing)
        }),
{
}

/// An encoder that is gone gets a new generation if it served the present one; if there
/// is none left the run fails. A report of a frame changes nothing.
pub proof fn law_only_the_present_encoder_is_replaced(
    desktop: DesktopModel,
    generation: Generation,
    error: String,
    metadata: FrameMetadata,
)
    ensures
        ({
            let after = desktop.notified(Notification::RestartRequired { generation });
            &&& generation@ != desktop.generation ==> after == desktop
            &&& generation@ == desktop.generation && desktop.generation < u32::MAX ==> {
                &&& after.generation == desktop.generation + 1
                &&& after.acknowledged is None
                &&& after.dirty
                &&& after.running == desktop.running
                &&& after.failure == desktop.failure
                &&& after.quality == desktop.quality
                &&& after.size == desktop.size
                &&& after.sequence == desktop.sequence
            }
            &&& generation@ == desktop.generation && desktop.generation == u32::MAX ==> {
                &&& !after.running
                &&& after.failure is Some
                &&& desktop.failure is None ==> after.failure == Some("media generation exhausted"@)
            }
        }),
        desktop.notified(Notification::Submitted(metadata)) == desktop,
        !desktop.notified(Notification::Fatal(error)).running,
        desktop.failure is None ==> desktop.notified(Notification::Fatal(error)).failure == Some(
            error@,
        ),
{
}

/// The run ends with the gateway's commands, with bytes that are none, and with the
/// session's application; only an orderly end is no failure. While nothing is there to
/// read, or the application runs, nothing changes.
pub proof fn law_the_run_ends_with_its_gateway_and_its_session(
    desktop: DesktopModel,
    error: String,
)
    requires
        desktop.failure is None,
    ensures
        desktop.after_input(CommandInput::Blocked) == desktop,
        desktop.after_session(SessionStatus::Running) == desktop,
        !desktop.after_input(CommandInput::End { unfinished: None }).running,
        desktop.after_input(CommandInput::End { unfinished: None }).failure is None,
        !desktop.after_session(SessionStatus::Exited).running,
        desktop.after_session(SessionStatus::Exited).failure is None,
        forall|after: DesktopModel| #[trigger]
            ended_by(after, desktop, error) ==> !after.running && after.failure == Some(error@),
{
}

/// Whether something that went wrong ended the run.
pub open spec fn ended_by(after: DesktopModel, desktop: DesktopModel, error: String) -> bool {
    ||| after == desktop.after_input(CommandInput::End { unfinished: Some(error) })
    ||| after == desktop.after_input(CommandInput::Malformed(error))
    ||| after == desktop.after_input(CommandInput::Failed(error))
    ||| after == desktop.after_session(SessionStatus::Unknown(error))
    ||| after == desktop.notified(Notification::Fatal(error))
}

/// Xwayland has to be ready by the deadline and connected at all times: an X11 display
/// is known from when it is ready until its window manager is gone, and anything else
/// ends the run.
pub proof fn law_the_desktop_depends_on_xwayland(
    desktop: DesktopModel,
    number: u32,
    error: String,
    now: Instant,
    deadline: Instant,
)
    ensures
        desktop.after_xwayland(XwaylandEvent::Ready { display: number }) == (DesktopModel {
            display: Some(number),
            ..desktop
        }),
        !desktop.after_xwayland(XwaylandEvent::ManagerFailed { error }).running,
        !desktop.after_xwayland(XwaylandEvent::StartupFailed).running,
        !desktop.after_xwayland(XwaylandEvent::Disconnected).running,
        desktop.after_xwayland(XwaylandEvent::Disconnected).display is None,
        desktop.failure is None ==> {
            &&& desktop.after_xwayland(XwaylandEvent::ManagerFailed { error }).failure == Some(
                "Xwayland WM startup: "@ + error@,
            )
            &&& desktop.after_xwayland(XwaylandEvent::StartupFailed).failure == Some(
                "Xwayland startup failed"@,
            )
            &&& desktop.after_xwayland(XwaylandEvent::Disconnected).failure == Some(
                "Xwayland WM disconnected"@,
            )
        },
        desktop.xwayland_failure(false, now, deadline) == Some(XwaylandFailure::Disconnected),
        desktop.xwayland_failure(true, now, deadline) is Some <==> desktop.display is None
            && now.nanos >= deadline.nanos,
        desktop.xwayland_failure(true, now, deadline) matches Some(failure) ==> failure
            == XwaylandFailure::NotReady,
{
}

/// The time between two pictures is a second's share to the nearest nanosecond.
pub proof fn law_pictures_share_the_second(fps: int)
    requires
        1 <= fps <= 120,
    ensures
        2 * fps * period_of(fps) <= 2_000_000_000 + fps,
        2 * fps * period_of(fps) > 2_000_000_000 - fps,
{
    let sum = 1_000_000_000 + fps / 2;
    let period = period_of(fps);
    vstd::arithmetic::div_mod::lemma_fundamental_div_mod(sum, fps);
    assert(fps * period == sum - sum % fps);
    assert(0 <= sum % fps < fps);
    assert(2 * fps * period == 2 * (fps * period)) by (nonlinear_arith);
}

/// The gateway learns whether the cursor shows and, while it does, its shape: the named
/// one where the name is known, the default one else.
pub proof fn law_cursors_are_shown_by_name(shape: CursorShape)
    ensures
        cursor_reports(CursorImage::Hidden) == seq![
            Event::CursorVisibility(CursorVisibility::Hidden),
        ],
        cursor_reports(CursorImage::Named(Some(shape))) == seq![
            Event::CursorShape(shape),
            Event::CursorVisibility(CursorVisibility::Visible),
        ],
        cursor_reports(CursorImage::Named(None)) == seq![
            Event::CursorShape(CursorShape(0)),
            Event::CursorVisibility(CursorVisibility::Visible),
        ],
        cursor_reports(CursorImage::Surface) == cursor_reports(CursorImage::Named(None)),
{
}

/// A picture that shows something new, or that viewers wait for, is handed to the encoder
/// with the size and the settings in force, and counted; any other is not, and the
/// encoder's frames stay as they are. Numbers that run out, and pictures that do not fit,
/// are errors.
pub proof fn law_pictures_are_handed_over_as_drawn(
    before: DesktopModel,
    after: DesktopModel,
    pool_before: PoolModel,
    pool_after: PoolModel,
    damaged: bool,
    pixels: Seq<u8>,
    capture_nanos: u64,
    result: Result<bool, RenderError>,
)
    requires
        hands_over(
            before,
            after,
            pool_before,
            pool_after,
            damaged,
            pixels,
            capture_nanos,
            result,
        ),
    ensures
        ({
            let due = damaged || before.dirty || before.acknowledged != Some(before.generation);
            &&& !due ==> result == Ok::<bool, RenderError>(false) && pool_after == pool_before
                && after.sequence == before.sequence
            &&& due && before.sequence == u64::MAX ==> result == Err::<bool, RenderError>(
                RenderError::SequenceExhausted,
            )
            &&& result is Ok ==> result->Ok_0 == due && !after.dirty
            &&& result is Ok && due ==> {
                &&& after.sequence == before.sequence + 1
                &&& pool_after.pending is Some
                &&& pool_after.pending->0.pixels == pixels
                &&& pool_after.pending->0.config.raw_width@ == before.size.spec_width()
                &&& pool_after.pending->0.config.raw_height@ == before.size.spec_height()
                &&& pool_after.pending->0.config.fps == before.quality.fps
                &&& pool_after.pending->0.config.bitrate_kbps == before.quality.bitrate_kbps
                &&& pool_after.pending->0.config.crf == before.quality.crf
                &&& pool_after.pending->0.config.chroma == before.quality.chroma
                &&& pool_after.pending->0.metadata.generation@ == before.generation
                &&& pool_after.pending->0.metadata.sequence == before.sequence
                &&& pool_after.pending->0.metadata.input_sequence == before.latest_input_sequence
                &&& pool_after.pending->0.metadata.capture_nanos == capture_nanos
                &&& before.generation == pool_before.generation
                &&& pixels.len() == 4 * (before.size.spec_width() * before.size.spec_height())
            }
            &&& result is Err ==> pool_after == pool_before && after.dirty == before.dirty
            &&& result matches Err(RenderError::Video(_)) ==> {
                let area = before.size.spec_width() * before.size.spec_height();
                &&& area > 3840 * 2160 || pixels.len() != 4 * area || before.generation
                    != pool_before.generation
                &&& after.sequence == before.sequence + 1
            }
            &&& after.generation == before.generation
            &&& after.quality == before.quality
            &&& after.size == before.size
            &&& after.acknowledged == before.acknowledged
        }),
{
}

/// A buffer of another size than the output is replaced, and all of a picture is drawn
/// while something is dirty or viewers lack a keyframe of the present generation.
pub proof fn law_buffers_have_the_size_of_the_output(
    desktop: DesktopModel,
    image_width: usize,
    image_height: usize,
)
    ensures
        desktop.render_plan(image_width, image_height).reallocate <==> !(image_width
            == desktop.size.spec_width() && image_height == desktop.size.spec_height()),
        desktop.dirty || desktop.acknowledged != Some(desktop.generation)
            ==> desktop.render_plan(image_width, image_height).age == 0,
        !desktop.dirty && desktop.acknowledged == Some(desktop.generation)
            ==> desktop.render_plan(image_width, image_height).age == 1,
{
}

/// The application is started once, when Xwayland has a display, and only if there is
/// one: what was given, or else the program that the environment names.
pub proof fn law_applications_start_once_on_a_display(
    display: Option<u32>,
    arguments: int,
    given: Seq<Vec<u8>>,
    program: Vec<u8>,
)
    requires
        arguments > 0,
    ensures
        starts_on(false, display, arguments) == display,
        starts_on(true, display, arguments) is None,
        starts_on(false, display, 0) is None,
        given.len() > 0 ==> application(given, Some(program)) == given && application(given, None)
            == given,
        given.len() == 0 && program@.len() > 0 ==> application(given, Some(program)) == seq![
            program,
        ],
        given.len() == 0 && program@.len() == 0 ==> application(given, Some(program)).len() == 0,
        given.len() == 0 ==> application(given, None).len() == 0,
{
}

/// A picture is due exactly when there is nothing left to wait for, and not before a
/// frame's time has passed since the one before.
pub proof fn law_pictures_are_due_after_the_wait(
    clock: FrameClock,
    now: Instant,
    then: Instant,
    fps: Fps,
)
    requires
        1 <= fps@ <= 120,
        then.nanos <= u64::MAX - 1_000_000_000,
    ensures
        clock.spec_due(now) <==> clock.spec_wait(now) == 0,
        !clock.spec_due(now) ==> now.nanos + clock.spec_wait(now) == clock.next.nanos,
        FrameClock::after_drawing(then, fps).spec_due(now) <==> now.nanos >= then.nanos + period_of(
            fps@ as int,
        ),
        0 < period_of(fps@ as int) <= 1_000_000_000,
{
    law_pictures_share_the_second(fps@ as int);
    let period = period_of(fps@ as int);
    let rate = fps@ as int;
    assert(0 < period <= 1_000_000_000) by (nonlinear_arith)
        requires
            2 * rate * period <= 2_000_000_000 + rate,
            2 * rate * period > 2_000_000_000 - rate,
            1 <= rate <= 120,
    ;
}

/// The clock counts nanoseconds, a thousand million to the second, from its start.
pub proof fn law_seconds_are_nanoseconds(seconds: int, nanos: int)
    ensures
        monotonic_time(seconds, nanos) is None <==> seconds < 0 || nanos < 0,
        seconds >= 0 && nanos >= 0 ==> monotonic_time(seconds, nanos) == Some(
            1_000_000_000 * seconds + nanos,
        ) && monotonic_time(seconds + 1, nanos) == monotonic_time(seconds, nanos + 1_000_000_000),
{
}

} // verus!
