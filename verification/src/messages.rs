//! What the gateway, the compositor and the browser say to each other.

use crate::pipeline::KeyframeReadiness;
use crate::quality::Feedback;
use crate::values::{
    Chroma, Crf, Fps, FrameMetadata, Generation, InputSequence, InvalidValue, Kbps, QualityLevels,
    ScalePercent,
};
use vstd::prelude::*;

verus! {

/// The longest clipboard text that is carried, in bytes.
pub const MAX_CLIPBOARD_BYTES: usize = 0x10_0000;

/// The longest edge of the output in pixels.
pub const MAX_OUTPUT_EDGE: u32 = 7680;

pub open spec fn valid_edge(edge: int) -> bool {
    0 < edge <= MAX_OUTPUT_EDGE && edge % 2 == 0
}

/// The size of the output in pixels.
#[derive(Clone, Copy, Debug, PartialEq, Eq, Structural)]
pub struct FrameSize {
    width: u32,
    height: u32,
}

impl FrameSize {
    #[verifier::type_invariant]
    spec fn inv(self) -> bool {
        valid_edge(self.width as int) && valid_edge(self.height as int)
    }

    pub closed spec fn spec_width(self) -> u32 {
        self.width
    }

    pub closed spec fn spec_height(self) -> u32 {
        self.height
    }

    pub fn new(width: u32, height: u32) -> (r: Result<Self, InvalidValue>)
        ensures
            r is Ok <==> valid_edge(width as int) && valid_edge(height as int),
            r matches Ok(size) ==> size.spec_width() == width && size.spec_height() == height,
            r matches Err(error) ==> error == InvalidValue::FrameDimension,
    {
        if 0 < width && width <= MAX_OUTPUT_EDGE && width % 2 == 0 && 0 < height && height
            <= MAX_OUTPUT_EDGE && height % 2 == 0 {
            Ok(FrameSize { width, height })
        } else {
            Err(InvalidValue::FrameDimension)
        }
    }

    pub fn width(self) -> (r: u32)
        ensures
            r == self.spec_width(),
            valid_edge(r as int),
    {
        proof {
            use_type_invariant(&self);
        }
        self.width
    }

    pub fn height(self) -> (r: u32)
        ensures
            r == self.spec_height(),
            valid_edge(r as int),
    {
        proof {
            use_type_invariant(&self);
        }
        self.height
    }
}

/// An output scale in units of 1/120.
#[derive(Clone, Copy, Debug, PartialEq, Eq, Structural)]
pub struct ScaleV120(u32);

impl ScaleV120 {
    #[verifier::type_invariant]
    spec fn inv(self) -> bool {
        self.0 > 0
    }

    pub closed spec fn view(&self) -> u32 {
        self.0
    }

    pub fn new(value: u32) -> (r: Result<Self, InvalidValue>)
        ensures
            r is Ok <==> value > 0,
            r matches Ok(scale) ==> scale@ == value,
            r matches Err(error) ==> error == InvalidValue::Scale,
    {
        if value > 0 {
            Ok(ScaleV120(value))
        } else {
            Err(InvalidValue::Scale)
        }
    }

    pub fn get(self) -> (r: u32)
        ensures
            r == self@,
            r > 0,
    {
        proof {
            use_type_invariant(&self);
        }
        self.0
    }
}

/// Numbers a browser's resize request.
#[derive(Clone, Copy, Debug, PartialEq, Eq, Structural)]
pub struct RequestId(u32);

impl RequestId {
    #[verifier::type_invariant]
    spec fn inv(self) -> bool {
        self.0 > 0
    }

    pub closed spec fn view(&self) -> u32 {
        self.0
    }

    pub fn new(value: u32) -> (r: Result<Self, InvalidValue>)
        ensures
            r is Ok <==> value > 0,
            r matches Ok(id) ==> id@ == value,
            r matches Err(error) ==> error == InvalidValue::RequestId,
    {
        if value > 0 {
            Ok(RequestId(value))
        } else {
            Err(InvalidValue::RequestId)
        }
    }

    pub fn get(self) -> (r: u32)
        ensures
            r == self@,
            r > 0,
    {
        proof {
            use_type_invariant(&self);
        }
        self.0
    }
}

/// A text that fits the clipboard channel.
#[derive(Debug)]
pub struct ClipboardText(String);

impl ClipboardText {
    pub open spec fn valid(text: Seq<char>) -> bool {
        vstd::utf8::encode_utf8(text).len() <= MAX_CLIPBOARD_BYTES
    }

    #[verifier::type_invariant]
    spec fn inv(self) -> bool {
        Self::valid(self.0@)
    }

    pub closed spec fn view(&self) -> Seq<char> {
        self.0@
    }

    pub fn new(text: String) -> (r: Option<Self>)
        ensures
            r is Some <==> Self::valid(text@),
            r matches Some(clipboard) ==> clipboard@ == text@,
    {
        if text.as_str().as_bytes().len() <= MAX_CLIPBOARD_BYTES {
            Some(ClipboardText(text))
        } else {
            None
        }
    }

    pub fn as_str(&self) -> (r: &str)
        ensures
            r@ == self@,
            Self::valid(r@),
    {
        proof {
            use_type_invariant(self);
        }
        self.0.as_str()
    }

    pub fn same(&self, other: &ClipboardText) -> (r: bool)
        ensures
            r == (self@ == other@),
    {
        self.0 == other.0
    }
}

impl Clone for ClipboardText {
    fn clone(&self) -> (r: Self)
        ensures
            r == *self,
    {
        proof {
            use_type_invariant(self);
        }
        ClipboardText(self.0.clone())
    }
}

/// A cursor position in output coordinates that run from 0 to 65535.
#[derive(Clone, Copy, Debug, PartialEq, Eq, Structural)]
pub struct CursorPosition {
    pub x: i32,
    pub y: i32,
}

/// A cursor shape by its place in the list of named cursors; zero is the default.
#[derive(Clone, Copy, Debug, PartialEq, Eq, Structural)]
pub struct CursorShape(pub u8);

#[derive(Clone, Copy, Debug, PartialEq, Eq, Structural)]
pub enum CursorVisibility {
    Visible,
    Hidden,
}

/// What viewers know of the cursor.
#[derive(Clone, Copy, Debug, PartialEq, Eq, Structural)]
pub struct CursorState {
    pub shape: CursorShape,
    pub visibility: CursorVisibility,
    pub position: Option<CursorPosition>,
}

pub open spec fn initial_cursor() -> CursorState {
    CursorState {
        shape: CursorShape(0),
        visibility: CursorVisibility::Visible,
        position: None,
    }
}

impl Default for CursorState {
    fn default() -> (r: Self)
        ensures
            r == initial_cursor(),
    {
        CursorState {
            shape: CursorShape(0),
            visibility: CursorVisibility::Visible,
            position: None,
        }
    }
}

#[derive(Clone, Copy, Debug, PartialEq, Eq, Structural)]
pub struct ResizeApplied {
    pub request_id: RequestId,
    pub size: FrameSize,
    pub scale_v120: ScaleV120,
    pub generation: Generation,
}

#[derive(Clone, Copy, Debug, PartialEq, Eq, Structural)]
pub enum TextAction {
    Commit,
    Preedit,
}

#[derive(Clone, Copy, Debug, PartialEq, Eq, Structural)]
pub enum ButtonState {
    Pressed,
    Released,
}

#[derive(Clone, Copy, Debug, PartialEq, Eq, Structural)]
pub enum KeyState {
    Pressed,
    Released,
    Repeated,
}

/// The encoder settings that the gateway asks for.
#[derive(Clone, Copy, Debug, PartialEq, Eq, Structural)]
pub struct QualityCommand {
    pub bitrate_kbps: Kbps,
    pub fps: Fps,
    pub scale_percent: ScalePercent,
    pub crf: Crf,
    pub chroma: Chroma,
}

/// What the gateway tells the compositor.
#[derive(Debug)]
pub enum Command {
    PointerAbsolute { x: u16, y: u16, sequence: InputSequence },
    PointerRelative { dx: i32, dy: i32, sequence: InputSequence },
    PointerButton { button: u32, state: ButtonState, sequence: InputSequence },
    PointerScroll { dx: i32, dy: i32, sequence: InputSequence },
    KeyboardKey { key: u32, key_state: KeyState, sequence: InputSequence },
    Text { action: TextAction, sequence: InputSequence, text: String },
    Clipboard(ClipboardText),
    Resize { request_id: RequestId, size: FrameSize, scale_v120: ScaleV120 },
    Quality(QualityCommand),
    KeyframeReadiness(KeyframeReadiness),
    ResetVideo,
    ReleaseAll,
}

impl Command {
    /// The input message that the command stems from.
    pub open spec fn spec_input_sequence(self) -> Option<InputSequence> {
        match self {
            Command::PointerAbsolute { sequence, .. } => Some(sequence),
            Command::PointerRelative { sequence, .. } => Some(sequence),
            Command::PointerButton { sequence, .. } => Some(sequence),
            Command::PointerScroll { sequence, .. } => Some(sequence),
            Command::KeyboardKey { sequence, .. } => Some(sequence),
            Command::Text { sequence, .. } => Some(sequence),
            _ => None,
        }
    }

    pub fn input_sequence(&self) -> (r: Option<InputSequence>)
        ensures
            r == self.spec_input_sequence(),
    {
        match self {
            Command::PointerAbsolute { sequence, .. } => Some(*sequence),
            Command::PointerRelative { sequence, .. } => Some(*sequence),
            Command::PointerButton { sequence, .. } => Some(*sequence),
            Command::PointerScroll { sequence, .. } => Some(*sequence),
            Command::KeyboardKey { sequence, .. } => Some(*sequence),
            Command::Text { sequence, .. } => Some(*sequence),
            _ => None,
        }
    }
}

/// What the compositor tells the gateway.
#[derive(Debug)]
pub enum Event {
    Frame(FrameMetadata),
    Clipboard(ClipboardText),
    ResizeApplied(ResizeApplied),
    CursorShape(CursorShape),
    CursorVisibility(CursorVisibility),
    CursorPosition(CursorPosition),
}

#[derive(Clone, Copy, Debug, PartialEq, Eq, Structural)]
pub enum ControlState {
    Ready,
    Active,
    Busy,
}

/// What the gateway tells a browser.
#[derive(Debug)]
pub enum ClientEvent {
    Clipboard { text: ClipboardText },
    ResetVideoRefused,
    Cursor(CursorState),
    ResizeApplied(ResizeApplied),
    VideoConfig { codec: String },
    ControlState { state: ControlState },
    Pong { id: u64, server_nanos: String },
    Quality(QualityLevels),
}

impl Clone for ClientEvent {
    fn clone(&self) -> (r: Self)
        ensures
            r == *self,
    {
        match self {
            ClientEvent::Clipboard { text } => ClientEvent::Clipboard { text: text.clone() },
            ClientEvent::ResetVideoRefused => ClientEvent::ResetVideoRefused,
            ClientEvent::Cursor(cursor) => ClientEvent::Cursor(*cursor),
            ClientEvent::ResizeApplied(applied) => ClientEvent::ResizeApplied(*applied),
            ClientEvent::VideoConfig { codec } => ClientEvent::VideoConfig { codec: codec.clone() },
            ClientEvent::ControlState { state } => ClientEvent::ControlState { state: *state },
            ClientEvent::Pong { id, server_nanos } => ClientEvent::Pong {
                id: *id,
                server_nanos: server_nanos.clone(),
            },
            ClientEvent::Quality(levels) => ClientEvent::Quality(*levels),
        }
    }
}

/// What a browser says on its control socket in text form.
#[derive(Debug)]
pub enum ClientMessage {
    AcquireControl,
    ReleaseControl,
    Ping { id: u64 },
    Feedback(Feedback),
    Text { action: TextAction, text: String, sequence: InputSequence },
    ClipboardWrite { clipboard: ClipboardText },
    ResetVideo,
}

/// The edges of an output are even and from 2 to 7680 pixels long, and a clipboard text
/// has up to a megabyte.
pub proof fn law_messages_are_bounded(edge: int, text: Seq<char>)
    ensures
        valid_edge(edge) <==> 2 <= edge <= 7680 && 2 * (edge / 2) == edge,
        ClipboardText::valid(text) <==> vstd::utf8::encode_utf8(text).len() <= 1_048_576,
{
}

/// The commands that stem from an input message are those of the pointer, the keyboard
/// and the text.
pub proof fn law_input_commands_carry_their_sequence(command: Command)
    ensures
        command.spec_input_sequence() is Some <==> command is PointerAbsolute
            || command is PointerRelative || command is PointerButton || command is PointerScroll
            || command is KeyboardKey || command is Text,
        command matches Command::PointerButton { sequence, .. } ==> command.spec_input_sequence()
            == Some(sequence),
        command matches Command::KeyboardKey { sequence, .. } ==> command.spec_input_sequence()
            == Some(sequence),
        command matches Command::Text { sequence, .. } ==> command.spec_input_sequence() == Some(
            sequence,
        ),
        command matches Command::PointerAbsolute { sequence, .. } ==> command.spec_input_sequence()
            == Some(sequence),
        command matches Command::PointerRelative { sequence, .. } ==> command.spec_input_sequence()
            == Some(sequence),
        command matches Command::PointerScroll { sequence, .. } ==> command.spec_input_sequence()
            == Some(sequence),
{
}

} // verus!
