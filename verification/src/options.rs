//! Command-line values of both programs.

use crate::messages::FrameSize;
use crate::socket::{in_context, with_context};
use crate::text::{is_digit, number, parse_number, NumberError};
use crate::values::{valid_fps, Fps, InvalidValue, Kbps, MIN_KBPS};
use vstd::prelude::*;

verus! {

pub const MAX_LAYOUT_BYTES: usize = 32;

/// An ASCII letter or digit, an underscore or a hyphen.
pub open spec fn layout_byte(byte: u8) -> bool {
    is_digit(byte) || 65 <= byte <= 90 || 97 <= byte <= 122 || byte == 95 || byte == 45
}

pub open spec fn layout_bytes(text: Seq<char>) -> Seq<u8> {
    vstd::utf8::encode_utf8(text)
}

pub open spec fn layout_chars_valid(bytes: Seq<u8>) -> bool {
    forall|i: int| 0 <= i < bytes.len() ==> layout_byte(#[trigger] bytes[i])
}

fn all_layout_bytes(bytes: &[u8]) -> (r: bool)
    ensures
        r == layout_chars_valid(bytes@),
{
    let mut at: usize = 0;
    while at < bytes.len()
        invariant
            at <= bytes.len(),
            forall|i: int| 0 <= i < at ==> layout_byte(#[trigger] bytes@[i]),
        decreases bytes.len() - at,
    {
        let byte: u8 = bytes[at];
        if !((48 <= byte && byte <= 57) || (65 <= byte && byte <= 90) || (97 <= byte && byte <= 122)
            || byte == 95 || byte == 45) {
            assert(!layout_byte(bytes@[at as int]));
            return false;
        }
        at = at + 1;
    }
    true
}

#[derive(Clone, Copy, Debug, PartialEq, Eq, Structural)]
pub enum XkbLayoutError {
    Empty,
    TooLong,
    InvalidCharacter,
}

impl XkbLayoutError {
    pub open spec fn spec_message(self) -> Seq<char> {
        match self {
            XkbLayoutError::Empty => "layout must not be empty"@,
            XkbLayoutError::TooLong => "layout must be at most 32 bytes"@,
            XkbLayoutError::InvalidCharacter =>
                "layout may contain only ASCII letters, digits, '_' or '-'"@,
        }
    }

    pub fn message(self) -> (text: &'static str)
        ensures
            text@ == self.spec_message(),
    {
        match self {
            XkbLayoutError::Empty => "layout must not be empty",
            XkbLayoutError::TooLong => "layout must be at most 32 bytes",
            XkbLayoutError::InvalidCharacter =>
                "layout may contain only ASCII letters, digits, '_' or '-'",
        }
    }
}

/// What is wrong with a layout name, if anything is.
pub open spec fn layout_fault(text: Seq<char>) -> Option<XkbLayoutError> {
    let bytes = layout_bytes(text);
    if bytes.len() == 0 {
        Some(XkbLayoutError::Empty)
    } else if bytes.len() > MAX_LAYOUT_BYTES {
        Some(XkbLayoutError::TooLong)
    } else if !layout_chars_valid(bytes) {
        Some(XkbLayoutError::InvalidCharacter)
    } else {
        None
    }
}

fn check_layout(value: &str) -> (r: Option<XkbLayoutError>)
    ensures
        r == layout_fault(value@),
{
    let bytes = value.as_bytes();
    if bytes.len() == 0 {
        Some(XkbLayoutError::Empty)
    } else if bytes.len() > MAX_LAYOUT_BYTES {
        Some(XkbLayoutError::TooLong)
    } else if !all_layout_bytes(bytes) {
        Some(XkbLayoutError::InvalidCharacter)
    } else {
        None
    }
}

/// The name of a keyboard layout.
#[derive(Debug)]
pub struct XkbLayout(String);

impl Clone for XkbLayout {
    fn clone(&self) -> (r: Self)
        ensures
            r == *self,
    {
        proof {
            use_type_invariant(self);
        }
        XkbLayout(self.0.clone())
    }
}

impl XkbLayout {
    #[verifier::type_invariant]
    spec fn inv(self) -> bool {
        layout_fault(self.0@) is None
    }

    pub closed spec fn view(&self) -> Seq<char> {
        self.0@
    }

    pub fn parse(value: &str) -> (r: Result<Self, XkbLayoutError>)
        ensures
            match layout_fault(value@) {
                None => r matches Ok(layout) && layout@ == value@,
                Some(fault) => r == Err::<Self, XkbLayoutError>(fault),
            },
    {
        match check_layout(value) {
            Some(fault) => Err(fault),
            None => Ok(XkbLayout(value.to_owned())),
        }
    }

    pub fn as_str(&self) -> (r: &str)
        ensures
            r@ == self@,
            layout_fault(r@) is None,
    {
        proof {
            use_type_invariant(self);
        }
        self.0.as_str()
    }
}

/// The layout option of the compositor, which names one fault for all.
pub fn parse_layout(value: &str) -> (r: Result<String, String>)
    ensures
        match r {
            Ok(layout) => layout_fault(value@) is None && layout@ == value@,
            Err(message) => layout_fault(value@) is Some && message@
                == "layout must be 1-32 ASCII letters, digits, '_' or '-'"@,
        },
{
    match check_layout(value) {
        None => Ok(value.to_owned()),
        Some(_) => Err(
            String::from_str("layout must be 1-32 ASCII letters, digits, '_' or '-'"),
        ),
    }
}

/// Why an option is not a value in range.
#[derive(Clone, Copy, Debug, PartialEq, Eq, Structural)]
pub enum ValueError {
    Number(NumberError),
    Value(InvalidValue),
}

impl ValueError {
    pub open spec fn spec_render(self, subject: Seq<char>) -> Seq<char> {
        match self {
            ValueError::Number(error) => in_context(subject, error.spec_message()),
            ValueError::Value(error) => error.spec_message(),
        }
    }

    /// The error in words; `subject` introduces what should have been a number.
    pub fn render(self, subject: &str) -> (r: String)
        ensures
            r@ == self.spec_render(subject@),
    {
        match self {
            ValueError::Number(error) => with_context(subject, error.message()),
            ValueError::Value(error) => String::from_str(error.message()),
        }
    }
}

pub fn parse_fps(value: &str) -> (r: Result<Fps, ValueError>)
    ensures
        match number(vstd::utf8::encode_utf8(value@)) {
            Err(error) => r == Err::<Fps, ValueError>(ValueError::Number(error)),
            Ok(rate) => if valid_fps(rate as int) {
                r matches Ok(fps) && fps@ == rate
            } else {
                r == Err::<Fps, ValueError>(ValueError::Value(InvalidValue::FrameRate))
            },
        },
{
    match parse_number(value.as_bytes()) {
        Ok(rate) => match Fps::new(rate) {
            Ok(fps) => Ok(fps),
            Err(error) => Err(ValueError::Value(error)),
        },
        Err(error) => Err(ValueError::Number(error)),
    }
}

pub fn parse_kbps(value: &str) -> (r: Result<Kbps, ValueError>)
    ensures
        match number(vstd::utf8::encode_utf8(value@)) {
            Err(error) => r == Err::<Kbps, ValueError>(ValueError::Number(error)),
            Ok(rate) => if rate >= MIN_KBPS {
                r matches Ok(bitrate) && bitrate@ == rate
            } else {
                r == Err::<Kbps, ValueError>(ValueError::Value(InvalidValue::Bitrate))
            },
        },
{
    match parse_number(value.as_bytes()) {
        Ok(rate) => match Kbps::new(rate) {
            Ok(bitrate) => Ok(bitrate),
            Err(error) => Err(ValueError::Value(error)),
        },
        Err(error) => Err(ValueError::Number(error)),
    }
}

#[derive(Clone, Copy, Debug, PartialEq, Eq, Structural)]
pub enum ResolutionError {
    Shape,
    Width(NumberError),
    Height(NumberError),
    Size(InvalidValue),
}

impl ResolutionError {
    pub open spec fn spec_render(self) -> Seq<char> {
        match self {
            ResolutionError::Shape => "resolution must use WIDTHxHEIGHT"@,
            ResolutionError::Width(error) => in_context(
                "resolution width must be an integer"@,
                error.spec_message(),
            ),
            ResolutionError::Height(error) => in_context(
                "resolution height must be an integer"@,
                error.spec_message(),
            ),
            ResolutionError::Size(error) => error.spec_message(),
        }
    }

    pub fn render(self) -> (r: String)
        ensures
            r@ == self.spec_render(),
    {
        match self {
            ResolutionError::Shape => String::from_str("resolution must use WIDTHxHEIGHT"),
            ResolutionError::Width(error) => with_context(
                "resolution width must be an integer",
                error.message(),
            ),
            ResolutionError::Height(error) => with_context(
                "resolution height must be an integer",
                error.message(),
            ),
            ResolutionError::Size(error) => String::from_str(error.message()),
        }
    }
}

/// The position of the first `x` from `from` on, or the end.
pub open spec fn next_x(bytes: Seq<u8>, from: int) -> int
    decreases bytes.len() - from,
{
    if from < 0 || from >= bytes.len() {
        bytes.len() as int
    } else if bytes[from] == 120 {
        from
    } else {
        next_x(bytes, from + 1)
    }
}

fn find_x(bytes: &[u8], from: usize) -> (r: usize)
    requires
        from <= bytes@.len(),
    ensures
        r == next_x(bytes@, from as int),
        from <= r <= bytes@.len(),
{
    let mut at: usize = from;
    while at < bytes.len() && bytes[at] != 120
        invariant
            from <= at <= bytes.len(),
            next_x(bytes@, from as int) == next_x(bytes@, at as int),
        decreases bytes.len() - at,
    {
        at = at + 1;
    }
    at
}

/// Two numbers with exactly one `x` between them that make a valid size.
pub fn parse_resolution(value: &str) -> (r: Result<FrameSize, ResolutionError>)
    ensures
        ({
            let bytes = vstd::utf8::encode_utf8(value@);
            let split = next_x(bytes, 0);
            let width = number(bytes.subrange(0, split));
            let height = number(bytes.subrange(split + 1, bytes.len() as int));
            if split == bytes.len() || next_x(bytes, split + 1) != bytes.len() {
                r == Err::<FrameSize, ResolutionError>(ResolutionError::Shape)
            } else if width is Err {
                r == Err::<FrameSize, ResolutionError>(ResolutionError::Width(width->Err_0))
            } else if height is Err {
                r == Err::<FrameSize, ResolutionError>(ResolutionError::Height(height->Err_0))
            } else if crate::messages::valid_edge(width->Ok_0 as int)
                && crate::messages::valid_edge(height->Ok_0 as int) {
                r matches Ok(size) && size.spec_width() == width->Ok_0 && size.spec_height()
                    == height->Ok_0
            } else {
                r == Err::<FrameSize, ResolutionError>(
                    ResolutionError::Size(InvalidValue::FrameDimension),
                )
            }
        }),
{
    let bytes = value.as_bytes();
    let split: usize = find_x(bytes, 0);
    if split == bytes.len() {
        return Err(ResolutionError::Shape);
    }
    if find_x(bytes, split + 1) != bytes.len() {
        return Err(ResolutionError::Shape);
    }
    let width: u32 = match parse_number(vstd::slice::slice_subrange(bytes, 0, split)) {
        Ok(width) => width,
        Err(error) => {
            return Err(ResolutionError::Width(error));
        },
    };
    let height: u32 = match parse_number(
        vstd::slice::slice_subrange(bytes, split + 1, bytes.len()),
    ) {
        Ok(height) => height,
        Err(error) => {
            return Err(ResolutionError::Height(error));
        },
    };
    match FrameSize::new(width, height) {
        Ok(size) => Ok(size),
        Err(error) => Err(ResolutionError::Size(error)),
    }
}

/// A layout is named by 1 to 32 bytes, each a letter, a digit, an underscore or a hyphen;
/// what is wrong with a name is told in that order.
pub proof fn law_layouts_have_short_plain_names(text: Seq<char>, byte: u8)
    ensures
        ({
            let bytes = vstd::utf8::encode_utf8(text);
            let plain = forall|i: int| 0 <= i < bytes.len() ==> layout_byte(#[trigger] bytes[i]);
            &&& layout_fault(text) == Some(XkbLayoutError::Empty) <==> bytes.len() == 0
            &&& layout_fault(text) == Some(XkbLayoutError::TooLong) <==> bytes.len() > 32
            &&& layout_fault(text) == Some(XkbLayoutError::InvalidCharacter) <==> 1 <= bytes.len()
                <= 32 && !plain
            &&& layout_fault(text) is None <==> 1 <= bytes.len() <= 32 && plain
        }),
        layout_byte(byte) <==> 'a' as u8 <= byte <= 'z' as u8 || 'A' as u8 <= byte <= 'Z' as u8
            || '0' as u8 <= byte <= '9' as u8 || byte == '_' as u8 || byte == '-' as u8,
{
}

/// A resolution is cut at its first `x`: none stands before it, and without one there is
/// nothing to cut.
pub proof fn law_resolutions_are_cut_at_the_first_x(bytes: Seq<u8>, from: int)
    requires
        0 <= from <= bytes.len(),
    ensures
        from <= next_x(bytes, from) <= bytes.len(),
        next_x(bytes, from) < bytes.len() ==> bytes[next_x(bytes, from)] == 'x' as u8,
        forall|i: int| from <= i < next_x(bytes, from) ==> #[trigger] bytes[i] != 'x' as u8,
    decreases bytes.len() - from,
{
    if from < bytes.len() && bytes[from] != 120 {
        law_resolutions_are_cut_at_the_first_x(bytes, from + 1);
    }
}

} // verus!
