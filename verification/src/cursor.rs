//! Cursor images for browsers: premultiplied BGRA pixels become a PNG data URL.

use base64::Engine;
use png::EncodingError;
use vstd::prelude::*;

verus! {

/// The longest edge of a cursor image; its pixels stay below one gigabyte.
pub const MAX_CURSOR_EDGE: u32 = 16_384;

pub open spec fn valid_cursor_edge(edge: int) -> bool {
    0 < edge <= MAX_CURSOR_EDGE
}

#[derive(Clone, Copy, Debug, PartialEq, Eq, Structural)]
pub struct CursorSize {
    width: u32,
    height: u32,
}

impl CursorSize {
    #[verifier::type_invariant]
    spec fn inv(self) -> bool {
        valid_cursor_edge(self.width as int) && valid_cursor_edge(self.height as int)
    }

    pub closed spec fn spec_width(self) -> u32 {
        self.width
    }

    pub closed spec fn spec_height(self) -> u32 {
        self.height
    }

    pub fn new(width: u32, height: u32) -> (r: Option<Self>)
        ensures
            r is Some <==> valid_cursor_edge(width as int) && valid_cursor_edge(height as int),
            r matches Some(size) ==> size.spec_width() == width && size.spec_height() == height,
    {
        if 0 < width && width <= MAX_CURSOR_EDGE && 0 < height && height <= MAX_CURSOR_EDGE {
            Some(CursorSize { width, height })
        } else {
            None
        }
    }

    pub fn width(self) -> (r: u32)
        ensures
            r == self.spec_width(),
            valid_cursor_edge(r as int),
    {
        proof {
            use_type_invariant(&self);
        }
        self.width
    }

    pub fn height(self) -> (r: u32)
        ensures
            r == self.spec_height(),
            valid_cursor_edge(r as int),
    {
        proof {
            use_type_invariant(&self);
        }
        self.height
    }
}

/// What a browser shows as its cursor.
#[derive(Debug)]
pub struct CursorState {
    pub visible: bool,
    pub width: u32,
    pub height: u32,
    pub hotspot_x: i32,
    pub hotspot_y: i32,
    pub image: String,
}

impl CursorState {
    /// Visible and without an image.
    pub fn new() -> (r: Self)
        ensures
            r.visible,
            r.width == 0,
            r.height == 0,
            r.hotspot_x == 0,
            r.hotspot_y == 0,
            r.image@ == Seq::<char>::empty(),
    {
        CursorState {
            visible: true,
            width: 0,
            height: 0,
            hotspot_x: 0,
            hotspot_y: 0,
            image: String::new(),
        }
    }

    pub fn with_visibility(self, visible: bool) -> (r: Self)
        ensures
            r == (CursorState { visible, ..self }),
    {
        CursorState { visible, ..self }
    }
}

/// `png::EncodingError`: why pixels could not be encoded. Nothing is claimed of it; it
/// is only carried.
#[verifier::external_type_specification]
#[verifier::external_body]
pub struct ExEncodingError(png::EncodingError);

#[derive(Debug)]
pub enum CursorError {
    Png(EncodingError),
    /// The image has more bytes than a text can be made of.
    TooLarge,
}

/// What the PNG encoder makes of RGBA pixels; `None` if it refuses them.
pub uninterp spec fn png_file(width: u32, height: u32, rgba: Seq<u8>) -> Option<Seq<u8>>;

/// `png::Encoder` with eight-bit RGBA and its default options: writes one image into
/// memory. It refuses pixels of another number than the size calls for, and nothing
/// else. The file is a function of the size and the pixels; what function is left
/// unsaid.
#[verifier::external_body]
fn encode_png(width: u32, height: u32, rgba: &Vec<u8>) -> (r: Result<Vec<u8>, EncodingError>)
    requires
        valid_cursor_edge(width as int),
        valid_cursor_edge(height as int),
    ensures
        match r {
            Ok(file) => png_file(width, height, rgba@) == Some(file@),
            Err(_) => png_file(width, height, rgba@) is None,
        },
        r is Ok <==> rgba@.len() == width * height * 4,
{
    let mut bytes = Vec::new();
    let mut encoder = png::Encoder::new(std::io::Cursor::new(&mut bytes), width, height);
    encoder.set_color(png::ColorType::Rgba);
    encoder.set_depth(png::BitDepth::Eight);
    let mut writer = encoder.write_header()?;
    writer.write_image_data(rgba)?;
    drop(writer);
    Ok(bytes)
}

/// The character of the standard Base64 alphabet for a six-bit value.
pub open spec fn base64_char(value: int) -> char {
    if value < 26 {
        (65 + value) as char
    } else if value < 52 {
        (97 + value - 26) as char
    } else if value < 62 {
        (48 + value - 52) as char
    } else if value == 62 {
        '+'
    } else {
        '/'
    }
}

/// Standard Base64 with padding: every three bytes become four characters, and an
/// incomplete last group is filled with equals signs.
pub open spec fn base64_standard(bytes: Seq<u8>) -> Seq<char>
    decreases bytes.len(),
{
    if bytes.len() == 0 {
        Seq::empty()
    } else if bytes.len() == 1 {
        seq![base64_char(bytes[0] as int / 4), base64_char(bytes[0] % 4 * 16), '=', '=']
    } else if bytes.len() == 2 {
        seq![
            base64_char(bytes[0] as int / 4),
            base64_char(bytes[0] % 4 * 16 + bytes[1] / 16),
            base64_char(bytes[1] % 16 * 4),
            '=',
        ]
    } else {
        seq![
            base64_char(bytes[0] as int / 4),
            base64_char(bytes[0] % 4 * 16 + bytes[1] / 16),
            base64_char(bytes[1] % 16 * 4 + bytes[2] / 64),
            base64_char(bytes[2] as int % 64),
        ] + base64_standard(bytes.skip(3))
    }
}

/// `base64::Engine::encode` of `base64::engine::general_purpose::STANDARD`: the standard
/// alphabet, with padding. The function panics if the length of the text overflows.
#[verifier::external_body]
fn encode_base64(bytes: &Vec<u8>) -> (r: String)
    requires
        bytes@.len() <= usize::MAX / 2,
    ensures
        r@ == base64_standard(bytes@),
{
    base64::engine::general_purpose::STANDARD.encode(bytes)
}

/// A colour component without the alpha that it was multiplied with.
pub open spec fn unpremultiplied(value: u8, alpha: u8) -> u8 {
    if alpha == 0 {
        0
    } else if value * 255 / alpha as int > 255 {
        255
    } else {
        (value * 255 / alpha as int) as u8
    }
}

/// The RGBA pixels of premultiplied BGRA pixels; an incomplete last pixel is dropped.
pub open spec fn rgba_of(bgra: Seq<u8>) -> Seq<u8> {
    Seq::new(
        (bgra.len() / 4 * 4) as nat,
        |i: int|
            {
                let pixel = i / 4 * 4;
                let alpha = bgra[pixel + 3];
                if i % 4 == 3 {
                    alpha
                } else {
                    unpremultiplied(bgra[pixel + 2 - i % 4], alpha)
                }
            },
    )
}

fn unpremultiply(value: u8, alpha: u8) -> (r: u8)
    ensures
        r == unpremultiplied(value, alpha),
{
    if alpha == 0 {
        0
    } else {
        let scaled: u16 = value as u16 * 255 / alpha as u16;
        if scaled > 255 {
            255
        } else {
            scaled as u8
        }
    }
}

pub fn rgba_pixels(bgra: &Vec<u8>) -> (r: Vec<u8>)
    ensures
        r@ == rgba_of(bgra@),
{
    let mut rgba: Vec<u8> = Vec::new();
    let mut at: usize = 0;
    while bgra.len() - at >= 4
        invariant
            at <= bgra@.len(),
            at % 4 == 0,
            rgba@.len() == at,
            forall|i: int| 0 <= i < at ==> #[trigger] rgba@[i] == rgba_of(bgra@)[i],
        decreases bgra@.len() - at,
    {
        let alpha: u8 = bgra[at + 3];
        let ghost before = rgba@;
        rgba.push(unpremultiply(bgra[at + 2], alpha));
        rgba.push(unpremultiply(bgra[at + 1], alpha));
        rgba.push(unpremultiply(bgra[at], alpha));
        rgba.push(alpha);
        proof {
            let all = rgba_of(bgra@);
            let a = at as int;
            assert(a / 4 * 4 == a && (a + 1) / 4 * 4 == a && (a + 2) / 4 * 4 == a && (a + 3) / 4
                * 4 == a);
            assert(rgba@[a] == all[a] && rgba@[a + 1] == all[a + 1] && rgba@[a + 2] == all[a + 2]
                && rgba@[a + 3] == all[a + 3]);
            assert forall|i: int| 0 <= i < at + 4 implies #[trigger] rgba@[i] == all[i] by {
                if i < at {
                    assert(rgba@[i] == before[i]);
                }
            }
        }
        at = at + 4;
    }
    assert(rgba@ =~= rgba_of(bgra@));
    rgba
}

/// The data URL of an encoded image.
pub open spec fn data_url(file: Seq<u8>) -> Seq<char> {
    "data:image/png;base64,"@ + base64_standard(file)
}

/// Whether there are as many whole pixels as the size calls for.
pub open spec fn fills(size: CursorSize, bgra: Seq<u8>) -> bool {
    bgra.len() / 4 == size.spec_width() * size.spec_height()
}

/// The data URL of a cursor image.
pub fn encode(size: CursorSize, bgra: &Vec<u8>) -> (r: Result<String, CursorError>)
    ensures
        r matches Err(CursorError::Png(_)) <==> !fills(size, bgra@),
        match png_file(size.spec_width(), size.spec_height(), rgba_of(bgra@)) {
            Some(file) => if file.len() <= usize::MAX / 2 {
                r matches Ok(url) && url@ == data_url(file)
            } else {
                r matches Err(CursorError::TooLarge)
            },
            None => r matches Err(CursorError::Png(_)),
        },
{
    let rgba = rgba_pixels(bgra);
    match encode_png(size.width(), size.height(), &rgba) {
        Ok(file) => data_url_of(&file),
        Err(error) => Err(CursorError::Png(error)),
    }
}

/// The data URL of an encoded image, if it can be held.
pub fn data_url_of(file: &Vec<u8>) -> (r: Result<String, CursorError>)
    ensures
        if file@.len() <= usize::MAX / 2 {
            r matches Ok(url) && url@ == data_url(file@)
        } else {
            r matches Err(CursorError::TooLarge)
        },
{
    if file.len() > usize::MAX / 2 {
        return Err(CursorError::TooLarge);
    }
    let mut url = String::from_str("data:image/png;base64,");
    let encoded = encode_base64(file);
    url.append(encoded.as_str());
    Ok(url)
}

/// A change of the cursor.
#[derive(Debug)]
pub enum CursorUpdate {
    Visibility { visible: bool },
    Image { width: u32, height: u32, hotspot_x: i32, hotspot_y: i32, image: String },
}

impl CursorUpdate {
    pub fn visibility(visible: bool) -> (r: Self)
        ensures
            r == (CursorUpdate::Visibility { visible }),
    {
        CursorUpdate::Visibility { visible }
    }

    pub fn image(size: CursorSize, hotspot_x: i32, hotspot_y: i32, bgra: &Vec<u8>) -> (r: Result<
        Self,
        CursorError,
    >)
        ensures
            r matches Err(CursorError::Png(_)) <==> !fills(size, bgra@),
            match png_file(size.spec_width(), size.spec_height(), rgba_of(bgra@)) {
                Some(file) => if file.len() <= usize::MAX / 2 {
                    r matches Ok(CursorUpdate::Image { width, height, hotspot_x: x, hotspot_y: y, image })
                        && width == size.spec_width() && height == size.spec_height() && x
                        == hotspot_x && y == hotspot_y && image@ == data_url(file)
                } else {
                    r matches Err(CursorError::TooLarge)
                },
                None => r matches Err(CursorError::Png(_)),
            },
    {
        match encode(size, bgra) {
            Ok(image) => Ok(
                CursorUpdate::Image {
                    width: size.width(),
                    height: size.height(),
                    hotspot_x,
                    hotspot_y,
                    image,
                },
            ),
            Err(error) => Err(error),
        }
    }

    /// A change of visibility keeps the image, and a new image keeps the visibility.
    pub fn apply(self, current: &mut CursorState)
        ensures
            *final(current) == match self {
                CursorUpdate::Visibility { visible } => CursorState { visible, ..*old(current) },
                CursorUpdate::Image { width, height, hotspot_x, hotspot_y, image } => CursorState {
                    visible: old(current).visible,
                    width,
                    height,
                    hotspot_x,
                    hotspot_y,
                    image,
                },
            },
    {
        match self {
            CursorUpdate::Visibility { visible } => {
                current.visible = visible;
            },
            CursorUpdate::Image { width, height, hotspot_x, hotspot_y, image } => {
                current.width = width;
                current.height = height;
                current.hotspot_x = hotspot_x;
                current.hotspot_y = hotspot_y;
                current.image = image;
            },
        }
    }
}

/// The pixels come out in their order with red and blue exchanged and the alpha divided
/// out: as many whole pixels as went in.
pub proof fn law_pixels_keep_their_place(bgra: Seq<u8>, pixel: int)
    requires
        0 <= pixel,
        4 * pixel + 4 <= bgra.len(),
    ensures
        ({
            let rgba = rgba_of(bgra);
            let at = 4 * pixel;
            let alpha = bgra[at + 3];
            &&& rgba.len() == bgra.len() - bgra.len() % 4
            &&& rgba[at] == unpremultiplied(bgra[at + 2], alpha)
            &&& rgba[at + 1] == unpremultiplied(bgra[at + 1], alpha)
            &&& rgba[at + 2] == unpremultiplied(bgra[at], alpha)
            &&& rgba[at + 3] == alpha
        }),
{
    let at = 4 * pixel;
    assert(at / 4 * 4 == at && (at + 1) / 4 * 4 == at && (at + 2) / 4 * 4 == at && (at + 3) / 4 * 4
        == at);
    assert(at % 4 == 0 && (at + 1) % 4 == 1 && (at + 2) % 4 == 2 && (at + 3) % 4 == 3);
}

/// An opaque colour stays as it is, a transparent one is black, and any other is the
/// largest that the alpha brings back to no more than it was.
pub proof fn law_alpha_is_divided_out(value: u8, alpha: u8)
    ensures
        alpha == 255 ==> unpremultiplied(value, alpha) == value,
        alpha == 0 ==> unpremultiplied(value, alpha) == 0,
        0 < alpha && value > alpha ==> unpremultiplied(value, alpha) == 255,
        0 < alpha && value <= alpha ==> {
            let colour = unpremultiplied(value, alpha);
            colour * alpha <= value * 255 && value * 255 < (colour + 1) * alpha
        },
{
    if 0 < alpha {
        let quotient = value * 255 / alpha as int;
        vstd::arithmetic::div_mod::lemma_fundamental_div_mod(value * 255, alpha as int);
        let rest = (value * 255) % (alpha as int);
        assert(value * 255 == alpha * quotient + rest);
        assert(0 <= rest < alpha);
        if value > alpha {
            assert(quotient >= 255) by (nonlinear_arith)
                requires
                    value * 255 == alpha * quotient + rest,
                    0 <= rest < alpha,
                    value > alpha,
                    alpha > 0,
            ;
        } else {
            assert(quotient <= 255) by (nonlinear_arith)
                requires
                    value * 255 == alpha * quotient + rest,
                    0 <= rest < alpha,
                    value <= alpha,
                    alpha > 0,
            ;
            assert(quotient >= 0) by (nonlinear_arith)
                requires
                    value * 255 == alpha * quotient + rest,
                    0 <= rest < alpha,
                    value >= 0,
                    alpha > 0,
            ;
            assert(quotient * alpha <= value * 255 && value * 255 < (quotient + 1) * alpha)
                by (nonlinear_arith)
                requires
                    value * 255 == alpha * quotient + rest,
                    0 <= rest < alpha,
            ;
        }
    }
}

/// An image is its size in whole pixels, each edge from 1 to 16384, and goes out behind
/// the prefix of a PNG data URL.
pub proof fn law_images_fill_their_size(size: CursorSize, bgra: Seq<u8>, edge: int, file: Seq<u8>)
    ensures
        valid_cursor_edge(edge) <==> 1 <= edge <= 16_384,
        bgra.len() == 4 * (size.spec_width() * size.spec_height()) ==> fills(size, bgra),
        fills(size, bgra) ==> 4 * (size.spec_width() * size.spec_height()) <= bgra.len() < 4 * (
        size.spec_width() * size.spec_height()) + 4,
        data_url(file) == "data:image/png;base64,"@ + base64_standard(file),
{
}

} // verus!
