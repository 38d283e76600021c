use waywire::options::{
    parse_fps, parse_kbps, parse_layout, parse_resolution, ResolutionError, ValueError, XkbLayout,
    XkbLayoutError,
};
use waywire::text::{decimal_text, parse_number, signed_decimal_text, NumberError};
use waywire::values::InvalidValue;

fn accepts_supported_dimensions() {
    let resolution = parse_resolution("2560x1440").expect("resolution should parse");
    assert_eq!((resolution.width(), resolution.height()), (2560, 1440));
}

#[test]
fn main_resolution_parser_accepts_supported_dimensions() {
    accepts_supported_dimensions();
}

#[test]
fn cli_resolution_parser_accepts_supported_dimensions() {
    accepts_supported_dimensions();
}

fn rejects_bad_shapes() {
    for value in ["1920", "1920X1080", "1920x1080x60", "1919x1080", "8000x100"] {
        assert!(parse_resolution(value).is_err(), "accepted {value}");
    }
}

#[test]
fn main_resolution_parser_rejects_bad_shapes_and_unsupported_dimensions() {
    rejects_bad_shapes();
}

#[test]
fn cli_resolution_parser_rejects_bad_shapes_and_unsupported_dimensions() {
    rejects_bad_shapes();
}

#[test]
fn every_resolution_error_has_an_input() {
    assert!(matches!(parse_resolution("1920"), Err(ResolutionError::Shape)));
    assert!(matches!(
        parse_resolution("ax2"),
        Err(ResolutionError::Width(NumberError::InvalidDigit))
    ));
    assert!(matches!(
        parse_resolution("2x"),
        Err(ResolutionError::Height(NumberError::Empty))
    ));
    assert!(matches!(
        parse_resolution("2x3"),
        Err(ResolutionError::Size(InvalidValue::FrameDimension))
    ));
    assert_eq!(
        ResolutionError::Shape.render(),
        "resolution must use WIDTHxHEIGHT"
    );
}

#[test]
fn numbers_are_read_as_unsigned_decimals() {
    assert_eq!(parse_number(b"0"), Ok(0));
    assert_eq!(parse_number(b"+7"), Ok(7));
    assert_eq!(parse_number(b"0042"), Ok(42));
    assert_eq!(parse_number(b"4294967295"), Ok(u32::MAX));
    assert_eq!(parse_number(b"4294967296"), Err(NumberError::TooLarge));
    assert_eq!(parse_number(b""), Err(NumberError::Empty));
    assert_eq!(parse_number(b"-1"), Err(NumberError::InvalidDigit));
    assert_eq!(parse_number(b"+"), Err(NumberError::InvalidDigit));
    for value in [0_u32, 9, 10, 4_096, u32::MAX] {
        let text = decimal_text(u128::from(value));
        assert_eq!(text, format!("{value}"));
        assert_eq!(parse_number(text.as_bytes()), Ok(value));
    }
    assert_eq!(signed_decimal_text(-120), "-120");
}

#[test]
fn frame_rates_and_bitrates_are_checked() {
    assert_eq!(parse_fps("60").expect("60 is a frame rate").get(), 60);
    assert!(matches!(
        parse_fps("0"),
        Err(ValueError::Value(InvalidValue::FrameRate))
    ));
    assert!(matches!(
        parse_fps("sixty"),
        Err(ValueError::Number(NumberError::InvalidDigit))
    ));
    assert_eq!(parse_kbps("8000").expect("8000 is a bitrate").get(), 8000);
    assert!(matches!(
        parse_kbps("299"),
        Err(ValueError::Value(InvalidValue::Bitrate))
    ));
    assert!(ValueError::Number(NumberError::Empty)
        .render("bitrate")
        .contains("bitrate"));
}

#[test]
fn layouts_are_short_and_plain() {
    assert_eq!(
        XkbLayout::parse("us-intl_2").expect("plain layout").as_str(),
        "us-intl_2"
    );
    assert_eq!(XkbLayout::parse("").err(), Some(XkbLayoutError::Empty));
    assert_eq!(
        XkbLayout::parse(&"a".repeat(33)).err(),
        Some(XkbLayoutError::TooLong)
    );
    assert_eq!(
        XkbLayout::parse("us,de").err(),
        Some(XkbLayoutError::InvalidCharacter)
    );
    assert_eq!(parse_layout("us"), Ok("us".to_owned()));
    assert!(parse_layout("us,de").is_err());
}
