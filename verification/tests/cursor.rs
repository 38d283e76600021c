use std::io::Cursor;

use base64::engine::general_purpose::STANDARD;
use base64::Engine;
use waywire::cursor::{
    data_url_of, encode, rgba_pixels, CursorError, CursorSize, CursorState, CursorUpdate,
    MAX_CURSOR_EDGE,
};

#[test]
fn builds_cursor_state_with_unpremultiplied_png_pixels() {
    let size = CursorSize::new(1, 1).expect("test cursor size should be valid");
    let mut state = CursorState::new().with_visibility(false);
    CursorUpdate::image(size, -3, 4, &vec![16, 32, 64, 128])
        .expect("test cursor image should encode")
        .apply(&mut state);

    assert!(!state.visible);
    assert_eq!(state.width, 1);
    assert_eq!(state.height, 1);
    assert_eq!(state.hotspot_x, -3);
    assert_eq!(state.hotspot_y, 4);

    let encoded = state
        .image
        .strip_prefix("data:image/png;base64,")
        .expect("cursor image should use a PNG data URL");
    let bytes = STANDARD
        .decode(encoded)
        .expect("cursor PNG should use valid base64");
    let decoder = png::Decoder::new(Cursor::new(bytes));
    let mut reader = decoder
        .read_info()
        .expect("cursor PNG header should decode");
    let mut pixels = vec![
        0;
        reader
            .output_buffer_size()
            .expect("cursor PNG output size should fit in memory")
    ];
    let info = reader
        .next_frame(&mut pixels)
        .expect("cursor PNG pixels should decode");

    assert_eq!(info.width, 1);
    assert_eq!(info.height, 1);
    assert_eq!(info.color_type, png::ColorType::Rgba);
    assert_eq!(info.bit_depth, png::BitDepth::Eight);
    assert_eq!(&pixels[..info.buffer_size()], &[127, 63, 31, 128]);
}

#[test]
fn data_urls_are_padded_base64() {
    for (bytes, text) in [
        (b"".to_vec(), "data:image/png;base64,"),
        (b"M".to_vec(), "data:image/png;base64,TQ=="),
        (b"Ma".to_vec(), "data:image/png;base64,TWE="),
        (b"Man".to_vec(), "data:image/png;base64,TWFu"),
        (vec![0xfb, 0xff, 0xbf], "data:image/png;base64,+/+/"),
    ] {
        assert_eq!(data_url_of(&bytes).expect("short files should encode"), text);
    }
}

#[test]
fn images_of_the_wrong_size_are_refused() {
    let size = CursorSize::new(2, 2).expect("test cursor size should be valid");
    assert!(matches!(
        encode(size, &vec![0, 0, 0, 0]),
        Err(CursorError::Png(_))
    ));
    assert!(CursorSize::new(0, 1).is_none());
    assert!(CursorSize::new(MAX_CURSOR_EDGE + 1, 1).is_none());
}

#[test]
fn transparent_pixels_keep_no_colour() {
    assert_eq!(rgba_pixels(&vec![9, 9, 9, 0]), vec![0, 0, 0, 0]);
    assert_eq!(rgba_pixels(&vec![1, 2, 3, 255]), vec![3, 2, 1, 255]);
    assert_eq!(rgba_pixels(&vec![200, 1, 1, 100]), vec![2, 2, 255, 100]);
}

#[test]
fn visibility_updates_leave_the_image_alone() {
    let mut state = CursorState::new();
    assert!(state.visible);
    let image = state.image.clone();
    CursorUpdate::visibility(false).apply(&mut state);
    assert!(!state.visible);
    assert_eq!(state.image, image);
}
