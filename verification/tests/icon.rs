use winit_tray::icon::{BadIcon, Icon};

#[test]
fn an_icon_keeps_its_pixels_and_dimensions() {
    let rgba = vec![1, 2, 3, 4, 5, 6, 7, 8];
    let icon = Icon::from_rgba(rgba.clone(), 2, 1).unwrap();
    assert_eq!(icon.width(), 2);
    assert_eq!(icon.height(), 1);
    assert_eq!(icon.buffer(), &rgba);
    let copy = icon.clone();
    assert_eq!(copy, icon);
}

#[test]
fn a_buffer_that_is_no_whole_number_of_pixels_is_refused() {
    assert_eq!(
        Icon::from_rgba(vec![0; 7], 1, 1),
        Err(BadIcon::ByteCountNotDivisibleBy4 { byte_count: 7 })
    );
}

#[test]
fn a_buffer_that_does_not_match_the_dimensions_is_refused() {
    assert_eq!(
        Icon::from_rgba(vec![0; 16], 3, 2),
        Err(BadIcon::DimensionsVsPixelCount {
            width: 3,
            height: 2,
            width_x_height: 6,
            pixel_count: 4
        })
    );
}

#[test]
fn dimensions_beyond_32_bits_are_compared_exactly() {
    // 65536 * 65536 is 2^32, which is 0 in 32 bits; an empty buffer has 0 pixels.
    assert_eq!(
        Icon::from_rgba(Vec::new(), 65536, 65536),
        Err(BadIcon::DimensionsVsPixelCount {
            width: 65536,
            height: 65536,
            width_x_height: 4294967296,
            pixel_count: 0
        })
    );
}

#[test]
fn an_empty_icon_is_an_icon() {
    let icon = Icon::from_rgba(Vec::new(), 0, 5).unwrap();
    assert_eq!(icon.buffer().len(), 0);
}

#[test]
fn the_divisibility_check_comes_first() {
    assert_eq!(
        Icon::from_rgba(vec![0; 5], 9, 9),
        Err(BadIcon::ByteCountNotDivisibleBy4 { byte_count: 5 })
    );
}
