use raytracer::ppm::{encode, header, push_decimal, push_pixel, EncodeError, Rgb};

fn text(bytes: &[u8]) -> String {
    String::from_utf8(bytes.to_vec()).unwrap()
}

#[test]
fn header_of_480_by_270() {
    let h = header(480, 270, 255);
    let s = text(&h);
    let lines: Vec<&str> = s.lines().collect();
    assert_eq!(lines, vec!["P3", "480 270", "255"]);
    assert_eq!(s, "P3\n480 270\n255\n");
}

#[test]
fn header_of_empty_image() {
    assert_eq!(text(&header(0, 0, 1)), "P3\n0 0\n1\n");
}

#[test]
fn decimal_of_zero_and_large_values() {
    let mut out = Vec::new();
    push_decimal(&mut out, 0);
    assert_eq!(text(&out), "0");
    let mut out = b"x".to_vec();
    push_decimal(&mut out, 1200);
    assert_eq!(text(&out), "x1200");
    let mut out = Vec::new();
    push_decimal(&mut out, u64::MAX);
    assert_eq!(text(&out), "18446744073709551615");
    let mut out = Vec::new();
    push_decimal(&mut out, 10);
    assert_eq!(text(&out), "10");
}

#[test]
fn pixel_line_appends() {
    let mut out = b"P3\n".to_vec();
    push_pixel(&mut out, Rgb { r: 255, g: 0, b: 17 });
    assert_eq!(text(&out), "P3\n255 0 17\n");
}

#[test]
fn encode_two_by_one() {
    let pixels = vec![Rgb { r: 1, g: 2, b: 3 }, Rgb { r: 255, g: 128, b: 0 }];
    let bytes = encode(2, 1, 255, &pixels).unwrap();
    assert_eq!(text(&bytes), "P3\n2 1\n255\n1 2 3\n255 128 0\n");
}

#[test]
fn encode_rows_in_given_order() {
    let pixels = vec![
        Rgb { r: 9, g: 9, b: 9 },
        Rgb { r: 8, g: 8, b: 8 },
        Rgb { r: 7, g: 7, b: 7 },
        Rgb { r: 6, g: 6, b: 6 },
    ];
    let bytes = encode(2, 2, 9, &pixels).unwrap();
    assert_eq!(text(&bytes), "P3\n2 2\n9\n9 9 9\n8 8 8\n7 7 7\n6 6 6\n");
}

#[test]
fn encode_empty_image() {
    let bytes = encode(0, 5, 255, &Vec::new()).unwrap();
    assert_eq!(text(&bytes), "P3\n0 5\n255\n");
}

#[test]
fn encode_rejects_wrong_pixel_count() {
    let pixels = vec![Rgb { r: 1, g: 2, b: 3 }];
    assert_eq!(encode(2, 1, 255, &pixels), Err(EncodeError::PixelCount));
    assert_eq!(encode(0, 0, 255, &pixels), Err(EncodeError::PixelCount));
    assert_eq!(encode(u64::MAX, u64::MAX, 255, &pixels), Err(EncodeError::PixelCount));
}

#[test]
fn encode_rejects_channel_over_max() {
    let pixels = vec![Rgb { r: 1, g: 2, b: 3 }, Rgb { r: 0, g: 256, b: 0 }];
    assert_eq!(encode(1, 2, 255, &pixels), Err(EncodeError::ChannelRange));
    let pixels = vec![Rgb { r: 0, g: 0, b: 2 }];
    assert_eq!(encode(1, 1, 1, &pixels), Err(EncodeError::ChannelRange));
}

#[test]
fn encode_accepts_channel_equal_to_max() {
    let pixels = vec![Rgb { r: 1, g: 1, b: 1 }];
    let bytes = encode(1, 1, 1, &pixels).unwrap();
    assert_eq!(text(&bytes), "P3\n1 1\n1\n1 1 1\n");
}
