use std::io::Cursor;

use warpstash::preview::{
    image_format_label, image_preview, image_preview_from, make_preview, text_preview, ImageKind,
};
use warpstash::types::ContentType;

fn png_bytes(width: u32, height: u32) -> Vec<u8> {
    let img = image::RgbImage::new(width, height);
    let mut out = Cursor::new(Vec::new());
    img.write_to(&mut out, image::ImageFormat::Png).unwrap();
    out.into_inner()
}

#[test]
fn text_preview_keeps_first_lines() {
    let p = make_preview(ContentType::Text, b"one\ntwo\nthree\nfour", "text/plain", 3);
    assert_eq!(p, "one\ntwo\nthree");
}

#[test]
fn text_preview_strips_crlf_and_final_newline() {
    let p = make_preview(ContentType::Text, b"a\r\nb\r\n", "text/plain", 5);
    assert_eq!(p, "a\nb");
    // A lone carriage return is kept.
    let p = make_preview(ContentType::Text, b"a\rb", "text/plain", 5);
    assert_eq!(p, "a\rb");
}

#[test]
fn text_preview_keeps_empty_lines() {
    let p = make_preview(ContentType::Text, b"a\n\nb", "text/plain", 3);
    assert_eq!(p, "a\n\nb");
    let p = make_preview(ContentType::Text, b"\n", "text/plain", 3);
    assert_eq!(p, "");
    let p = make_preview(ContentType::Text, b"", "text/plain", 3);
    assert_eq!(p, "");
}

#[test]
fn text_preview_zero_lines_is_empty() {
    let p = make_preview(ContentType::Text, b"abc", "text/plain", 0);
    assert_eq!(p, "");
}

#[test]
fn text_preview_cut_at_200_chars() {
    let long = "x".repeat(250);
    let p = make_preview(ContentType::Text, long.as_bytes(), "text/plain", 3);
    assert_eq!(p, format!("{}…", "x".repeat(200)));
    let exact = "y".repeat(200);
    let p = make_preview(ContentType::Text, exact.as_bytes(), "text/plain", 3);
    assert_eq!(p, exact);
}

#[test]
fn text_preview_invalid_utf8_is_replaced() {
    let p = make_preview(ContentType::Text, b"ab\xffcd", "text/plain", 1);
    assert_eq!(p, "ab\u{FFFD}cd");
}

#[test]
fn text_preview_cut_counts_characters() {
    // 150 two-byte characters stay whole.
    let s = "é".repeat(150);
    assert_eq!(text_preview(&s, 3), s);
    assert_eq!(make_preview(ContentType::Text, s.as_bytes(), "text/plain", 3), s);
    // 250 of them are cut to 200 and an ellipsis.
    let s = "é".repeat(250);
    assert_eq!(text_preview(&s, 3), format!("{}…", "é".repeat(200)));
    // A cut that no byte boundary at 200 would allow.
    let s = format!("{}é{}", "a".repeat(199), "b".repeat(10));
    assert_eq!(text_preview(&s, 3), format!("{}é…", "a".repeat(199)));
}

#[test]
fn image_preview_with_dimensions() {
    let png = png_bytes(3, 2);
    let p = make_preview(ContentType::Image, &png, "image/png", 3);
    assert_eq!(p, "[image 3×2 PNG]");
}

#[test]
fn image_preview_format_only() {
    // PNG signature but no decodable image.
    let mut data = b"\x89PNG\r\n\x1a\n".to_vec();
    data.extend_from_slice(&[0u8; 4]);
    let p = image_preview(&data, "image/png");
    assert_eq!(p, "[image PNG 12B]");
}

#[test]
fn image_preview_falls_back_to_mime() {
    let p = image_preview(b"not an image", "image/x-custom");
    assert_eq!(p, "[image x-custom 12B]");
    let p = image_preview(b"", "weird");
    assert_eq!(p, "[image weird 0B]");
    let p = image_preview(b"abc", "image/");
    assert_eq!(p, "[image  3B]");
}

#[test]
fn format_labels() {
    assert_eq!(image_format_label(ImageKind::Png), "PNG");
    assert_eq!(image_format_label(ImageKind::Jpeg), "Jpeg");
    assert_eq!(image_format_label(ImageKind::OpenExr), "OpenExr");
    assert_eq!(image_format_label(ImageKind::WebP), "WebP");
}

#[test]
fn gif_format_only() {
    let p = image_preview(b"GIF89a", "image/gif");
    assert_eq!(p, "[image Gif 6B]");
}

#[test]
fn image_preview_text_shapes() {
    assert_eq!(image_preview_from(Some(ImageKind::Png), Some((1920, 1080)), 5, "image/png"), "[image 1920×1080 PNG]");
    assert_eq!(image_preview_from(Some(ImageKind::Bmp), None, 40, "image/bmp"), "[image Bmp 40B]");
    assert_eq!(image_preview_from(None, Some((1, 1)), 7, "image/x-y"), "[image x-y 7B]");
}
