use warpstash::display::{
    centered_margins, first_preview_line, pin_marker, selection_indicator, size_unit, type_badge,
    SizeUnit,
};
use warpstash::types::ContentType;

#[test]
fn row_labels() {
    assert_eq!(selection_indicator(true), "▸ ");
    assert_eq!(selection_indicator(false), "  ");
    assert_eq!(type_badge(ContentType::Text), "txt");
    assert_eq!(type_badge(ContentType::Image), "img");
    assert_eq!(pin_marker(true), " 📌");
    assert_eq!(pin_marker(false), "");
}

#[test]
fn first_line_of_preview() {
    assert_eq!(first_preview_line("one\ntwo"), "one");
    assert_eq!(first_preview_line("one\r\ntwo"), "one");
    assert_eq!(first_preview_line(""), "(empty)");
    assert_eq!(first_preview_line("\nsecond"), "");
}

#[test]
fn size_units() {
    assert_eq!(size_unit(0), SizeUnit::Bytes);
    assert_eq!(size_unit(1023), SizeUnit::Bytes);
    assert_eq!(size_unit(1024), SizeUnit::Kilobytes);
    assert_eq!(size_unit(1024 * 1024 - 1), SizeUnit::Kilobytes);
    assert_eq!(size_unit(1024 * 1024), SizeUnit::Megabytes);
}

#[test]
fn margins_center_window() {
    assert_eq!(centered_margins(1920, 1080, 680, 520), (280, 620));
    assert_eq!(centered_margins(1920, 1080, 681, 521), (279, 619));
    assert_eq!(centered_margins(600, 400, 680, 520), (0, 0));
}
