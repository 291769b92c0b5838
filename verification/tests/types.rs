use warpstash::types::{ClipboardEntry, ContentType, EntryPreview, NewEntry};

#[test]
fn content_type_names() {
    assert_eq!(ContentType::Text.as_str(), "text");
    assert_eq!(ContentType::Image.as_str(), "image");
}

#[test]
fn content_type_round_trip() {
    for t in [ContentType::Text, ContentType::Image] {
        assert_eq!(ContentType::from_str(t.as_str()), Some(t));
    }
    assert_eq!(ContentType::from_str("Text"), None);
    assert_eq!(ContentType::from_str(""), None);
    assert_eq!(ContentType::from_str("images"), None);
}

#[test]
fn preview_row_unknown_type_reads_as_text() {
    let p = EntryPreview::from_row(7, "video", "video/mp4".into(), "clip".into(), 12, true, 99);
    assert_eq!(p.id, 7);
    assert_eq!(p.content_type, ContentType::Text);
    assert_eq!(p.mime_type, "video/mp4");
    assert_eq!(p.preview, "clip");
    assert_eq!(p.byte_size, 12);
    assert!(p.pinned);
    assert_eq!(p.created_at, 99);
}

#[test]
fn preview_row_size_cast() {
    let p = EntryPreview::from_row(1, "image", "image/png".into(), "x".into(), -1, false, 0);
    assert_eq!(p.content_type, ContentType::Image);
    assert_eq!(p.byte_size, usize::MAX);
}

#[test]
fn full_row_keeps_columns() {
    let e = ClipboardEntry::from_row(
        3,
        "abc".into(),
        "text".into(),
        "text/plain".into(),
        Some("Hello, world!".into()),
        None,
        "Hello, world!".into(),
        13,
        false,
        5,
    );
    assert_eq!(e.text_content.as_deref(), Some("Hello, world!"));
    assert_eq!(e.content_type, ContentType::Text);
    assert_eq!(e.byte_size, 13);
    assert_eq!(e.content_hash, "abc");
}

#[test]
fn new_entry_stored_size() {
    let e = NewEntry {
        content_hash: "h".into(),
        content_type: ContentType::Text,
        mime_type: "text/plain".into(),
        text_content: Some("x".into()),
        blob_content: None,
        preview: "x".into(),
        byte_size: 42,
    };
    assert_eq!(e.stored_size(), 42);
}
