use warpstash::paste::{paste_request, PasteError, PasteRequest};
use warpstash::types::ContentType;

#[test]
fn text_paste() {
    match paste_request(ContentType::Text, "text/plain", Some("hi"), None) {
        Ok(PasteRequest::Text(t)) => assert_eq!(t, "hi"),
        other => panic!("unexpected {:?}", other),
    }
}

#[test]
fn image_paste_keeps_mime() {
    match paste_request(ContentType::Image, "image/png", None, Some(&[1, 2])) {
        Ok(PasteRequest::Bytes { data, mime_type }) => {
            assert_eq!(data, vec![1, 2]);
            assert_eq!(mime_type, "image/png");
        }
        other => panic!("unexpected {:?}", other),
    }
}

#[test]
fn missing_content_errors() {
    let e = paste_request(ContentType::Text, "text/plain", None, Some(&[1])).unwrap_err();
    assert_eq!(e, PasteError::MissingText);
    assert_eq!(e.message(), "Text entry missing text_content");
    let e = paste_request(ContentType::Image, "image/png", Some("x"), None).unwrap_err();
    assert_eq!(e, PasteError::MissingBlob);
    assert_eq!(e.message(), "Image entry missing blob_content");
}
