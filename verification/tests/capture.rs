use warpstash::capture::{
    clip_from_offer, content_type_for_mime, entry_for_clip, is_image_mime, keep_capture,
    select_best_mime, store_plan, wants_selection, CapturedClip, WatchSettings,
};
use warpstash::dedup::content_hash;
use warpstash::types::ContentType;

fn offered(list: &[&str]) -> Vec<String> {
    list.iter().map(|s| s.to_string()).collect()
}

#[test]
fn prefers_text_in_order() {
    let o = offered(&["image/png", "STRING", "text/plain", "TEXT"]);
    assert_eq!(select_best_mime(&o, true), Some("text/plain".to_string()));
    let o = offered(&["TEXT", "UTF8_STRING"]);
    assert_eq!(select_best_mime(&o, true), Some("UTF8_STRING".to_string()));
}

#[test]
fn images_only_when_enabled() {
    let o = offered(&["image/gif", "image/jpeg", "application/x-foo"]);
    assert_eq!(select_best_mime(&o, true), Some("image/jpeg".to_string()));
    assert_eq!(select_best_mime(&o, false), None);
}

#[test]
fn nothing_supported() {
    assert_eq!(select_best_mime(&offered(&[]), true), None);
    assert_eq!(select_best_mime(&offered(&["text/html", "image/webp"]), true), None);
}

#[test]
fn content_type_from_mime() {
    assert_eq!(content_type_for_mime("image/png"), ContentType::Image);
    assert_eq!(content_type_for_mime("image/"), ContentType::Image);
    assert_eq!(content_type_for_mime("image"), ContentType::Text);
    assert_eq!(content_type_for_mime("text/plain"), ContentType::Text);
    assert_eq!(content_type_for_mime("IMAGE/png"), ContentType::Text);
}

#[test]
fn keep_rules() {
    assert!(!keep_capture("text/plain", 0, 10));
    assert!(keep_capture("text/plain", 1000, 10));
    assert!(keep_capture("image/png", 10, 10));
    assert!(!keep_capture("image/png", 11, 10));
    assert!(is_image_mime("image/bmp"));
    assert!(!is_image_mime("image/webp"));
}

#[test]
fn text_clip_entry() {
    let clip = CapturedClip { data: b"hi\nthere".to_vec(), mime_type: "text/plain".into(), is_primary: false };
    let hash = content_hash(&clip.data);
    let e = entry_for_clip(&clip, hash.clone(), 1);
    assert_eq!(e.content_hash, hash);
    assert_eq!(e.content_type, ContentType::Text);
    assert_eq!(e.text_content.as_deref(), Some("hi\nthere"));
    assert_eq!(e.blob_content, None);
    assert_eq!(e.preview, "hi");
    assert_eq!(e.byte_size, 8);
    assert_eq!(e.mime_type, "text/plain");
}

#[test]
fn image_clip_entry() {
    let clip = CapturedClip { data: vec![1, 2, 3], mime_type: "image/png".into(), is_primary: true };
    let e = entry_for_clip(&clip, "h".into(), 3);
    assert_eq!(e.content_type, ContentType::Image);
    assert_eq!(e.text_content, None);
    assert_eq!(e.blob_content, Some(vec![1, 2, 3]));
    assert_eq!(e.preview, "[image png 3B]");
    assert_eq!(e.byte_size, 3);
}

#[test]
fn long_text_clip_has_character_cut_preview() {
    let text = "é".repeat(150);
    let clip = CapturedClip { data: text.clone().into_bytes(), mime_type: "text/plain".into(), is_primary: false };
    let e = entry_for_clip(&clip, "h".into(), 3);
    assert_eq!(e.preview, text);
    assert_eq!(e.byte_size, 300);
}

#[test]
fn watcher_clip_gate() {
    let s = WatchSettings { watch_primary: false, store_images: true, max_image_bytes: 4 };
    assert!(wants_selection(&s, false));
    assert!(!wants_selection(&s, true));
    assert!(clip_from_offer(&s, "text/plain".into(), b"hi".to_vec(), true).is_none());
    assert!(clip_from_offer(&s, "text/plain".into(), Vec::new(), false).is_none());
    assert!(clip_from_offer(&s, "image/png".into(), vec![0; 5], false).is_none());
    let c = clip_from_offer(&s, "image/png".into(), vec![0; 4], false).unwrap();
    assert_eq!(c.data, vec![0; 4]);
    assert_eq!(c.mime_type, "image/png");
    assert!(!c.is_primary);
    let p = WatchSettings { watch_primary: true, ..s };
    assert!(clip_from_offer(&p, "STRING".into(), b"x".to_vec(), true).unwrap().is_primary);
}

#[test]
fn store_plan_skips_consecutive_duplicates() {
    let clip = CapturedClip { data: b"same".to_vec(), mime_type: "text/plain".into(), is_primary: false };
    let h = content_hash(&clip.data);
    assert!(store_plan(&clip, true, Some(&h), 3).is_none());
    let e = store_plan(&clip, false, Some(&h), 3).unwrap();
    assert_eq!(e.content_hash, h);
    let e = store_plan(&clip, true, Some("other"), 3).unwrap();
    assert_eq!(e.content_hash, h);
    assert_eq!(e.preview, "same");
    assert!(store_plan(&clip, true, None, 3).is_some());
}
