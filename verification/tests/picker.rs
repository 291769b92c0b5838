use warpstash::config::KeysConfig;
use warpstash::picker::{
    after_delete, after_paste, after_reload, after_search, listing_for, message_for_key, update,
    Command, Key, Listing, Message, PickerState,
};
use warpstash::types::{ContentType, EntryPreview};

fn entry(id: i64) -> EntryPreview {
    EntryPreview {
        id,
        content_type: ContentType::Text,
        mime_type: "text/plain".into(),
        preview: format!("entry {id}"),
        byte_size: 7,
        pinned: false,
        created_at: id,
    }
}

fn state(n: i64) -> PickerState {
    PickerState::new((1..=n).map(entry).collect())
}

#[test]
fn navigation_is_clamped() {
    let mut s = state(3);
    assert!(matches!(update(&mut s, Message::MoveUp), Command::Nothing));
    assert_eq!(s.selected, 0);
    update(&mut s, Message::MoveDown);
    update(&mut s, Message::MoveDown);
    update(&mut s, Message::MoveDown);
    assert_eq!(s.selected, 2);
    update(&mut s, Message::MoveUp);
    assert_eq!(s.selected, 1);
    let mut empty = state(0);
    update(&mut empty, Message::MoveDown);
    assert_eq!(empty.selected, 0);
}

#[test]
fn down_then_up_round_trip() {
    let mut s = state(4);
    s.selected = 1;
    update(&mut s, Message::MoveDown);
    update(&mut s, Message::MoveUp);
    assert_eq!(s.selected, 1);
}

#[test]
fn actions_target_highlight() {
    let mut s = state(3);
    s.selected = 1;
    assert!(matches!(update(&mut s, Message::Select), Command::Paste(2)));
    assert!(matches!(update(&mut s, Message::SearchSubmit), Command::Paste(2)));
    assert!(matches!(update(&mut s, Message::Delete), Command::Delete(2)));
    assert!(matches!(update(&mut s, Message::Pin), Command::TogglePin(2)));
    let mut e = state(0);
    assert!(matches!(update(&mut e, Message::Select), Command::Nothing));
}

#[test]
fn search_and_escape() {
    let mut s = state(3);
    s.selected = 2;
    assert!(matches!(update(&mut s, Message::EnterSearch), Command::FocusSearch));
    assert!(s.search_mode);
    match update(&mut s, Message::SearchChanged("wor".into())) {
        Command::Search(q) => assert_eq!(q, "wor"),
        other => panic!("unexpected {:?}", other),
    }
    assert_eq!(s.selected, 0);
    assert_eq!(s.search_query, "wor");
    assert!(matches!(update(&mut s, Message::SearchChanged(String::new())), Command::Reload));
    update(&mut s, Message::SearchChanged("x".into()));
    assert!(matches!(update(&mut s, Message::EscapePressed), Command::Reload));
    assert!(!s.search_mode);
    assert_eq!(s.search_query, "");
    assert!(matches!(update(&mut s, Message::EscapePressed), Command::Exit));
    assert!(matches!(update(&mut s, Message::Quit), Command::Exit));
}

#[test]
fn click_selects() {
    let mut s = state(3);
    update(&mut s, Message::EntryClicked(2));
    assert_eq!(s.selected, 2);
}

#[test]
fn delete_keeps_highlight_in_list() {
    let mut s = state(3);
    s.selected = 2;
    after_delete(&mut s, (1..=2).map(entry).collect());
    assert_eq!(s.selected, 1);
    let mut s = state(1);
    after_delete(&mut s, Vec::new());
    assert_eq!(s.selected, 0);
}

#[test]
fn reload_search_paste_followups() {
    let mut s = state(1);
    after_reload(&mut s, (1..=5).map(entry).collect());
    assert_eq!(s.entries.len(), 5);
    assert!(matches!(after_search(&mut s, Some(vec![entry(9)])), Command::Nothing));
    assert_eq!(s.entries[0].id, 9);
    assert!(matches!(after_search(&mut s, None), Command::Reload));
    assert!(matches!(after_paste(true, true), Command::Exit));
    assert!(matches!(after_paste(true, false), Command::Nothing));
    assert!(matches!(after_paste(false, false), Command::Nothing));
}

#[test]
fn key_mapping() {
    let keys = KeysConfig::default();
    let k = |key: &Key, captured| message_for_key(key, captured, &keys);
    assert!(matches!(k(&Key::Escape, true), Some(Message::EscapePressed)));
    assert!(k(&Key::Character("j".into()), true).is_none());
    assert!(matches!(k(&Key::Character("j".into()), false), Some(Message::MoveDown)));
    assert!(matches!(k(&Key::ArrowUp, false), Some(Message::MoveUp)));
    assert!(matches!(k(&Key::Enter, false), Some(Message::Select)));
    assert!(matches!(k(&Key::Character("/".into()), false), Some(Message::EnterSearch)));
    assert!(matches!(k(&Key::Character("p".into()), false), Some(Message::Pin)));
    assert!(matches!(k(&Key::Character("d".into()), false), Some(Message::Delete)));
    assert!(k(&Key::Character("x".into()), false).is_none());
    assert!(k(&Key::Other, false).is_none());
}

#[test]
fn configured_key_mapping() {
    let keys = KeysConfig {
        scroll_down: "n".into(),
        quit: "q".into(),
        select: "Enter".into(),
        ..KeysConfig::default()
    };
    assert!(matches!(message_for_key(&Key::Character("n".into()), false, &keys), Some(Message::MoveDown)));
    assert!(message_for_key(&Key::Character("j".into()), false, &keys).is_none());
    assert!(matches!(message_for_key(&Key::ArrowDown, false, &keys), Some(Message::MoveDown)));
    assert!(matches!(message_for_key(&Key::Character("q".into()), false, &keys), Some(Message::Quit)));
    assert!(matches!(message_for_key(&Key::Enter, false, &keys), Some(Message::Select)));
    assert!(matches!(message_for_key(&Key::Escape, false, &keys), Some(Message::EscapePressed)));
}

#[test]
fn listing_follows_query() {
    let mut s = state(2);
    assert!(matches!(listing_for(&s), Listing::All));
    update(&mut s, Message::SearchChanged("wor".into()));
    match listing_for(&s) {
        Listing::Matching(q) => assert_eq!(q, "wor"),
        Listing::All => panic!("expected a search listing"),
    }
}
