use warpstash::config::{
    config_path, db_file_path, default_key_pin, join_path, DaemonConfig, GeneralConfig,
    KeysConfig, ThemeConfig, UiConfig,
};

#[test]
fn config_defaults() {
    let g = GeneralConfig::default();
    assert_eq!(g.max_history, 1000);
    assert!(g.deduplicate);
    let d = DaemonConfig::default();
    assert!(!d.watch_primary_selection);
    assert!(d.store_images);
    assert_eq!(d.max_image_bytes, 10_485_760);
    let u = UiConfig::default();
    assert_eq!((u.width, u.height, u.preview_lines), (680, 520, 3));
    let t = ThemeConfig::default();
    assert_eq!(t.background, "#0D0B1A");
    assert_eq!(t.selected, "#00E5CC22");
    let k = KeysConfig::default();
    assert_eq!(k.scroll_up, "k");
    assert_eq!(k.select, "Return");
    assert_eq!(default_key_pin(), "p");
}

#[test]
fn paths() {
    assert_eq!(config_path("/home/u/.config/warpstash"), "/home/u/.config/warpstash/config.toml");
    assert_eq!(config_path("/home/u/.config/warpstash/"), "/home/u/.config/warpstash/config.toml");
    assert_eq!(config_path(""), "config.toml");
    assert_eq!(db_file_path("/data"), "/data/clipboard.db");
    assert_eq!(join_path("/a", "/b"), "/b");
}

#[test]
fn paths_agree_with_std() {
    for dir in ["/x/y", "/x/y/", "", "rel", "/"] {
        let expected = std::path::Path::new(dir).join("config.toml");
        assert_eq!(config_path(dir), expected.to_str().unwrap());
    }
}
