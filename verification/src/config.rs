//! Configuration sections and their default values.
//!
//! Reading and parsing the configuration file is done by the application;
//! the library holds the sections, the values that fill in missing keys,
//! and where the file lives inside the configuration directory.

use vstd::prelude::*;

verus! {

// ─── Sections ───────────────────────────────────────────────────────────

/// The whole configuration.
#[derive(Debug, Clone)]
pub struct Config {
    pub general: GeneralConfig,
    pub daemon: DaemonConfig,
    pub ui: UiConfig,
    pub theme: ThemeConfig,
    pub keys: KeysConfig,
}

/// History size and deduplication.
#[derive(Debug, Clone)]
pub struct GeneralConfig {
    pub max_history: usize,
    pub deduplicate: bool,
}

/// What the daemon captures.
#[derive(Debug, Clone)]
pub struct DaemonConfig {
    pub watch_primary_selection: bool,
    pub store_images: bool,
    pub max_image_bytes: usize,
}

/// Picker window geometry and preview length. (The window's corner radius
/// and opacity are floating-point values kept by the application.)
#[derive(Debug, Clone)]
pub struct UiConfig {
    pub width: u32,
    pub height: u32,
    pub preview_lines: usize,
}

/// Colours of the picker, as `#RRGGBB` or `#RRGGBBAA` strings.
#[derive(Debug, Clone)]
pub struct ThemeConfig {
    pub background: String,
    pub surface: String,
    pub surface_hover: String,
    pub primary: String,
    pub secondary: String,
    pub accent: String,
    pub text: String,
    pub text_dim: String,
    pub border: String,
    pub selected: String,
}

/// Key names bound to picker actions.
#[derive(Debug, Clone)]
pub struct KeysConfig {
    pub scroll_up: String,
    pub scroll_down: String,
    pub select: String,
    pub delete: String,
    pub search: String,
    pub quit: String,
    pub pin: String,
}

// ─── Default values ─────────────────────────────────────────────────────

pub fn default_true() -> (r: bool)
    ensures
        r,
{
    true
}

pub fn default_max_history() -> (r: usize)
    ensures
        r == 1000,
{
    1000
}

pub fn default_max_image_bytes() -> (r: usize)
    ensures
        r == 10_485_760,
{
    10_485_760
}

pub fn default_width() -> (r: u32)
    ensures
        r == 680,
{
    680
}

pub fn default_height() -> (r: u32)
    ensures
        r == 520,
{
    520
}

pub fn default_preview_lines() -> (r: usize)
    ensures
        r == 3,
{
    3
}

pub fn default_background() -> (r: String)
    ensures
        r@ == "#0D0B1A"@,
{
    String::from_str("#0D0B1A")
}

pub fn default_surface() -> (r: String)
    ensures
        r@ == "#1A1730"@,
{
    String::from_str("#1A1730")
}

pub fn default_surface_hover() -> (r: String)
    ensures
        r@ == "#2A2545"@,
{
    String::from_str("#2A2545")
}

pub fn default_primary() -> (r: String)
    ensures
        r@ == "#00E5CC"@,
{
    String::from_str("#00E5CC")
}

pub fn default_secondary() -> (r: String)
    ensures
        r@ == "#7C3AED"@,
{
    String::from_str("#7C3AED")
}

pub fn default_accent() -> (r: String)
    ensures
        r@ == "#FF6B4A"@,
{
    String::from_str("#FF6B4A")
}

pub fn default_text() -> (r: String)
    ensures
        r@ == "#E8E6F0"@,
{
    String::from_str("#E8E6F0")
}

pub fn default_text_dim() -> (r: String)
    ensures
        r@ == "#8B87A3"@,
{
    String::from_str("#8B87A3")
}

pub fn default_border() -> (r: String)
    ensures
        r@ == "#2E2A45"@,
{
    String::from_str("#2E2A45")
}

pub fn default_selected() -> (r: String)
    ensures
        r@ == "#00E5CC22"@,
{
    String::from_str("#00E5CC22")
}

pub fn default_key_up() -> (r: String)
    ensures
        r@ == "k"@,
{
    String::from_str("k")
}

pub fn default_key_down() -> (r: String)
    ensures
        r@ == "j"@,
{
    String::from_str("j")
}

pub fn default_key_select() -> (r: String)
    ensures
        r@ == "Return"@,
{
    String::from_str("Return")
}

pub fn default_key_delete() -> (r: String)
    ensures
        r@ == "d"@,
{
    String::from_str("d")
}

pub fn default_key_search() -> (r: String)
    ensures
        r@ == "/"@,
{
    String::from_str("/")
}

pub fn default_key_quit() -> (r: String)
    ensures
        r@ == "Escape"@,
{
    String::from_str("Escape")
}

pub fn default_key_pin() -> (r: String)
    ensures
        r@ == "p"@,
{
    String::from_str("p")
}

impl Default for GeneralConfig {
    fn default() -> (r: Self)
        ensures
            r.max_history == 1000,
            r.deduplicate,
    {
        GeneralConfig { max_history: default_max_history(), deduplicate: true }
    }
}

impl Default for DaemonConfig {
    fn default() -> (r: Self)
        ensures
            !r.watch_primary_selection,
            r.store_images,
            r.max_image_bytes == 10_485_760,
    {
        DaemonConfig {
            watch_primary_selection: false,
            store_images: true,
            max_image_bytes: default_max_image_bytes(),
        }
    }
}

impl Default for UiConfig {
    fn default() -> (r: Self)
        ensures
            r.width == 680,
            r.height == 520,
            r.preview_lines == 3,
    {
        UiConfig {
            width: default_width(),
            height: default_height(),
            preview_lines: default_preview_lines(),
        }
    }
}

impl Default for ThemeConfig {
    fn default() -> (r: Self)
        ensures
            r.background@ == "#0D0B1A"@,
            r.surface@ == "#1A1730"@,
            r.surface_hover@ == "#2A2545"@,
            r.primary@ == "#00E5CC"@,
            r.secondary@ == "#7C3AED"@,
            r.accent@ == "#FF6B4A"@,
            r.text@ == "#E8E6F0"@,
            r.text_dim@ == "#8B87A3"@,
            r.border@ == "#2E2A45"@,
            r.selected@ == "#00E5CC22"@,
    {
        ThemeConfig {
            background: default_background(),
            surface: default_surface(),
            surface_hover: default_surface_hover(),
            primary: default_primary(),
            secondary: default_secondary(),
            accent: default_accent(),
            text: default_text(),
            text_dim: default_text_dim(),
            border: default_border(),
            selected: default_selected(),
        }
    }
}

impl Default for KeysConfig {
    fn default() -> (r: Self)
        ensures
            r.scroll_up@ == "k"@,
            r.scroll_down@ == "j"@,
            r.select@ == "Return"@,
            r.delete@ == "d"@,
            r.search@ == "/"@,
            r.quit@ == "Escape"@,
            r.pin@ == "p"@,
    {
        KeysConfig {
            scroll_up: default_key_up(),
            scroll_down: default_key_down(),
            select: default_key_select(),
            delete: default_key_delete(),
            search: default_key_search(),
            quit: default_key_quit(),
            pin: default_key_pin(),
        }
    }
}

// ─── Paths ──────────────────────────────────────────────────────────────

/// `dir` joined with `name` as `Path::join` does on Unix: an absolute
/// `name` replaces `dir`; otherwise a `/` separates them unless `dir` is
/// empty or already ends with one.
pub open spec fn joined_path(dir: Seq<char>, name: Seq<char>) -> Seq<char> {
    if name.len() > 0 && name[0] == '/' {
        name
    } else if dir.len() == 0 || dir.last() == '/' {
        dir + name
    } else {
        dir + seq!['/'] + name
    }
}

/// Join a file name onto a directory path.
pub fn join_path(dir: &str, name: &str) -> (r: String)
    ensures
        r@ == joined_path(dir@, name@),
{
    let d = crate::text::chars_of(dir);
    let n = crate::text::chars_of(name);
    let mut out: Vec<char> = Vec::new();
    if n.len() > 0 && n[0] == '/' {
        crate::text::push_chars(&mut out, n.as_slice());
    } else {
        crate::text::push_chars(&mut out, d.as_slice());
        if d.len() > 0 && d[d.len() - 1] != '/' {
            out.push('/');
        }
        crate::text::push_chars(&mut out, n.as_slice());
    }
    assert(out@ =~= joined_path(dir@, name@));
    crate::text::string_from_chars(out.as_slice())
}

/// Returns the path to the user config file inside the configuration
/// directory: `<config_dir>/config.toml`.
pub fn config_path(config_dir: &str) -> (r: String)
    ensures
        r@ == joined_path(config_dir@, "config.toml"@),
{
    join_path(config_dir, "config.toml")
}

/// Returns the path to the database file inside the data directory:
/// `<data_dir>/clipboard.db`.
pub fn db_file_path(data_dir: &str) -> (r: String)
    ensures
        r@ == joined_path(data_dir@, "clipboard.db"@),
{
    join_path(data_dir, "clipboard.db")
}


/// A joined path ends with the joined name, and a relative name keeps the
/// directory in front of it.
pub proof fn lemma_joined_path_shape(dir: Seq<char>, name: Seq<char>)
    ensures
        joined_path(dir, name).len() >= name.len(),
        joined_path(dir, name).skip(joined_path(dir, name).len() - name.len()) == name,
        !(name.len() > 0 && name[0] == '/') ==> joined_path(dir, name).take(dir.len() as int)
            == dir,
{
    let j = joined_path(dir, name);
    assert(j.skip(j.len() - name.len()) =~= name);
    if !(name.len() > 0 && name[0] == '/') {
        assert(j.take(dir.len() as int) =~= dir);
    }
}

} // verus!
