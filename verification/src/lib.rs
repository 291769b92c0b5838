//! Verified core of a clipboard-history system: entry types, previews,
//! content hashing and duplicate detection, clipboard offer selection,
//! configuration defaults and the picker's state machine.

pub mod text;
pub mod types;
pub mod preview;
pub mod dedup;
pub mod capture;
pub mod config;
pub mod picker;
pub mod display;
pub mod theme;
pub mod paste;
