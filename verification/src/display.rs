//! What the picker shows for each entry, and where its window goes.

use vstd::prelude::*;

use crate::preview::{lines, split_lines};
use crate::text::{chars_of, string_from_chars};
use crate::types::ContentType;

verus! {

/// Marker in front of the highlighted row, blank for the others.
pub fn selection_indicator(is_selected: bool) -> (r: &'static str)
    ensures
        r@ == (if is_selected {
            "▸ "@
        } else {
            "  "@
        }),
{
    if is_selected {
        "▸ "
    } else {
        "  "
    }
}

/// The first line of a preview as shown in its row, or `(empty)` for a
/// preview without lines.
pub open spec fn first_line_shown(preview: Seq<char>) -> Seq<char> {
    if lines(preview).len() > 0 {
        lines(preview)[0]
    } else {
        "(empty)"@
    }
}

/// The line of a preview that its row shows.
pub fn first_preview_line(preview: &str) -> (r: String)
    ensures
        r@ == first_line_shown(preview@),
{
    let cs = chars_of(preview);
    let ls = split_lines(cs.as_slice());
    if ls.len() > 0 {
        string_from_chars(ls[0].as_slice())
    } else {
        String::from_str("(empty)")
    }
}

/// Short type badge of a row.
pub fn type_badge(content_type: ContentType) -> (r: &'static str)
    ensures
        r@ == (match content_type {
            ContentType::Text => "txt"@,
            ContentType::Image => "img"@,
        }),
{
    match content_type {
        ContentType::Text => "txt",
        ContentType::Image => "img",
    }
}

/// Pin marker of a row.
pub fn pin_marker(pinned: bool) -> (r: &'static str)
    ensures
        r@ == (if pinned {
            " 📌"@
        } else {
            ""@
        }),
{
    if pinned {
        " 📌"
    } else {
        ""
    }
}

/// The unit a byte size is shown in.
#[derive(Debug, Clone, Copy, PartialEq, Eq, Structural)]
pub enum SizeUnit {
    Bytes,
    Kilobytes,
    Megabytes,
}

/// Sizes from 1 MiB are shown in MB, from 1 KiB in KB, smaller ones in bytes.
pub open spec fn size_unit_of(bytes: nat) -> SizeUnit {
    if bytes >= 1024 * 1024 {
        SizeUnit::Megabytes
    } else if bytes >= 1024 {
        SizeUnit::Kilobytes
    } else {
        SizeUnit::Bytes
    }
}

/// Choose the unit for a human-readable byte size.
pub fn size_unit(bytes: usize) -> (r: SizeUnit)
    ensures
        r == size_unit_of(bytes as nat),
{
    if bytes >= 1024 * 1024 {
        SizeUnit::Megabytes
    } else if bytes >= 1024 {
        SizeUnit::Kilobytes
    } else {
        SizeUnit::Bytes
    }
}

/// Margin that centres a window of `size` on a screen of `screen`: half
/// the free space, or 0 when the window does not fit.
pub open spec fn centered_margin(screen: int, size: int) -> int {
    if screen - size <= 0 {
        0
    } else {
        (screen - size) / 2
    }
}

/// A window that fits is centred: the space left over on the two sides
/// differs by at most one; a window that does not fit sits at the edge.
pub proof fn lemma_centered_margin(screen: int, size: int)
    ensures
        screen > size ==> {
            let m = centered_margin(screen, size);
            &&& 0 <= m
            &&& (screen - size - m) - m == 0 || (screen - size - m) - m == 1
        },
        screen <= size ==> centered_margin(screen, size) == 0,
{
}

/// The size as the `i32` it is used as (`as i32`).
pub open spec fn signed_size(size: u32) -> int {
    (size as i32) as int
}

/// Top and left margins that centre a `width`×`height` window on a screen
/// of `screen_width`×`screen_height`.
pub fn centered_margins(screen_width: i32, screen_height: i32, width: u32, height: u32) -> (r: (
    i32,
    i32,
))
    requires
        i32::MIN <= screen_height - signed_size(height) <= i32::MAX,
        i32::MIN <= screen_width - signed_size(width) <= i32::MAX,
    ensures
        r.0 == centered_margin(screen_height as int, signed_size(height)),
        r.1 == centered_margin(screen_width as int, signed_size(width)),
        r.0 >= 0,
        r.1 >= 0,
{
    let free_h = screen_height - height as i32;
    let free_w = screen_width - width as i32;
    let top = if free_h <= 0 {
        0
    } else {
        free_h / 2
    };
    let left = if free_w <= 0 {
        0
    } else {
        free_w / 2
    };
    (top, left)
}

} // verus!
