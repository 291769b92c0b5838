//! Domain types shared between the capturing daemon and the picker.

use vstd::prelude::*;

use crate::text::str_equal;

verus! {

/// The type of content stored in a clipboard entry.
#[derive(Debug, Clone, Copy, PartialEq, Eq, Structural)]
pub enum ContentType {
    Text,
    Image,
}

/// The name under which a content type is stored.
pub open spec fn content_type_name(t: ContentType) -> Seq<char> {
    match t {
        ContentType::Text => seq!['t', 'e', 'x', 't'],
        ContentType::Image => seq!['i', 'm', 'a', 'g', 'e'],
    }
}

/// The content type stored under a name, if any.
pub open spec fn content_type_named(s: Seq<char>) -> Option<ContentType> {
    if s == content_type_name(ContentType::Text) {
        Some(ContentType::Text)
    } else if s == content_type_name(ContentType::Image) {
        Some(ContentType::Image)
    } else {
        None
    }
}

impl ContentType {
    /// Convert to the string stored in the database.
    pub fn as_str(&self) -> (r: &'static str)
        ensures
            r@ == content_type_name(*self),
    {
        match self {
            ContentType::Text => {
                let s = "text";
                proof {
                    reveal_strlit("text");
                }
                assert(s@ =~= content_type_name(ContentType::Text));
                s
            },
            ContentType::Image => {
                let s = "image";
                proof {
                    reveal_strlit("image");
                }
                assert(s@ =~= content_type_name(ContentType::Image));
                s
            },
        }
    }

    /// Parse from the string stored in the database.
    pub fn from_str(s: &str) -> (r: Option<Self>)
        ensures
            r == content_type_named(s@),
    {
        let t = ContentType::Text.as_str();
        let i = ContentType::Image.as_str();
        if str_equal(s, t) {
            Some(ContentType::Text)
        } else if str_equal(s, i) {
            Some(ContentType::Image)
        } else {
            None
        }
    }
}

/// A clipboard entry as stored in the database and displayed in the UI.
///
/// Text entries populate `text_content`; image entries populate
/// `blob_content`. Both always have `preview`, a short summary.
#[derive(Debug, Clone)]
pub struct ClipboardEntry {
    /// Auto-incremented row ID.
    pub id: i64,
    /// BLAKE3 hex digest of the content bytes, used for deduplication.
    pub content_hash: String,
    /// Whether this is a text or image entry.
    pub content_type: ContentType,
    /// MIME type string, e.g. "text/plain", "image/png".
    pub mime_type: String,
    /// Full text content (only for text entries).
    pub text_content: Option<String>,
    /// Raw image bytes (only for image entries).
    pub blob_content: Option<Vec<u8>>,
    /// Short preview string.
    pub preview: String,
    /// Content size in bytes.
    pub byte_size: usize,
    /// Whether the entry is pinned (immune to eviction).
    pub pinned: bool,
    /// Unix epoch milliseconds when the entry was first captured.
    pub created_at: i64,
}

/// A lightweight version of `ClipboardEntry` used for list rendering; it
/// does not carry the blob content.
#[derive(Debug, Clone)]
pub struct EntryPreview {
    pub id: i64,
    pub content_type: ContentType,
    pub mime_type: String,
    pub preview: String,
    pub byte_size: usize,
    pub pinned: bool,
    pub created_at: i64,
}

/// Data needed to insert a new clipboard capture into the database.
#[derive(Debug, Clone)]
pub struct NewEntry {
    /// BLAKE3 hex digest.
    pub content_hash: String,
    /// Text or image.
    pub content_type: ContentType,
    /// MIME type string.
    pub mime_type: String,
    /// Full text content (text entries only).
    pub text_content: Option<String>,
    /// Raw bytes (image entries only).
    pub blob_content: Option<Vec<u8>>,
    /// Human-readable preview.
    pub preview: String,
    /// Size of the content in bytes.
    pub byte_size: usize,
}

/// The content type stored under a column value; unknown names read as text.
pub open spec fn stored_content_type(s: Seq<char>) -> ContentType {
    match content_type_named(s) {
        Some(t) => t,
        None => ContentType::Text,
    }
}

/// The size column holds an `i64`; it reads back with Rust's `as usize`
/// conversion.
pub open spec fn stored_byte_size(v: i64) -> usize {
    v as usize
}

impl EntryPreview {
    /// Builds a preview from the columns of a stored row.
    pub fn from_row(
        id: i64,
        content_type: &str,
        mime_type: String,
        preview: String,
        byte_size: i64,
        pinned: bool,
        created_at: i64,
    ) -> (r: EntryPreview)
        ensures
            r.id == id,
            r.content_type == stored_content_type(content_type@),
            r.mime_type == mime_type,
            r.preview == preview,
            r.byte_size == stored_byte_size(byte_size),
            r.pinned == pinned,
            r.created_at == created_at,
    {
        EntryPreview {
            id,
            content_type: column_content_type(content_type),
            mime_type,
            preview,
            byte_size: column_byte_size(byte_size),
            pinned,
            created_at,
        }
    }
}

impl ClipboardEntry {
    /// Builds a full entry from the columns of a stored row.
    pub fn from_row(
        id: i64,
        content_hash: String,
        content_type: &str,
        mime_type: String,
        text_content: Option<String>,
        blob_content: Option<Vec<u8>>,
        preview: String,
        byte_size: i64,
        pinned: bool,
        created_at: i64,
    ) -> (r: ClipboardEntry)
        ensures
            r.id == id,
            r.content_hash == content_hash,
            r.content_type == stored_content_type(content_type@),
            r.mime_type == mime_type,
            r.text_content == text_content,
            r.blob_content == blob_content,
            r.preview == preview,
            r.byte_size == stored_byte_size(byte_size),
            r.pinned == pinned,
            r.created_at == created_at,
    {
        ClipboardEntry {
            id,
            content_hash,
            content_type: column_content_type(content_type),
            mime_type,
            text_content,
            blob_content,
            preview,
            byte_size: column_byte_size(byte_size),
            pinned,
            created_at,
        }
    }
}

impl NewEntry {
    /// The size as the `i64` that the size column stores (`as i64`).
    pub fn stored_size(&self) -> (r: i64)
        ensures
            r == self.byte_size as i64,
    {
        self.byte_size as i64
    }
}

fn column_content_type(s: &str) -> (r: ContentType)
    ensures
        r == stored_content_type(s@),
{
    match ContentType::from_str(s) {
        Some(t) => t,
        None => ContentType::Text,
    }
}

fn column_byte_size(v: i64) -> (r: usize)
    ensures
        r == stored_byte_size(v),
{
    v as usize
}

/// Storing a content type under its name and parsing the name back gives
/// the same content type, and no other name parses to it.
pub proof fn lemma_content_type_name_round_trip(t: ContentType, s: Seq<char>)
    ensures
        content_type_named(content_type_name(t)) == Some(t),
        content_type_named(s) == Some(t) ==> s == content_type_name(t),
{
    assert(content_type_name(ContentType::Text) != content_type_name(ContentType::Image)) by {
        assert(content_type_name(ContentType::Text).len() != content_type_name(
            ContentType::Image,
        ).len());
    }
}

} // verus!
