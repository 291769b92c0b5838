//! What is placed on the clipboard when an entry is pasted back.

use vstd::prelude::*;

use crate::types::ContentType;

verus! {

/// The clipboard contents to offer for a pasted entry.
#[derive(Debug, Clone)]
pub enum PasteRequest {
    /// Text, offered as plain text.
    Text(String),
    /// Raw bytes, offered under the entry's MIME type.
    Bytes { data: Vec<u8>, mime_type: String },
}

/// Why an entry cannot be pasted.
#[derive(Debug, Clone, Copy, PartialEq, Eq, Structural)]
pub enum PasteError {
    /// A text entry without text content.
    MissingText,
    /// An image entry without blob content.
    MissingBlob,
}

impl PasteError {
    /// The message reported for the error.
    pub fn message(&self) -> (r: &'static str)
        ensures
            r@ == (match self {
                PasteError::MissingText => "Text entry missing text_content"@,
                PasteError::MissingBlob => "Image entry missing blob_content"@,
            }),
    {
        match self {
            PasteError::MissingText => "Text entry missing text_content",
            PasteError::MissingBlob => "Image entry missing blob_content",
        }
    }
}

/// Decide what to copy back to the clipboard for an entry: a text entry
/// offers its text, an image entry its bytes under its own MIME type.
pub fn paste_request(
    content_type: ContentType,
    mime_type: &str,
    text_content: Option<&str>,
    blob_content: Option<&[u8]>,
) -> (r: Result<PasteRequest, PasteError>)
    ensures
        match content_type {
            ContentType::Text => match text_content {
                Some(t) => r matches Ok(PasteRequest::Text(s)) && s@ == t@,
                None => r == Err::<PasteRequest, PasteError>(PasteError::MissingText),
            },
            ContentType::Image => match blob_content {
                Some(b) => r matches Ok(PasteRequest::Bytes { data, mime_type: m }) && data@ == b@
                    && m@ == mime_type@,
                None => r == Err::<PasteRequest, PasteError>(PasteError::MissingBlob),
            },
        },
{
    match content_type {
        ContentType::Text => match text_content {
            Some(t) => Ok(PasteRequest::Text(String::from_str(t))),
            None => Err(PasteError::MissingText),
        },
        ContentType::Image => match blob_content {
            Some(b) => Ok(
                PasteRequest::Bytes {
                    data: vstd::slice::slice_to_vec(b),
                    mime_type: String::from_str(mime_type),
                },
            ),
            None => Err(PasteError::MissingBlob),
        },
    }
}

} // verus!
