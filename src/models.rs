//! Records of notes, tags and attachments, and the requests that create or
//! change them. Times are RFC 3339 text.
use vstd::prelude::*;

verus! {

/// The header of a note file.
#[derive(Debug, Clone)]
pub struct NoteMetadata {
    pub id: String,
    pub title: String,
    pub tags: Vec<String>,
    pub attachments: Vec<String>,
    pub created: String,
    pub modified: String,
    pub favorite: bool,
    pub deleted: bool,
}

/// A request to create a note.
#[derive(Debug, Clone)]
pub struct CreateNoteRequest {
    pub title: String,
    pub content: Option<String>,
    pub tags: Option<Vec<String>>,
}

/// A request to change a note; absent fields stay as they are.
#[derive(Debug, Clone)]
pub struct UpdateNoteRequest {
    pub id: String,
    pub title: Option<String>,
    pub content: Option<String>,
    pub is_favorite: Option<bool>,
    pub tags: Option<Vec<String>>,
}

/// A request to save a note's title and text.
#[derive(Debug, Clone)]
pub struct SaveNoteRequest {
    pub id: String,
    pub title: String,
    pub content: String,
}

/// A search over notes, optionally within one tag.
#[derive(Debug, Clone)]
pub struct SearchRequest {
    pub query: String,
    pub tag_filter: Option<String>,
}

/// A file attached to notes.
#[derive(Debug, Clone)]
pub struct Attachment {
    pub id: String,
    pub file_name: String,
    pub file_path: String,
    pub file_size: i64,
    pub mime_type: Option<String>,
    pub created_at: String,
    pub reference_count: i32,
}

/// A request to attach a file.
#[derive(Debug, Clone)]
pub struct CreateAttachmentRequest {
    pub file_name: String,
    pub file_path: String,
    pub file_size: i64,
    pub mime_type: Option<String>,
}

/// A note as the database stores it.
#[derive(Debug, Clone)]
pub struct NoteRecord {
    pub id: String,
    pub title: String,
    pub file_path: String,
    pub created_at: String,
    pub modified_at: String,
    pub is_favorite: bool,
    pub is_deleted: bool,
}

/// A tag as the database stores it.
#[derive(Debug, Clone)]
pub struct TagRecord {
    pub id: String,
    pub name: String,
    pub created_at: String,
    pub note_count: usize,
}

/// An attachment as the database stores it.
#[derive(Debug, Clone)]
pub struct AttachmentRecord {
    pub id: String,
    pub file_name: String,
    pub file_path: String,
    pub file_size: i64,
    pub mime_type: Option<String>,
    pub reference_count: i32,
    pub created_at: String,
}

} // verus!
