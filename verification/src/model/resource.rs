//! The contents of a resource.
use vstd::prelude::*;

verus! {

/// What a resource holds: text, or binary data encoded in base64.
#[derive(Debug, Clone, PartialEq)]
pub enum ResourceContents {
    TextResourceContents { uri: String, mime_type: Option<String>, text: String },
    BlobResourceContents { uri: String, mime_type: Option<String>, blob: String },
}

} // verus!
