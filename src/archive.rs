use vstd::prelude::*;

verus! {

/// A stored file: its bytes, its MIME type and a digest of its content.
#[derive(Clone, Debug, PartialEq, Eq)]
pub struct ArchivedFile {
    pub content: Vec<u8>,
    pub content_type: String,
    pub content_hash: String,
}

} // verus!
