//! A file as an answer.

use vstd::prelude::*;

verus! {

/// A file that is given out as it is, under its media type.
#[derive(Debug)]
pub struct FileResponse {
    pub content_type: String,
    pub file: Vec<u8>,
}

} // verus!
