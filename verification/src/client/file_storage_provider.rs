//! Destination of a streamed download: a place on the local file system.

use vstd::prelude::*;

verus! {

/// Names the local file a streamed download is written to. The byte-level
/// streaming itself is the caller's business.
#[derive(Debug, Clone)]
pub struct FileStorageProvider(pub String);

impl FileStorageProvider {
    pub fn new(path: String) -> (r: FileStorageProvider)
        ensures
            r.0 == path,
    {
        FileStorageProvider(path)
    }
}

} // verus!
