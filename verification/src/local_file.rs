//! A file on the local file system and the name it should carry when
//! uploaded.

use vstd::prelude::*;

verus! {

/// A local file selected for upload: `path` locates it on disk, `name` is the
/// file name the platform should record.
#[derive(Debug, Clone)]
pub struct NamedLocalFile {
    pub name: String,
    pub path: String,
}

} // verus!
