//! A remote file as the platform lists it.

use vstd::prelude::*;

use crate::datetime::DateTime;

verus! {

/// A file hosted on the platform: its display name, an optional description,
/// the upload date when the listing shows one, the platform's id for it, and
/// the query path it can be downloaded from.
#[derive(Debug, Clone)]
pub struct File {
    pub name: String,
    pub description: String,
    pub date: Option<DateTime>,
    pub id: Option<String>,
    pub download_querypath: Option<String>,
}

} // verus!
