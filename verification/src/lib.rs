//! Client-side core for a learning-management platform whose content graph is
//! reachable only through authenticated HTML pages.
//!
//! The crate models the platform's addressing scheme (query paths and numeric
//! ids), the lazy memoizing references that defer fetching a node until it is
//! first needed, the federated-login handshake as an explicit state machine,
//! and the parsing rules that turn scraped page data into content nodes.
//! Network transport is left to the caller: every function here either works
//! on plain values or consumes a document that the caller has already fetched.

use vstd::prelude::*;

pub mod addressing;
pub mod client;
pub mod datetime;
pub mod error;
pub mod exercise;
pub mod file;
pub mod folder;
pub mod local_file;
pub mod reference;
pub mod scrape;
pub mod text;

verus! {

/// Base origin of the remote platform; query paths are relative to it.
pub const ILIAS_URL: &'static str = "https://ilias.studium.kit.edu";

/// A content-node type that can be addressed directly by a numeric id.
///
/// Types without a discriminator (`type_identifier` returns `None`) are only
/// reachable through a parent node's reference and answer `None` for
/// `querypath_from_id` as well.
pub trait IliasElement: Sized {
    fn type_identifier() -> Option<&'static str>;

    fn querypath_from_id(id: &str) -> Option<String>;
}

/// Read and replace the path-plus-query component of an address.
pub trait Querypath {
    fn get_querypath(&self) -> String;

    fn set_querypath(&mut self, querypath: &str);
}

} // verus!
