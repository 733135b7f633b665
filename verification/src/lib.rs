//! A client library for a task service that hands out its collections page
//! by page.
//!
//! [`reader::CollectionReader`] turns the pages of one collection into a single
//! sequence of items. It performs no retrieval itself: it names the address
//! of the page it needs and takes the outcome of retrieving it, so that it
//! works with any transport. [`api`] holds the documents of the service, and
//! the rules by which a document is told to be a value, a failure report or
//! a page. [`lemmas`] states what holds of the reader over any run of pages.

use vstd::prelude::*;
use vstd::string::StringExecFns;

pub mod api;
pub mod error;
pub mod lemmas;
pub mod reader;

verus! {

/// Root of every resource address of the remote service.
pub const GRAPH_BASE_URI: &'static str = "https://graph.microsoft.com/beta";

/// The absolute address of the resource at `path`: the service root followed
/// by `path`, unchanged.
pub fn graph_url(path: &str) -> (url: String)
    ensures
        url@ == GRAPH_BASE_URI@ + path@,
{
    String::from_str(GRAPH_BASE_URI).concat(path)
}

} // verus!
