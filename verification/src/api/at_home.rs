//! The server-assignment response: which host serves a chapter's pages.

use vstd::prelude::*;

verus! {

/// A chapter's files on its assigned server: the path hash and the page
/// file names, in page order.
#[derive(Debug, Clone)]
pub struct ChapterFileList {
    pub hash: String,
    pub data: Vec<String>,
}

/// Which server hosts a chapter's pages.
#[derive(Debug, Clone)]
pub struct ServerInfoResponse {
    pub base_url: String,
    pub chapter: ChapterFileList,
}

} // verus!
