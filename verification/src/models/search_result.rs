use vstd::prelude::*;
use crate::models::video::Video;

verus! {

/// One page of search results and the token of the page after it.
#[derive(Debug, Clone)]
pub struct SearchResult {
    pub videos: Vec<Video>,
    pub next_page_token: Option<String>,
}

} // verus!
