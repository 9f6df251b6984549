use vstd::prelude::*;

verus! {

/// A video as the catalogue describes it.
#[derive(Debug, Clone)]
pub struct Video {
    pub id: String,
    pub title: String,
    pub channel: Option<String>,
    pub duration: Option<String>,
    pub thumbnail: Option<String>,
    pub description: Option<String>,
    pub views: Option<i64>,
    pub upload_date: Option<String>,
}

} // verus!
