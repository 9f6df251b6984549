use vstd::prelude::*;
use crate::models::video::Video;

verus! {

/// A named list of videos.
#[derive(Debug, Clone)]
pub struct Playlist {
    pub id: i64,
    pub name: String,
    pub videos: Vec<Video>,
}

/// One video's place in a playlist.
#[derive(Debug, Clone)]
pub struct PlaylistVideo {
    pub playlist_id: i64,
    pub video_id: String,
    pub position: i32,
}

} // verus!
