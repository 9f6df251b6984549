pub mod playlist;
pub mod search_result;
pub mod video;
