pub mod health;
pub mod http;
pub mod invidious;
pub mod piped;
pub mod providers;
pub mod ytdlp;
