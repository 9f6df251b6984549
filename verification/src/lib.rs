pub mod api;
pub mod config;
pub mod db;
pub mod download;
pub mod models;
pub mod player;
pub mod text;
pub mod ui;
pub mod utils;
