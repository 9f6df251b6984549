pub mod actions;
pub mod app;
pub mod components;
pub mod events;
pub mod keys;
pub mod mouse;
pub mod navigation;
pub mod playback;
pub mod settings;
