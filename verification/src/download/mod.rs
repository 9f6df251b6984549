pub mod downloader;
