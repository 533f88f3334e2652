pub mod cache;
pub mod downloader;
pub mod fetch;
