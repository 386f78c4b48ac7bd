//! Configuration that is downloaded as a package, unpacked, and read by
//! nested keys.

pub mod client;
pub mod file_getter;
pub mod http_downloader;
pub mod yaml;
