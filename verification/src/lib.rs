//! Verified core of a Spotify downloader: URI parsing, device identity for
//! Spotify Connect discovery, file-name validation, pagination and the
//! decisions behind the web API's replies.

pub mod text;
pub mod uri;
pub mod device;
pub mod service;
pub mod login;
pub mod filename;
pub mod paging;
pub mod web;
