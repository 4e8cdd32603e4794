//! Eloran: a comics and ebook web library.
//!
//! The library holds the verified logic of the server: the configuration,
//! the HTML pages, the sorting of listings, the SQL text and the
//! bookkeeping of bookmarks and read status, the scanner's decisions, the
//! request handlers' decisions, passwords and images. The program around
//! it (HTTP, database, file system) lives in `app/`.

pub mod conf;
pub mod text;
pub mod model;
pub mod html;
pub mod pages;
pub mod dates;
pub mod sort;
pub mod storage;
pub mod scan;
pub mod auth;
pub mod images;
pub mod web;
pub mod laws;
