//! Verified core of an interactive backup downloader for a hosting panel.
//!
//! The library holds the two stateful pieces of the client — the
//! keyboard-driven list selector and the download progress session — together
//! with the pure string computations (endpoint URLs, display labels, file
//! names) that the surrounding I/O shell hands plain values to.

pub mod api;
pub mod download;
pub mod errors;
pub mod selector;
