//! Core of a command-line client for a paste-hosting server.
//!
//! The library builds upload request descriptions, classifies server
//! responses, resolves endpoint URLs and renders file listings; the
//! surrounding binary performs the actual network and file I/O.

pub mod config;
pub mod error;
pub mod listing;
pub mod response;
pub mod text;
pub mod upload;
pub mod urls;
