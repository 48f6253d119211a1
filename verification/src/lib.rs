//! Verified core of a downloader for weekly course files.
pub mod config;
pub mod download;
pub mod links;
pub mod login;
pub mod mel;
pub mod numeral;
pub mod pattern;
pub mod signin;
