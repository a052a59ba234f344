//! Builds the launch manifest of a game client: which library files a client
//! needs, on which platforms, and how they are fetched.

pub mod archive;
pub mod download;
pub mod error;
pub mod fabric;
pub mod fetch;
pub mod forge;
pub mod forgeinstaller;
pub mod installer;
pub mod java;
pub mod manifest;
pub mod maven;
pub mod merge;
pub mod mojang;
pub mod neoforge;
pub mod platform;
pub mod text;
pub mod types;
pub mod utils;
