//! The Steam addon: what it reads from the Steam services and from the local
//! installation, and how it turns that into scanned games and metadata.
pub mod library;
pub mod manifest;
pub mod models;
pub mod store;
pub mod transfer;
