//! A game-library aggregator core: the addon host, the metadata fetch engine
//! and the catalog synchronisation, with their contracts.
pub mod actions;
pub mod catalog;
pub mod fetch;
pub mod host;
pub mod ledger;
pub mod models;
pub mod plan;
pub mod plugin;
pub mod script;
pub mod steam;
pub mod sync;
pub mod table;
pub mod text;
pub mod time;
pub mod ui;
