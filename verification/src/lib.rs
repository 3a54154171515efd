//! A plugin pipeline core: third-party filter packages, each a small Lua
//! script with metadata, transform or suppress domain records. This crate
//! holds the loader's decision logic and the per-record execution engine;
//! file reading and directory walking are left to the embedding application,
//! which drives the loader through its action/event interface.

pub mod config_text;
pub mod engine;
pub mod errors;
pub mod loader;
pub mod meta;
pub mod record;
pub mod script_host;
