//! Decision logic of the NPPS4 download API server.

pub mod catalog;
pub mod config;
pub mod handlers;
pub mod headers;
pub mod laws;
pub mod layout;
pub mod models;
pub mod paths;
pub mod reply;
pub mod server;
pub mod text;
pub mod urls;
