//! Scoring, settings and connection logic of a Wwise activity monitor.

pub mod score_table;
mod uris;
pub mod topics;
pub mod settings;
pub mod state;
pub mod text;
pub mod config;
pub mod ports;
pub mod monitor;
