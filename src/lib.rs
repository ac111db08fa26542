pub mod cli;
pub mod config;
pub mod error;
pub mod fossil;
pub mod patch;
pub mod store;
pub mod tui;
pub mod utils;
