pub mod config;
pub mod state;
