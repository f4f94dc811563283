pub mod app;
pub mod cli;
pub mod commands;
pub mod config;
pub mod daemon;
pub mod error;
pub mod model;
pub mod platform;
pub mod process;
pub mod session;
pub mod setup;
pub mod sync;
pub mod text;
pub mod tooling;

pub use error::Error;
