pub mod client;
pub mod client_flow;
pub mod common;
pub mod persist;
pub mod server;
pub mod server_flow;
