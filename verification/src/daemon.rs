pub mod client;
pub mod rounds;
pub mod server;
