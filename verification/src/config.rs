pub mod atomic;
pub mod store;
