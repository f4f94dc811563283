pub mod attach;
pub mod doctor;
pub mod session;
pub mod setup;
pub mod sync;
