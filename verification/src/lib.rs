pub mod message;
pub mod payload;
pub mod send;
pub mod version;
