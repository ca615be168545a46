pub mod common;
pub mod messages;
