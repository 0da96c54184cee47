pub mod command;
pub mod message;
