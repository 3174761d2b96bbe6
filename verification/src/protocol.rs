pub mod command;
pub mod parse;
pub mod serialize;
