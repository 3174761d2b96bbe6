pub mod constants;
pub mod error;
pub mod partitions;
pub mod validate;
pub mod media;
pub mod hwtest;
pub mod connection;
pub mod cli;
pub mod restore;
