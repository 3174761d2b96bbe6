pub mod art;
pub mod source;
pub mod control;
