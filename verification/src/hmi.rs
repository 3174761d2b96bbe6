pub mod button;
pub mod types;
