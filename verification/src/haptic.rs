pub mod detent;
pub mod profile;
