pub mod binary;
pub mod checksum;
pub mod partition;
