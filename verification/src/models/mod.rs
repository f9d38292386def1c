pub mod krist;
pub mod kromer;
