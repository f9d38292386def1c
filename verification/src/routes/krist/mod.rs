pub mod lookup;
pub mod misc;
pub mod ws;
