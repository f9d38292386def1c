pub mod auth;
pub mod contracts;
pub mod wallet;
pub mod ws;
