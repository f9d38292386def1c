pub mod addresses;
pub mod auth;
pub mod misc;
pub mod names;
pub mod webserver;
pub mod websockets;
