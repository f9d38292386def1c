//! Verified core of the Kromer currency server: the session and token
//! registries, the WebSocket hub with its broadcast filter, the ledger
//! primitive, and the subscription scheduler's decisions.
//!
//! Everything here works on plain values. Sockets, the relational store,
//! timers and the HTTP surface live with the binary that embeds this crate.

pub mod auth;
pub mod clock;
pub mod cron;
pub mod database;
pub mod errors;
pub mod ids;
pub mod models;
pub mod outside;
pub mod routes;
pub mod seqs;
pub mod subs;
pub mod text;
pub mod utils;
pub mod websockets;
