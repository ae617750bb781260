//! Referral cashback watcher: detection of referred identity registrations,
//! confirmation gating and split payouts, stated and proved with Verus.

pub mod checker;
pub mod config;
pub mod constants;
pub mod database;
pub mod discord;
pub mod ids;
pub mod zmq;
