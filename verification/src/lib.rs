//! A durable execution core: an invocation journal with deterministic replay,
//! per-key exclusive state for virtual objects, durable promises and durable
//! timers, with the handlers that run on top of it written as decision
//! functions over the history of their completed operations.

pub mod value;
pub mod target;
pub mod entry;
pub mod error;
pub mod action;
pub mod runner;
pub mod saga;
pub mod script;
pub mod handlers;
pub mod text;
pub mod clients;
pub mod stubs;
pub mod promises;
pub mod timers;
pub mod table;
pub mod locks;
pub mod state;
pub mod record;
pub mod wal;
pub mod journal;
pub mod engine;
pub mod providers;
pub mod notify;
pub mod server;
pub mod codec;
