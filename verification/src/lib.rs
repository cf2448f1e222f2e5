//! Stream-lifecycle engine: per-channel watcher state machine, upstream
//! client policy (queries, retry schedule, category cache), dispatcher
//! planning and the layout of the persistence store.

pub mod cache;
pub mod client;
pub mod commands;
pub mod config;
pub mod database;
pub mod dispatcher;
pub mod episode;
pub mod keys;
pub mod error;
pub mod model;
pub mod notify;
pub mod oauth;
pub mod pattern;
pub mod text;
pub mod util;
pub mod watcher;
pub mod webhook;
