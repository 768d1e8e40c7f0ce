//! Core of a learning-quest platform.
//!
//! Users sign up, browse quests, fetch per-user generated quest input, submit
//! answers and view progress. The crate holds the verified heart of that
//! system: domain identifiers and usernames, domain events with their routing
//! subjects and wire codec, the deterministic content-generation protocol with
//! its per-key cache, progression tracking, the event-deriving decorator, and
//! the projection steps that fold event streams into derived state. The
//! surrounding processes (HTTP routing, brokers, databases, subprocess
//! spawning) feed these functions plain values and perform the effects they
//! decide.

pub mod auth;
pub mod backend;
pub mod cache;
pub mod codec;
pub mod context;
pub mod emitter;
pub mod error;
pub mod event;
pub mod eventbus;
pub mod fmtnum;
pub mod ids;
pub mod progression;
pub mod projection;
pub mod quest;
pub mod questgen;
pub mod statistics;
pub mod username;
pub mod users;
