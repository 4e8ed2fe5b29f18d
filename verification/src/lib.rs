//! Passwordless authentication strategies: single-use magic links and
//! passkey ceremonies, layered over pluggable storage capabilities.
//!
//! A strategy holds no state of its own. Everything it knows lives behind a
//! capability: a session backend, a mailer, a ceremony engine. Each
//! capability describes itself by a mathematical model, and each operation
//! of a strategy states how it moves those models.
//!
//! - [`time`]: instants, durations, and the one place where the clock is
//!   read.
//! - [`lifecycle`]: the life of a token, issued, verified, consumed or
//!   expired, and the laws that hold of it.
//! - [`ceremony`]: the state between the start and the finish of a
//!   ceremony, by user.
//! - [`session`]: the session capability that the strategies share.
//! - [`strategy`]: the magic-link strategy and the passkey strategy.
//! - [`engine`]: the ceremony engine.
//! - [`memory`]: a backend and an outbox that keep everything in memory.
//! - [`store`]: the keys and commands of a backend over a key-value store
//!   whose entries expire.
//! - [`keyed`]: vectors of keys and values, read as maps.

pub mod ceremony;
pub mod engine;
pub mod keyed;
pub mod lifecycle;
pub mod memory;
pub mod session;
pub mod store;
pub mod strategy;
pub mod time;
