//! A fixed-window request rate limiter backed by a shared counter store.
//!
//! Each caller identity gets one counter per UTC day, kept in an external
//! key-value store whose atomic increment is the single source of truth across
//! all processes. The engine derives the current window, increments the
//! counter, arms a one-shot expiry on the window's first increment, and
//! reports whether the request may proceed together with the remaining quota
//! and the time until the window resets.

pub mod clock;
pub mod digits;
pub mod key;
pub mod laws;
pub mod limiter;
pub mod memory;
pub mod redis_store;
pub mod status;
pub mod store;
pub mod window;
