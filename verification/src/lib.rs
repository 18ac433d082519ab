//! Event dispatch engine for GitHub webhook deliveries.
//!
//! A raw delivery (headers plus raw body bytes) is authenticated against a
//! shared secret (HMAC-SHA-256), classified by its event-type header,
//! decoded into a typed event value, and handed to a consumer-supplied
//! handler, whose returned command describes the follow-up action.

pub mod classify;
pub mod codec;
pub mod commands;
pub mod dispatch;
pub mod events;
pub mod json;
pub mod sig;
