//! Notification dispatch to webhook-based messaging services: deduplication,
//! quiet hours, per-event routing, and rendering of one logical message into
//! each destination's JSON payload.
pub mod json;
pub mod notifiers;
pub mod config;
pub mod quiet;
pub mod dedup;
pub mod dispatch;
mod clock;
