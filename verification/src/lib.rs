//! Verified core of the node-link subsystem: the mutual-authentication
//! signature protocol, the wire envelope codec, the per-node link supervisor
//! state machine, and the connection registry.

pub mod agent;
pub mod auth;
pub mod envelope;
pub mod hexfmt;
pub mod link;
pub mod permissions;
pub mod registry;
pub mod sign;
pub mod templates;
