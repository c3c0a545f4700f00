//! Real-time event distribution for an uptime monitoring backend: the
//! per-owner session registry, the session protocol, the event router, probe
//! classification, status recording and alert dispatch.
pub mod text;
pub mod model;
pub mod message;
pub mod registry;
pub mod session;
pub mod store;
pub mod table;
pub mod probe;
pub mod handlers;
pub mod notify;
pub mod auth;
