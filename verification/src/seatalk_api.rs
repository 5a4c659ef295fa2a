//! The client-side protocol layer: typed endpoints, envelope classification,
//! token lifecycle, call spacing and inbound webhook events.

pub mod api;
pub mod auth;
pub mod endpoint;
pub mod envelope;
pub mod limiter;
pub mod query;
pub mod webhooks;

pub use self::endpoint::ignore;
