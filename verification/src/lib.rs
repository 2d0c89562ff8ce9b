//! Typed client core for the Betfair SportsAPING JSON-RPC service.
//!
//! The heart of the crate is the session lifecycle layer: a shared
//! session-token cache with certificate login, transparent re-login when the
//! token expires mid-request, and a background keep-alive loop.  All of the
//! decision logic is verified; the network transport is driven from outside
//! through explicit action/event state machines.

pub mod api_types;
pub mod credentials;
pub mod errors;
pub mod json_rpc;
pub mod keepalive;
pub mod model;
pub mod session;

pub use crate::credentials::BFCredentials;
pub use crate::errors::Error;
pub use crate::errors::errorCode;
pub use crate::keepalive::KeepAliveError;
