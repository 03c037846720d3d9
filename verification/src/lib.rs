//! A verified core for a small HTTP relay: it proxies credential-based
//! authentication to an external auth service and forwards one message payload
//! to a chat platform's REST endpoint. Every route handler follows the same
//! shape: inspect the configuration and the request, either answer at once or
//! name the single outbound call to make, and turn the call's outcome into an
//! HTTP status plus a JSON body. All of that decision and rendering logic
//! lives here with contracts; the platform glue that performs the network
//! calls lives outside the library.

pub mod auth;
pub mod json;
pub mod model;
pub mod relay;
pub mod response;
pub mod router;
pub mod text;
