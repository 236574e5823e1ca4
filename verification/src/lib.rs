//! A single-route redirector: one configured path is answered with a permanent
//! redirect to a configured target, every other path with a fixed "not found"
//! response.
//!
//! The crate holds the routing and response logic only. A transport layer
//! hands it the path and peer address of each request and serialises the
//! response it gets back.

pub mod config;
pub mod path;
pub mod request;
pub mod response;
pub mod router;

pub use config::{ConfigError, RouteConfig, DEFAULT_PORT};
pub use request::{IncomingRequest, SocketAddress};
pub use response::{handler_404, redirect, Header, OutgoingResponse};
pub use router::{Action, Dispatch, LogEvent, LogLevel, Router};
