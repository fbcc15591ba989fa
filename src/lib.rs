//! Connection admission, authentication chaining and session lifecycle of a
//! point-to-point IP tunnel carried over a peer-to-peer transport.

pub mod admission;
pub mod alpn;
pub mod auth;
pub mod config;
pub mod framing;
pub mod lifecycle;
pub mod scope;
pub mod server;

pub use admission::{AcceptError, ApplicationProtocol, PeerPolicy};
pub use alpn::{compose_alpn, ALPN_PREFIX};
pub use auth::{Auth, AuthStrategy, NoAuth};
pub use server::{Server, ServerBuilder};
