//! Routing and forwarding rules of a small reverse proxy.
//!
//! The proxy serves a health endpoint, answers preflight requests itself and
//! forwards everything else under `/api/{service}/` to the backend that the
//! service table names. This crate holds the decisions: which endpoint a
//! request belongs to, where it is forwarded, and which headers the answer
//! carries. It performs no I/O.
//!
//! A server calls `dispatch` with the method, path and query of a request.
//! It answers at once where it is told to; where it is told to forward, it
//! sends the request to the target, hands the outcome to `relay`, and answers
//! with what `relay` returns.

pub mod cors;
pub mod dispatch;
pub mod headers;
pub mod laws;
pub mod relay;
pub mod reply;
pub mod route;
pub mod table;
pub mod target;
pub mod text;
pub mod uri;

pub use dispatch::{dispatch, settle, Action};
pub use relay::{relay, Relayed, Upstream};
pub use reply::{Head, ProxyError};
