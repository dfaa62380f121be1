//! A request-admission and quota-enforcement filter for a reverse proxy.
//!
//! The library decides, for each inbound request, whether to forward it
//! upstream, reject it, or defer the decision pending an asynchronous
//! authorization call; it enforces a per-route call quota backed by a
//! shared cache that a periodic scheduler reconciles with a management
//! service. All decision logic is verified; the host's I/O (header events,
//! tick events, shared-store access, HTTP dispatch) stays outside.

pub mod admission;
pub mod backend;
pub mod codec;
pub mod config;
pub mod json;
pub mod records;
pub mod request;
pub mod scheduler;
