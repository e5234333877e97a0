//! Core building blocks for a composable, protocol-aware proxy pipeline:
//! request matchers, a per-request context with a type-keyed extension bag,
//! service and layer composition with matcher-gated hijacking, a protocol
//! upgrade state machine with a byte tunnel, a plain/TLS transport switch,
//! name-resolution shapes, a connection-admission policy with exponential
//! backoff, startup configuration parsing, and a graceful shutdown
//! coordinator.

pub mod config;
pub mod context;
pub mod dns;
pub mod domain;
pub mod http;
pub mod limit;
pub mod matcher;
pub mod service;
pub mod shutdown;
pub mod tls;
pub mod upgrade;
pub mod util;
