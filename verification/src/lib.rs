//! Verified core of the Flash market-data adapter: exchange adapters, connection
//! health and reconnection state machines, order tracking, message detection and
//! the publishing layer's topic routing, batching and configuration rules.

pub mod json;
pub mod text;
pub mod types;
pub mod network;
pub mod order;
pub mod parsing;
pub mod publisher;
