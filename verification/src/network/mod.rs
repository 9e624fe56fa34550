//! Network layer: connection state, heartbeat health, reconnection and adapters.

pub mod adapters;
pub mod connector;
pub mod heartbeat;
pub mod reconnect;
