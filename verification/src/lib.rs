//! Telemetry gateway for field sensors.
//!
//! Sensors publish short binary messages under a topic. The gateway decodes
//! them into typed readings, wraps each reading in an envelope, collects the
//! envelopes in a bundle and forwards the bundle to a collection endpoint.

pub mod api;
pub mod broker;
pub mod clock;
pub mod comm;
pub mod dummy;
pub mod text;
