//! Messages exchanged between sensors, the gateway and the collection endpoint.

pub mod broker_api;
pub mod sensor_broker;
