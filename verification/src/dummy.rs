//! Dummy sensors: stand-ins that publish made-up payloads to a broker, to
//! try out the way from sensor to endpoint.

pub mod config;
pub mod sensor;
