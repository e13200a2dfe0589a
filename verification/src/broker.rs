//! The gateway between the sensors and the collection endpoint: its
//! configuration, and the steps of its decode-bundle-forward pipeline.

pub mod bundle;
pub mod config;
pub mod dispatch;
pub mod endpoint;
pub mod upstream;
