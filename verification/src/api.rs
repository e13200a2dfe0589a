//! The collection endpoint's side: its configuration and what it keeps of
//! the bundles that brokers send home.

pub mod config;
pub mod db;
