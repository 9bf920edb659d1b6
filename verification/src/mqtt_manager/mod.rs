//! The MQTT configuration manager with a SQLite store: its settings, its
//! data model, the state of its broker connection and the decisions behind
//! its HTTP endpoints.
pub mod config;
pub mod handlers;
pub mod models;
pub mod services;
