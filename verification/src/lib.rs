//! The logic of a small MQTT web console: broker configurations and their
//! validation, encrypted storage of the broker password, the login and
//! logout decisions, the status the connection managers publish, and the
//! answers of a second, SQLite-backed configuration manager.
pub mod api;
pub mod domain;
pub mod error;
pub mod mqtt;
pub mod mqtt_manager;
pub mod primitives;
pub mod storage;
pub mod text;
