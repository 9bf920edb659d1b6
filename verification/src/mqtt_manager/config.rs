//! The settings of the configuration manager: where it listens and where
//! its database is.
use crate::text::{parse_u16, parse_u16_spec};
use vstd::prelude::*;

verus! {

/// Where the server listens.
#[derive(Debug)]
pub struct ServerConfig {
    pub host: String,
    pub port: u16,
}

impl Default for ServerConfig {
    /// `0.0.0.0:3000`.
    fn default() -> (c: Self)
        ensures
            c.host@ == "0.0.0.0"@,
            c.port == 3000,
    {
        ServerConfig { host: String::from_str("0.0.0.0"), port: 3000 }
    }
}

/// The settings of the configuration manager.
#[derive(Debug)]
pub struct AppConfig {
    pub server: ServerConfig,
    pub database_path: String,
}

impl Default for AppConfig {
    /// Listening on `0.0.0.0:3000`, with the database `./mqtt_manager.db`.
    fn default() -> (c: Self)
        ensures
            c.server.host@ == "0.0.0.0"@,
            c.server.port == 3000,
            c.database_path@ == "./mqtt_manager.db"@,
    {
        AppConfig {
            server: ServerConfig::default(),
            database_path: String::from_str("./mqtt_manager.db"),
        }
    }
}

impl AppConfig {
    /// The settings from the values of the environment variables
    /// `SERVER_HOST`, `SERVER_PORT` and `DATABASE_PATH` (`None` when a
    /// variable is unset): each given value replaces the default, except a
    /// port that does not parse as a `u16`, which leaves the default port.
    pub fn from_env(
        server_host: Option<String>,
        server_port: Option<String>,
        database_path: Option<String>,
    ) -> (c: AppConfig)
        ensures
            c.server.host@ == match server_host {
                Some(h) => h@,
                None => "0.0.0.0"@,
            },
            c.server.port == match server_port {
                Some(p) => match parse_u16_spec(p@) {
                    Some(n) => n,
                    None => 3000u16,
                },
                None => 3000u16,
            },
            c.database_path@ == match database_path {
                Some(d) => d@,
                None => "./mqtt_manager.db"@,
            },
    {
        let mut config = AppConfig::default();
        match server_host {
            Some(host) => {
                config.server.host = host;
            },
            None => {},
        }
        match server_port {
            Some(port) => match parse_u16(port.as_str()) {
                Some(parsed_port) => {
                    config.server.port = parsed_port;
                },
                None => {},
            },
            None => {},
        }
        match database_path {
            Some(db_path) => {
                config.database_path = db_path;
            },
            None => {},
        }
        config
    }
}

} // verus!
