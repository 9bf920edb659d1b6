//! The data of the configuration manager: the stored configuration row,
//! the request that saves one, the answer that shows one, the API envelope
//! and the connection status.
use vstd::prelude::*;

verus! {

/// A stored configuration row.
#[derive(Debug, Clone)]
pub struct MqttConfig {
    pub id: i32,
    pub host: String,
    pub port: i32,
    pub username: String,
    pub password: String,
    pub created_at: String,
    pub updated_at: String,
}

/// The body of a request that saves (or tests) a configuration.
#[derive(Debug, Clone)]
pub struct MqttConfigRequest {
    pub host: String,
    pub port: u16,
    pub username: String,
    pub password: String,
}

/// A stored configuration as it is shown: everything but the password.
#[derive(Debug, Clone)]
pub struct MqttConfigResponse {
    pub id: i32,
    pub host: String,
    pub port: u16,
    pub username: String,
    pub created_at: String,
    pub updated_at: String,
}

impl From<MqttConfig> for MqttConfigResponse {
    /// The row without its password; the port is taken as a `u16` (its
    /// low 16 bits).
    fn from(config: MqttConfig) -> (r: Self) {
        MqttConfigResponse {
            id: config.id,
            host: config.host,
            port: #[verifier::truncate] (config.port as u16),
            username: config.username,
            created_at: config.created_at,
            updated_at: config.updated_at,
        }
    }
}

/// The row without its password, the port taken as a `u16` (its low 16
/// bits).
pub open spec fn response_of(config: MqttConfig) -> MqttConfigResponse {
    MqttConfigResponse {
        id: config.id,
        host: config.host,
        port: config.port as u16,
        username: config.username,
        created_at: config.created_at,
        updated_at: config.updated_at,
    }
}

impl vstd::std_specs::convert::FromSpecImpl<MqttConfig> for MqttConfigResponse {
    open spec fn obeys_from_spec() -> bool {
        true
    }

    open spec fn from_spec(config: MqttConfig) -> MqttConfigResponse {
        response_of(config)
    }
}

/// The envelope of every API answer: whether the request succeeded, a
/// message, and the data when there is some.
#[derive(Debug, Clone)]
pub struct ApiResponse<T> {
    pub success: bool,
    pub message: String,
    pub data: Option<T>,
}

impl<T> ApiResponse<T> {
    /// A successful answer carrying `data`.
    pub fn success(data: T, message: &str) -> (r: Self)
        ensures
            r.success,
            r.message@ == message@,
            r.data == Some(data),
    {
        ApiResponse { success: true, message: String::from_str(message), data: Some(data) }
    }

    /// A failed answer with no data.
    pub fn error(message: &str) -> (r: Self) where T: Clone
        ensures
            !r.success,
            r.message@ == message@,
            r.data is None,
    {
        ApiResponse { success: false, message: String::from_str(message), data: None }
    }
}

/// The answer to a status request: whether the broker connection is up,
/// the stored configuration, and the connection error, if any.
#[derive(Debug, Clone)]
pub struct ConnectionStatus {
    pub connected: bool,
    pub config: Option<MqttConfigResponse>,
    pub error: Option<String>,
}

} // verus!
