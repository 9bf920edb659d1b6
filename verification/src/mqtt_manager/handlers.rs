//! The decisions behind the configuration manager's HTTP endpoints: which
//! requests are refused, and how each outcome of the database and of the
//! broker is answered. Talking HTTP, the database and the broker is left to
//! the caller.
use crate::mqtt_manager::models::{
    response_of, ApiResponse, ConnectionStatus, MqttConfig, MqttConfigRequest, MqttConfigResponse,
};
use crate::mqtt_manager::services::MqttConnectionState;
use vstd::prelude::*;

verus! {

/// Why a save or test request is refused, if it is: an empty host, user
/// name or password, checked in that order.
pub open spec fn request_problem(req: MqttConfigRequest) -> Option<Seq<char>> {
    if req.host@.len() == 0 {
        Some("Host cannot be empty"@)
    } else if req.username@.len() == 0 {
        Some("Username cannot be empty"@)
    } else if req.password@.len() == 0 {
        Some("Password cannot be empty"@)
    } else {
        None
    }
}

/// The failed answer to a save or test request that is refused, if it is
/// (see `request_problem`).
pub fn check_request<T: Clone>(req: &MqttConfigRequest) -> (r: Option<ApiResponse<T>>)
    ensures
        request_problem(*req) is None ==> r is None,
        request_problem(*req) matches Some(m) ==> (r matches Some(resp) && !resp.success
            && resp.message@ == m && resp.data is None),
{
    if req.host.as_str().is_empty() {
        return Some(ApiResponse::error("Host cannot be empty"));
    }
    if req.username.as_str().is_empty() {
        return Some(ApiResponse::error("Username cannot be empty"));
    }
    if req.password.as_str().is_empty() {
        return Some(ApiResponse::error("Password cannot be empty"));
    }
    None
}

/// An answer that fails with HTTP 500 and `Database error: <error>`.
pub fn database_failure(error: &str) -> (r: (u16, String))
    ensures
        r.0 == 500,
        r.1@ == "Database error: "@ + error@,
{
    (500, String::from_str("Database error: ").concat(error))
}

/// The answer to `GET /api/config` given how reading the latest stored
/// configuration went: the configuration without its password, a failed
/// answer when there is none, HTTP 500 when the database failed.
pub fn config_reply(loaded: Result<Option<MqttConfig>, String>) -> (r: Result<
    ApiResponse<MqttConfigResponse>,
    (u16, String),
>)
    ensures
        loaded matches Ok(Some(c)) ==> (r matches Ok(resp) && resp.success && resp.message@
            == "Configuration retrieved successfully"@ && resp.data == Some(
            response_of(c),
        )),
        loaded matches Ok(None) ==> (r matches Ok(resp) && !resp.success && resp.message@
            == "No configuration found"@ && resp.data is None),
        loaded matches Err(e) ==> (r matches Err(f) && f.0 == 500 && f.1@ == "Database error: "@
            + e@),
{
    match loaded {
        Ok(Some(config)) => Ok(
            ApiResponse::success(
                MqttConfigResponse::from(config),
                "Configuration retrieved successfully",
            ),
        ),
        Ok(None) => Ok(ApiResponse::error("No configuration found")),
        Err(e) => Err(database_failure(e.as_str())),
    }
}

/// The answer to `POST /api/config` once the configuration is saved as
/// `config`, given how the connect with it went. It is a success either
/// way, carrying the configuration; a failed connect only changes the
/// message.
pub fn saved_reply(config: MqttConfig, connected: Result<(), String>) -> (r: ApiResponse<
    MqttConfigResponse,
>)
    ensures
        r.success,
        r.data == Some(response_of(config)),
        connected is Ok ==> r.message@ == "Configuration saved and connected successfully"@,
        connected matches Err(e) ==> r.message@ == "Configuration saved, but connection failed: "@
            + e@,
{
    let response = MqttConfigResponse::from(config);
    match connected {
        Ok(()) => ApiResponse::success(response, "Configuration saved and connected successfully"),
        Err(e) => ApiResponse {
            success: true,
            message: String::from_str("Configuration saved, but connection failed: ").concat(
                e.as_str(),
            ),
            data: Some(response),
        },
    }
}

/// The answer to `GET /api/status`: the connection state, the latest
/// stored configuration (none when there is none or the database failed),
/// and the connection error only while not connected.
pub fn connection_status(state: MqttConnectionState, loaded: Result<Option<MqttConfig>, String>) -> (r:
    ConnectionStatus)
    ensures
        r.connected == state.connected,
        r.config == match loaded {
            Ok(Some(c)) => Some(response_of(c)),
            _ => None,
        },
        r.error == if state.connected {
            None
        } else {
            state.error
        },
{
    let config = match loaded {
        Ok(Some(c)) => Some(MqttConfigResponse::from(c)),
        Ok(None) => None,
        Err(_) => None,
    };
    let error = if state.connected {
        None
    } else {
        state.error
    };
    ConnectionStatus { connected: state.connected, config, error }
}

/// The configuration a connection test uses: the request's, with id 0 and
/// the given timestamps.
pub fn test_config(req: MqttConfigRequest, created_at: String, updated_at: String) -> (c:
    MqttConfig)
    ensures
        c.id == 0,
        c.host == req.host,
        c.port == req.port as i32,
        c.username == req.username,
        c.password == req.password,
        c.created_at == created_at,
        c.updated_at == updated_at,
{
    MqttConfig {
        id: 0,
        host: req.host,
        port: req.port as i32,
        username: req.username,
        password: req.password,
        created_at,
        updated_at,
    }
}

/// The answer to a connection test given how the connect went: a success
/// carrying `payload`, or a failure with the connect's error.
pub fn test_reply<T: Clone>(connected: Result<(), String>, payload: T) -> (r: ApiResponse<T>)
    ensures
        connected is Ok ==> r.success && r.message@ == "Connection test successful"@ && r.data
            == Some(payload),
        connected matches Err(e) ==> !r.success && r.message@ == "Connection test failed: "@ + e@
            && r.data is None,
{
    match connected {
        Ok(()) => ApiResponse::success(payload, "Connection test successful"),
        Err(e) => {
            let message = String::from_str("Connection test failed: ").concat(e.as_str());
            ApiResponse::error(message.as_str())
        },
    }
}


/// How a connection test ends: whether the test connection is to be
/// dropped again, and the answer.
#[derive(Debug)]
pub struct TestOutcome<T> {
    pub disconnect: bool,
    pub reply: ApiResponse<T>,
}

/// How a connection test ends given how the connect went: a successful
/// connect is disconnected again and answered with a success carrying
/// `payload`; a failed one is answered with the connect's error.
pub fn test_outcome<T: Clone>(connected: Result<(), String>, payload: T) -> (r: TestOutcome<T>)
    ensures
        r.disconnect == connected is Ok,
        connected is Ok ==> r.reply.success && r.reply.message@ == "Connection test successful"@
            && r.reply.data == Some(payload),
        connected matches Err(e) ==> !r.reply.success && r.reply.message@
            == "Connection test failed: "@ + e@ && r.reply.data is None,
{
    let disconnect = connected.is_ok();
    TestOutcome { disconnect, reply: test_reply(connected, payload) }
}

} // verus!
