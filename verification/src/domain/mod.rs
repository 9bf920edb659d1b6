//! The data the web service works with: the broker configuration, the
//! login request, the answers it sends and the connection status it
//! publishes.
pub mod mqtt;

use crate::text::{decimal, push_decimal};
use vstd::prelude::*;

verus! {

/// How to reach and log in to an MQTT broker. The password is kept in
/// plain text in memory only.
#[derive(Debug)]
pub struct MqttConfig {
    pub host: String,
    pub port: u16,
    pub username: String,
    pub password: String,
    pub client_id: Option<String>,
}

impl Clone for MqttConfig {
    fn clone(&self) -> (c: Self)
        ensures
            c == *self,
    {
        MqttConfig {
            host: self.host.clone(),
            port: self.port,
            username: self.username.clone(),
            password: self.password.clone(),
            client_id: match &self.client_id {
                Some(id) => Some(id.clone()),
                None => None,
            },
        }
    }
}

/// The client identifier made from a process id and a time in
/// milliseconds: `mqtt-web-<pid>-<millis>`.
pub open spec fn generated_client_id(pid: nat, timestamp_ms: nat) -> Seq<char> {
    "mqtt-web-"@ + decimal(pid) + "-"@ + decimal(timestamp_ms)
}

/// Whether a configuration still needs a client identifier: it has none,
/// or an empty one.
pub open spec fn lacks_client_id(client_id: Option<String>) -> bool {
    match client_id {
        None => true,
        Some(id) => id@.len() == 0,
    }
}

impl MqttConfig {
    /// Why the configuration cannot be used, if it cannot: the host is
    /// empty, or the port is 0.
    pub open spec fn validation_error(&self) -> Option<Seq<char>> {
        if self.host@.len() == 0 {
            Some("MQTT 地址不可为空"@)
        } else if self.port == 0 {
            Some("端口号不能为 0"@)
        } else {
            None
        }
    }

    /// Checks that the host is not empty and the port is not 0.
    pub fn validate(&self) -> (r: Result<(), String>)
        ensures
            r is Ok <==> self.validation_error() is None,
            r matches Err(e) ==> self.validation_error() == Some(e@),
    {
        if self.host.as_str().is_empty() {
            return Err(String::from_str("MQTT 地址不可为空"));
        }
        if self.port == 0 {
            return Err(String::from_str("端口号不能为 0"));
        }
        Ok(())
    }

    /// Gives the configuration the client identifier
    /// `mqtt-web-<pid>-<timestamp_ms>` when it has none or an empty one;
    /// leaves it unchanged otherwise. `pid` is the process id and
    /// `timestamp_ms` the time since the Unix epoch in milliseconds.
    pub fn generate_client_id(&mut self, pid: u32, timestamp_ms: u128)
        ensures
            final(self).host == old(self).host,
            final(self).port == old(self).port,
            final(self).username == old(self).username,
            final(self).password == old(self).password,
            lacks_client_id(old(self).client_id) ==> final(self).client_id is Some
                && final(self).client_id->0@ == generated_client_id(pid as nat, timestamp_ms as nat),
            !lacks_client_id(old(self).client_id) ==> final(self).client_id == old(self).client_id,
    {
        let needs = match &self.client_id {
            None => true,
            Some(id) => id.as_str().is_empty(),
        };
        if needs {
            let mut id = String::from_str("mqtt-web-");
            push_decimal(&mut id, pid as u128);
            id.append("-");
            push_decimal(&mut id, timestamp_ms);
            self.client_id = Some(id);
        }
    }
}

/// The body of a login request. A missing password (`None`) asks to reuse
/// the saved one; an empty password means an anonymous login.
#[derive(Debug)]
pub struct LoginRequest {
    pub host: String,
    pub port: u16,
    pub username: String,
    pub password: Option<String>,
    pub client_id: Option<String>,
}

/// The answer to a request for the saved configuration.
#[derive(Debug)]
pub struct ConfigResponse {
    pub saved: bool,
    pub config: Option<SanitizedConfig>,
}

/// A saved configuration as it is shown: everything but the password.
#[derive(Debug)]
pub struct SanitizedConfig {
    pub host: String,
    pub port: u16,
    pub username: String,
    pub client_id: Option<String>,
}

impl SanitizedConfig {
    /// The configuration without its password.
    pub fn from_config(config: MqttConfig) -> (s: SanitizedConfig)
        ensures
            s.host == config.host,
            s.port == config.port,
            s.username == config.username,
            s.client_id == config.client_id,
    {
        SanitizedConfig {
            host: config.host,
            port: config.port,
            username: config.username,
            client_id: config.client_id,
        }
    }
}

/// The connection status that is published to the web page.
#[derive(Debug)]
pub struct StatusResponse {
    pub state: ConnectionState,
    pub message: String,
    pub host: Option<String>,
    pub port: Option<u16>,
}

/// A published status as plain values.
pub struct StatusView {
    pub state: ConnectionState,
    pub message: Seq<char>,
    pub host: Option<Seq<char>>,
    pub port: Option<u16>,
}

/// The view of an optional text.
pub open spec fn opt_text(t: Option<String>) -> Option<Seq<char>> {
    match t {
        Some(s) => Some(s@),
        None => None,
    }
}

impl View for StatusResponse {
    type V = StatusView;

    open spec fn view(&self) -> StatusView {
        StatusView {
            state: self.state,
            message: self.message@,
            host: opt_text(self.host),
            port: self.port,
        }
    }
}

impl Clone for StatusResponse {
    fn clone(&self) -> (c: Self)
        ensures
            c == *self,
    {
        StatusResponse {
            state: self.state,
            message: self.message.clone(),
            host: match &self.host {
                Some(h) => Some(h.clone()),
                None => None,
            },
            port: self.port,
        }
    }
}

/// The state of the broker connection.
#[derive(Debug, Clone, Copy, PartialEq, Eq, Structural)]
pub enum ConnectionState {
    Connected,
    Connecting,
    Disconnected,
}

impl ConnectionState {
    /// The label the state is shown with.
    pub open spec fn label_spec(self) -> Seq<char> {
        match self {
            ConnectionState::Connected => "已连接"@,
            ConnectionState::Connecting => "连接中"@,
            ConnectionState::Disconnected => "已断开"@,
        }
    }

    /// The label the state is shown with (what its `Display` prints).
    pub fn label(&self) -> (s: String)
        ensures
            s@ == self.label_spec(),
    {
        match self {
            ConnectionState::Connected => String::from_str("已连接"),
            ConnectionState::Connecting => String::from_str("连接中"),
            ConnectionState::Disconnected => String::from_str("已断开"),
        }
    }
}

/// A plain answer with a message. Its `success` flag is always `true`:
/// the message says whether the request did what was asked.
#[derive(Debug)]
pub struct SuccessResponse {
    pub success: bool,
    pub message: String,
}

impl SuccessResponse {
    /// An answer carrying `message`.
    pub fn new(message: String) -> (r: SuccessResponse)
        ensures
            r.success,
            r.message == message,
    {
        SuccessResponse { success: true, message }
    }
}

} // verus!
