//! The broker configuration and status of the second connection manager,
//! where a host made only of whitespace counts as empty.
use crate::domain::opt_text;
use crate::text::{is_blank, str_is_blank};
use vstd::prelude::*;

verus! {

/// How to reach and log in to an MQTT broker.
#[derive(Debug)]
pub struct MqttConfig {
    pub host: String,
    pub port: u16,
    pub username: String,
    pub password: String,
    pub client_id: Option<String>,
}

impl Clone for MqttConfig {
    fn clone(&self) -> (c: Self)
        ensures
            c == *self,
    {
        MqttConfig {
            host: self.host.clone(),
            port: self.port,
            username: self.username.clone(),
            password: self.password.clone(),
            client_id: match &self.client_id {
                Some(id) => Some(id.clone()),
                None => None,
            },
        }
    }
}

impl MqttConfig {
    /// Why the configuration cannot be used, if it cannot: the host is
    /// blank once trimmed, or the port is 0. User name and password may be
    /// empty.
    pub open spec fn validation_error(&self) -> Option<Seq<char>> {
        if is_blank(self.host@) {
            Some("MQTT地址不可为空"@)
        } else if self.port == 0 {
            Some("MQTT端口不可为0"@)
        } else {
            None
        }
    }

    /// Checks that the host is not blank and the port is not 0.
    pub fn validate(&self) -> (r: Result<(), String>)
        ensures
            r is Ok <==> self.validation_error() is None,
            r matches Err(e) ==> self.validation_error() == Some(e@),
    {
        if str_is_blank(self.host.as_str()) {
            return Err(String::from_str("MQTT地址不可为空"));
        }
        if self.port == 0 {
            return Err(String::from_str("MQTT端口不可为0"));
        }
        Ok(())
    }
}

/// The state of the broker connection.
#[derive(Debug, Clone, Copy, PartialEq, Eq, Structural)]
pub enum MqttState {
    Connected,
    Connecting,
    Disconnected,
}

/// The connection status that is published to the web page.
#[derive(Debug)]
pub struct MqttStatus {
    pub state: MqttState,
    pub message: Option<String>,
    pub host: Option<String>,
    pub port: Option<u16>,
}

/// A published status as plain values.
pub struct MqttStatusView {
    pub state: MqttState,
    pub message: Option<Seq<char>>,
    pub host: Option<Seq<char>>,
    pub port: Option<u16>,
}

impl View for MqttStatus {
    type V = MqttStatusView;

    open spec fn view(&self) -> MqttStatusView {
        MqttStatusView {
            state: self.state,
            message: opt_text(self.message),
            host: opt_text(self.host),
            port: self.port,
        }
    }
}

impl Clone for MqttStatus {
    fn clone(&self) -> (c: Self)
        ensures
            c == *self,
    {
        MqttStatus {
            state: self.state,
            message: match &self.message {
                Some(m) => Some(m.clone()),
                None => None,
            },
            host: match &self.host {
                Some(h) => Some(h.clone()),
                None => None,
            },
            port: self.port,
        }
    }
}

} // verus!
