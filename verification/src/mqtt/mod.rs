//! The decisions of the web service's MQTT connection manager: what its
//! event loop publishes for each broker event, what a connect and a
//! disconnect do to the connection and the published status, and the
//! options the client is started with. Running the client, the event loop
//! and the status channel is left to the caller.
pub mod manager;
pub mod options;

use crate::domain::{generated_client_id, ConnectionState, MqttConfig, StatusResponse, StatusView};
use crate::error::AppError;
use crate::text::{decimal, push_decimal};
use options::{ConnectOptions, ConnectOptionsView};
use vstd::prelude::*;

verus! {

/// How long a connect waits for the broker, in seconds.
pub const CONNECTION_TIMEOUT_SECS: u64 = 8;

/// How long a disconnect waits for the client, in seconds.
pub const DISCONNECT_TIMEOUT_SECS: u64 = 2;

/// The keep-alive interval the client is started with, in seconds.
pub const KEEP_ALIVE_SECS: u64 = 60;

/// What the MQTT event loop reports.
#[derive(Debug)]
pub enum LoopEvent {
    /// The broker acknowledged the connection.
    ConnAck,
    /// A disconnect came in from the broker or went out from the client.
    Disconnect,
    /// A message was published to the client.
    Publish,
    /// Any other packet.
    Other,
    /// The connection failed; the text of the error.
    Failed(String),
}

/// What the event loop does after an event: the status to publish, if
/// any, and whether it stops.
#[derive(Debug)]
pub struct LoopStep {
    pub publish: Option<StatusResponse>,
    pub stop: bool,
}

/// Connected, on the broker the current status names.
pub open spec fn connected_view(current: StatusView) -> StatusView {
    StatusView {
        state: ConnectionState::Connected,
        message: "已连接"@,
        host: current.host,
        port: current.port,
    }
}

/// Disconnected, with no broker.
pub open spec fn closed_view() -> StatusView {
    StatusView {
        state: ConnectionState::Disconnected,
        message: "已断开"@,
        host: None,
        port: None,
    }
}

/// Disconnected by the error `error`, with no broker.
pub open spec fn failed_view(error: Seq<char>) -> StatusView {
    StatusView {
        state: ConnectionState::Disconnected,
        message: "错误："@ + error,
        host: None,
        port: None,
    }
}

/// Connecting to the broker of `config`.
pub open spec fn connecting_view(config: MqttConfig) -> StatusView {
    StatusView {
        state: ConnectionState::Connecting,
        message: "连接中"@,
        host: Some(config.host@),
        port: Some(config.port),
    }
}

/// The status with no broker and the given state and message.
fn status_without_broker(state: ConnectionState, message: String) -> (s: StatusResponse)
    ensures
        s@ == (StatusView { state, message: message@, host: None, port: None }),
{
    StatusResponse { state, message, host: None, port: None }
}

/// What the event loop publishes for `event` while `current` is the
/// published status. An acknowledgement turns a connecting status into a
/// connected one on the same broker and is ignored otherwise; a disconnect
/// publishes the closed status; a failure publishes the error and ends the
/// loop; other packets change nothing.
pub fn on_loop_event(current: &StatusResponse, event: LoopEvent) -> (r: LoopStep)
    ensures
        match event {
            LoopEvent::ConnAck => !r.stop && (current.state == ConnectionState::Connecting
                ==> r.publish is Some && r.publish->0@ == connected_view(current@)) && (
            current.state != ConnectionState::Connecting ==> r.publish is None),
            LoopEvent::Disconnect => !r.stop && r.publish is Some && r.publish->0@
                == closed_view(),
            LoopEvent::Publish => !r.stop && r.publish is None,
            LoopEvent::Other => !r.stop && r.publish is None,
            LoopEvent::Failed(e) => r.stop && r.publish is Some && r.publish->0@ == failed_view(
                e@,
            ),
        },
{
    match event {
        LoopEvent::ConnAck => {
            if current.state == ConnectionState::Connecting {
                let status = StatusResponse {
                    state: ConnectionState::Connected,
                    message: String::from_str("已连接"),
                    host: match &current.host {
                        Some(h) => Some(h.clone()),
                        None => None,
                    },
                    port: current.port,
                };
                LoopStep { publish: Some(status), stop: false }
            } else {
                LoopStep { publish: None, stop: false }
            }
        },
        LoopEvent::Disconnect => LoopStep {
            publish: Some(
                status_without_broker(ConnectionState::Disconnected, String::from_str("已断开")),
            ),
            stop: false,
        },
        LoopEvent::Publish => LoopStep { publish: None, stop: false },
        LoopEvent::Other => LoopStep { publish: None, stop: false },
        LoopEvent::Failed(e) => LoopStep {
            publish: Some(
                status_without_broker(
                    ConnectionState::Disconnected,
                    String::from_str("错误：").concat(e.as_str()),
                ),
            ),
            stop: true,
        },
    }
}

/// The options a connect starts the client with: the configured client
/// identifier, or `mqtt-web-<pid>-<timestamp_ms>` when there is none; the
/// credentials when a user name is given (an anonymous login otherwise);
/// the default keep-alive interval.
pub open spec fn session_options(config: MqttConfig, pid: nat, timestamp_ms: nat) -> ConnectOptionsView {
    ConnectOptionsView {
        client_id: match config.client_id {
            Some(id) => id@,
            None => generated_client_id(pid, timestamp_ms),
        },
        host: config.host@,
        port: config.port,
        credentials: if config.username@.len() > 0 {
            Some((config.username@, config.password@))
        } else {
            None
        },
        keep_alive_secs: KEEP_ALIVE_SECS,
    }
}

/// The options a connect starts the client with (see `session_options`).
pub fn connect_options(config: &MqttConfig, pid: u32, timestamp_ms: u128) -> (o: ConnectOptions)
    ensures
        o@ == session_options(*config, pid as nat, timestamp_ms as nat),
{
    let client_id = match &config.client_id {
        Some(id) => id.clone(),
        None => {
            let mut id = String::from_str("mqtt-web-");
            push_decimal(&mut id, pid as u128);
            id.append("-");
            push_decimal(&mut id, timestamp_ms);
            id
        },
    };
    let credentials = if !config.username.as_str().is_empty() {
        Some((config.username.clone(), config.password.clone()))
    } else {
        None
    };
    ConnectOptions {
        client_id,
        host: config.host.clone(),
        port: config.port,
        credentials,
        keep_alive_secs: KEEP_ALIVE_SECS,
    }
}

/// What a disconnect does: whether to shut the running client down (and
/// abort its event loop), and the status to publish then.
#[derive(Debug)]
pub struct DisconnectPlan {
    pub shutdown_client: bool,
    pub publish: Option<StatusResponse>,
}

/// What a connect does, in order: the disconnect of the previous client,
/// the connecting status to publish, and the options to start the new
/// client with.
#[derive(Debug)]
pub struct ConnectPlan {
    pub disconnect: DisconnectPlan,
    pub connecting: StatusResponse,
    pub options: ConnectOptions,
}

/// The bookkeeping of the connection manager: a generation counter that
/// every connect and every disconnect of a live client advances, and
/// whether a client is live.
#[derive(Debug)]
pub struct SessionState {
    generation: u64,
    has_client: bool,
}

impl SessionState {
    /// The generation counter.
    pub closed spec fn generation_spec(&self) -> u64 {
        self.generation
    }

    /// Whether a client is live.
    pub closed spec fn has_client_spec(&self) -> bool {
        self.has_client
    }

    /// No client yet, generation 0.
    pub fn new() -> (s: SessionState)
        ensures
            s.generation_spec() == 0,
            !s.has_client_spec(),
    {
        SessionState { generation: 0, has_client: false }
    }

    /// The generation counter.
    pub fn generation(&self) -> (g: u64)
        ensures
            g == self.generation_spec(),
    {
        self.generation
    }

    /// Whether a client is live.
    pub fn has_client(&self) -> (b: bool)
        ensures
            b == self.has_client_spec(),
    {
        self.has_client
    }

    /// Drops the live client, if there is one: the generation advances,
    /// the client is shut down and the closed status is published. Without
    /// a live client nothing happens.
    pub fn disconnect(&mut self) -> (p: DisconnectPlan)
        requires
            old(self).has_client_spec() ==> old(self).generation_spec() < u64::MAX,
        ensures
            !final(self).has_client_spec(),
            p.shutdown_client == old(self).has_client_spec(),
            old(self).has_client_spec() ==> final(self).generation_spec() == old(self).generation_spec() + 1 && p.publish is Some && p.publish->0@ == closed_view(),
            !old(self).has_client_spec() ==> final(self).generation_spec() == old(self).generation_spec() && p.publish is None,
    {
        if self.has_client {
            self.generation = self.generation + 1;
            self.has_client = false;
            DisconnectPlan {
                shutdown_client: true,
                publish: Some(
                    status_without_broker(ConnectionState::Disconnected, String::from_str("已断开")),
                ),
            }
        } else {
            DisconnectPlan { shutdown_client: false, publish: None }
        }
    }

    /// Starts a connect to the broker of `config`: the generation
    /// advances, the previous client is dropped (see `disconnect`), the
    /// connecting status is published and the new client is started with
    /// `session_options`. `pid` and `timestamp_ms` make the client
    /// identifier when the configuration has none.
    pub fn begin_connect(&mut self, config: &MqttConfig, pid: u32, timestamp_ms: u128) -> (p:
        ConnectPlan)
        requires
            old(self).generation_spec() < u64::MAX,
            old(self).has_client_spec() ==> old(self).generation_spec() < u64::MAX - 1,
        ensures
            !final(self).has_client_spec(),
            p.disconnect.shutdown_client == old(self).has_client_spec(),
            old(self).has_client_spec() ==> final(self).generation_spec() == old(self).generation_spec() + 2 && p.disconnect.publish is Some && p.disconnect.publish->0@
                == closed_view(),
            !old(self).has_client_spec() ==> final(self).generation_spec() == old(self).generation_spec() + 1 && p.disconnect.publish is None,
            p.connecting@ == connecting_view(*config),
            p.options@ == session_options(*config, pid as nat, timestamp_ms as nat),
    {
        self.generation = self.generation + 1;
        let disconnect = self.disconnect();
        let connecting = StatusResponse {
            state: ConnectionState::Connecting,
            message: String::from_str("连接中"),
            host: Some(config.host.clone()),
            port: Some(config.port),
        };
        let options = connect_options(config, pid, timestamp_ms);
        ConnectPlan { disconnect, connecting, options }
    }

    /// Ends a connect: when the broker acknowledged it, the new client is
    /// live and the connect succeeds; when the wait timed out, it fails with
    /// a connection timeout.
    pub fn finish_connect(&mut self, wait: ConnectWait) -> (r: Result<(), AppError>)
        ensures
            final(self).generation_spec() == old(self).generation_spec(),
            wait is Acknowledged ==> r is Ok && final(self).has_client_spec(),
            wait is TimedOut ==> r == Err::<(), AppError>(AppError::ConnectionTimeout)
                && final(self).has_client_spec() == old(self).has_client_spec(),
    {
        match wait {
            ConnectWait::TimedOut => Err(AppError::ConnectionTimeout),
            ConnectWait::Acknowledged => {
                self.has_client = true;
                Ok(())
            },
        }
    }
}

/// How the wait of a connect for the broker ended.
#[derive(Debug, Clone, Copy, PartialEq, Eq, Structural)]
pub enum ConnectWait {
    /// The broker acknowledged the connection.
    Acknowledged,
    /// `CONNECTION_TIMEOUT_SECS` passed without an acknowledgement.
    TimedOut,
}

/// What the wait of a connect sees.
#[derive(Debug)]
pub enum ConnectWaitEvent {
    /// The published status as it now stands.
    Status(StatusResponse),
    /// `CONNECTION_TIMEOUT_SECS` have passed since the connect began.
    TimedOut,
}

/// How the wait of a connect ends on `event`, or `None` to keep waiting.
/// Only a connected status, which the event loop publishes when the broker
/// acknowledges the connect, ends it early; any other status keeps the
/// wait going until the time runs out.
pub fn connect_wait_step(event: ConnectWaitEvent) -> (r: Option<ConnectWait>)
    ensures
        match event {
            ConnectWaitEvent::Status(s) => if s.state == ConnectionState::Connected {
                r == Some(ConnectWait::Acknowledged)
            } else {
                r is None
            },
            ConnectWaitEvent::TimedOut => r == Some(ConnectWait::TimedOut),
        },
{
    match event {
        ConnectWaitEvent::Status(s) => if s.state == ConnectionState::Connected {
            Some(ConnectWait::Acknowledged)
        } else {
            None
        },
        ConnectWaitEvent::TimedOut => Some(ConnectWait::TimedOut),
    }
}

/// The status before any connect: disconnected (`未连接`), with no broker.
pub fn initial_status() -> (s: StatusResponse)
    ensures
        s@ == (StatusView {
            state: ConnectionState::Disconnected,
            message: "未连接"@,
            host: None,
            port: None,
        }),
{
    status_without_broker(ConnectionState::Disconnected, String::from_str("未连接"))
}

/// Whether a published status says the client is connected.
pub fn is_connected(status: &StatusResponse) -> (b: bool)
    ensures
        b == (status.state == ConnectionState::Connected),
{
    status.state == ConnectionState::Connected
}


/// After a connect publishes its connecting status, the broker's
/// acknowledgement shows that same broker as connected.
pub proof fn acknowledged_connect_is_connected(config: MqttConfig)
    ensures
        connected_view(connecting_view(config)) == (StatusView {
            state: ConnectionState::Connected,
            message: "已连接"@,
            host: Some(config.host@),
            port: Some(config.port),
        }),
{
}


/// Credentials go with every user name that is given: the options carry
/// the user name and the password, whatever the password (the empty one
/// too), and none only when the user name is empty.
pub proof fn credentials_follow_user_name(config: MqttConfig, pid: nat, timestamp_ms: nat)
    ensures
        session_options(config, pid, timestamp_ms).credentials is Some <==> config.username@.len()
            > 0,
        config.username@.len() > 0 ==> session_options(config, pid, timestamp_ms).credentials
            == Some((config.username@, config.password@)),
        config.password@.len() == 0 && config.username@.len() > 0 ==> session_options(
            config,
            pid,
            timestamp_ms,
        ).credentials == Some((config.username@, Seq::<char>::empty())),
        session_options(config, pid, timestamp_ms).host == config.host@,
        session_options(config, pid, timestamp_ms).port == config.port,
        session_options(config, pid, timestamp_ms).keep_alive_secs == 60,
        config.client_id matches Some(id) ==> session_options(config, pid, timestamp_ms).client_id
            == id@,
        config.client_id is None ==> session_options(config, pid, timestamp_ms).client_id
            == "mqtt-web-"@ + decimal(pid) + "-"@ + decimal(timestamp_ms),
{
}

/// What the event loop publishes says what happened: an acknowledgement
/// shows connected on the broker the status already named, a disconnect
/// and a failure show disconnected with no broker (a failure with its
/// error), and a connect shows connecting on the configured broker.
pub proof fn loop_statuses_say_what_happened(current: StatusView, error: Seq<char>, config: MqttConfig)
    ensures
        connected_view(current).state == ConnectionState::Connected,
        connected_view(current).host == current.host && connected_view(current).port
            == current.port,
        closed_view().state == ConnectionState::Disconnected && closed_view().host is None
            && closed_view().port is None,
        failed_view(error).state == ConnectionState::Disconnected && failed_view(error).message
            == "错误："@ + error && failed_view(error).host is None,
        connecting_view(config).state == ConnectionState::Connecting && connecting_view(config).host
            == Some(config.host@) && connecting_view(config).port == Some(config.port),
{
}

} // verus!
