//! The decisions of the second MQTT connection manager. Every connect
//! starts a new generation, and the event loop of a connect publishes only
//! while its generation is still the current one, so events of a
//! superseded connection never reach the status. A connect waits until the
//! status says connected or disconnected; a failed connect stops the client
//! again. Running the client, the event loop, the timers and the status
//! channel is left to the caller.
use crate::domain::generated_client_id;
use crate::domain::mqtt::{MqttConfig, MqttState, MqttStatus, MqttStatusView};
use crate::mqtt::options::{ConnectOptions, ConnectOptionsView};
use crate::text::{decimal, is_blank, push_decimal, str_is_blank};
use vstd::prelude::*;

verus! {

/// The keep-alive interval the client is started with, in seconds.
pub const KEEP_ALIVE_SECS: u64 = 30;

/// How long a connect waits for the broker, in seconds.
pub const CONNECT_WAIT_SECS: u64 = 8;

/// How long stopping waits for the client's disconnect, in seconds.
pub const STOP_TIMEOUT_SECS: u64 = 2;

/// A status on the broker of `config`.
pub open spec fn status_view(state: MqttState, message: Seq<char>, config: MqttConfig) -> MqttStatusView {
    MqttStatusView {
        state,
        message: Some(message),
        host: Some(config.host@),
        port: Some(config.port),
    }
}

/// A status on the broker of `config`, with the given state and message.
pub fn make_status(state: MqttState, message: String, config: &MqttConfig) -> (s: MqttStatus)
    ensures
        s@ == status_view(state, message@, *config),
{
    MqttStatus {
        state,
        message: Some(message),
        host: Some(config.host.clone()),
        port: Some(config.port),
    }
}

/// The status before any connect: disconnected (`未连接`), with no broker.
pub fn initial_status() -> (s: MqttStatus)
    ensures
        s@ == (MqttStatusView {
            state: MqttState::Disconnected,
            message: Some("未连接"@),
            host: None,
            port: None,
        }),
{
    MqttStatus {
        state: MqttState::Disconnected,
        message: Some(String::from_str("未连接")),
        host: None,
        port: None,
    }
}

/// What the event loop of a connect reports.
#[derive(Debug)]
pub enum ManagerEvent {
    /// The broker answered the connect: whether it accepted it, and the
    /// name of its return code.
    ConnAck { accepted: bool, code: String },
    /// Any other packet.
    Other,
    /// The connection failed; the text of the error.
    Failed(String),
}

/// What an event means on its own: the status it reports, if any, and
/// whether the event loop ends. A refused acknowledgement and a failure
/// end the loop; a failure after a manual disconnect reads as a
/// disconnect.
pub open spec fn event_report(manual_disconnect: bool, event: ManagerEvent, config: MqttConfig) -> (
    Option<MqttStatusView>,
    bool,
) {
    match event {
        ManagerEvent::ConnAck { accepted, code } => if accepted {
            (Some(status_view(MqttState::Connected, "已连接"@, config)), false)
        } else {
            (
                Some(status_view(MqttState::Disconnected, "连接被拒绝: "@ + code@, config)),
                true,
            )
        },
        ManagerEvent::Other => (None, false),
        ManagerEvent::Failed(e) => (
            Some(
                status_view(
                    MqttState::Disconnected,
                    if manual_disconnect {
                        "已断开连接"@
                    } else {
                        "连接异常: "@ + e@
                    },
                    config,
                ),
            ),
            true,
        ),
    }
}

/// What the event loop of generation `loop_generation` publishes while
/// `current_generation` is current: the event's status, only when the two
/// are the same.
pub open spec fn published_by(
    loop_generation: u64,
    current_generation: u64,
    manual_disconnect: bool,
    event: ManagerEvent,
    config: MqttConfig,
) -> Option<MqttStatusView> {
    if loop_generation == current_generation {
        event_report(manual_disconnect, event, config).0
    } else {
        None
    }
}

/// What the event loop of generation `loop_generation` publishes while
/// the manager is `running` with `current_generation` current: nothing
/// once the manager has stopped, `published_by` otherwise.
pub open spec fn published_while(
    running: bool,
    loop_generation: u64,
    current_generation: u64,
    manual_disconnect: bool,
    event: ManagerEvent,
    config: MqttConfig,
) -> Option<MqttStatusView> {
    if running {
        published_by(loop_generation, current_generation, manual_disconnect, event, config)
    } else {
        None
    }
}

/// What the event loop does after an event: the status to publish, if
/// any, and whether it stops.
#[derive(Debug)]
pub struct ManagerStep {
    pub publish: Option<MqttStatus>,
    pub stop: bool,
}

/// The view of an optional status.
pub open spec fn opt_status(s: Option<MqttStatus>) -> Option<MqttStatusView> {
    match s {
        Some(st) => Some(st@),
        None => None,
    }
}

/// Handles one event of the event loop of generation `loop_generation`,
/// for the broker of `config`, given the current generation and whether a
/// manual disconnect was asked for.
pub fn on_manager_event(
    loop_generation: u64,
    current_generation: u64,
    manual_disconnect: bool,
    event: ManagerEvent,
    config: &MqttConfig,
) -> (r: ManagerStep)
    ensures
        opt_status(r.publish) == published_by(
            loop_generation,
            current_generation,
            manual_disconnect,
            event,
            *config,
        ),
        r.stop == event_report(manual_disconnect, event, *config).1,
{
    let ghost ev = event;
    let (status, stop) = match event {
        ManagerEvent::ConnAck { accepted, code } => {
            if accepted {
                (Some(make_status(MqttState::Connected, String::from_str("已连接"), config)), false)
            } else {
                (
                    Some(
                        make_status(
                            MqttState::Disconnected,
                            String::from_str("连接被拒绝: ").concat(code.as_str()),
                            config,
                        ),
                    ),
                    true,
                )
            }
        },
        ManagerEvent::Other => (None, false),
        ManagerEvent::Failed(e) => {
            let message = if manual_disconnect {
                String::from_str("已断开连接")
            } else {
                String::from_str("连接异常: ").concat(e.as_str())
            };
            (Some(make_status(MqttState::Disconnected, message, config)), true)
        },
    };
    assert(opt_status(status) == event_report(manual_disconnect, ev, *config).0);
    if loop_generation == current_generation {
        ManagerStep { publish: status, stop }
    } else {
        ManagerStep { publish: None, stop }
    }
}

/// What the wait for a connect sees.
#[derive(Debug)]
pub enum WaitEvent {
    /// The status as it now stands.
    Status(MqttStatus),
    /// The time for the connect ran out.
    TimedOut,
    /// The status channel closed.
    ChannelClosed,
}

/// How the wait for a connect ends on `event`, or `None` to keep waiting:
/// connected is success; disconnected fails with the status message (or
/// `连接失败` when there is none); running out of time fails with `连接超时`;
/// a closed channel fails with `状态通道已关闭`.
pub fn wait_step(event: WaitEvent) -> (r: Option<Result<(), String>>)
    ensures
        match event {
            WaitEvent::Status(s) => match s.state {
                MqttState::Connected => r == Some(Ok::<(), String>(())),
                MqttState::Connecting => r is None,
                MqttState::Disconnected => r is Some && r->0 is Err && r->0->Err_0@ == match s.message {
                    Some(m) => m@,
                    None => "连接失败"@,
                },
            },
            WaitEvent::TimedOut => r is Some && r->0 is Err && r->0->Err_0@ == "连接超时"@,
            WaitEvent::ChannelClosed => r is Some && r->0 is Err && r->0->Err_0@
                == "状态通道已关闭"@,
        },
{
    match event {
        WaitEvent::Status(s) => match s.state {
            MqttState::Connected => Some(Ok(())),
            MqttState::Connecting => None,
            MqttState::Disconnected => Some(
                Err(
                    match s.message {
                        Some(m) => m,
                        None => String::from_str("连接失败"),
                    },
                ),
            ),
        },
        WaitEvent::TimedOut => Some(Err(String::from_str("连接超时"))),
        WaitEvent::ChannelClosed => Some(Err(String::from_str("状态通道已关闭"))),
    }
}

/// The generation after `g`: one more, wrapping round at the top.
pub open spec fn next_generation(g: u64) -> u64 {
    if g == u64::MAX {
        0
    } else {
        (g + 1) as u64
    }
}

/// The options a connect starts the client with: the configured client
/// identifier unless it is blank, `mqtt-web-<pid>-<timestamp_ms>`
/// otherwise; the credentials when the user name is not blank (an
/// anonymous login otherwise); a keep-alive of 30 seconds.
pub open spec fn manager_options(config: MqttConfig, pid: nat, timestamp_ms: nat) -> ConnectOptionsView {
    ConnectOptionsView {
        client_id: match config.client_id {
            Some(id) => if is_blank(id@) {
                generated_client_id(pid, timestamp_ms)
            } else {
                id@
            },
            None => generated_client_id(pid, timestamp_ms),
        },
        host: config.host@,
        port: config.port,
        credentials: if is_blank(config.username@) {
            None
        } else {
            Some((config.username@, config.password@))
        },
        keep_alive_secs: KEEP_ALIVE_SECS,
    }
}

/// The options a connect starts the client with (see `manager_options`).
pub fn manager_connect_options(config: &MqttConfig, pid: u32, timestamp_ms: u128) -> (o:
    ConnectOptions)
    ensures
        o@ == manager_options(*config, pid as nat, timestamp_ms as nat),
{
    let configured = match &config.client_id {
        Some(id) => if str_is_blank(id.as_str()) {
            None
        } else {
            Some(id.clone())
        },
        None => None,
    };
    let client_id = match configured {
        Some(id) => id,
        None => {
            let mut id = String::from_str("mqtt-web-");
            push_decimal(&mut id, pid as u128);
            id.append("-");
            push_decimal(&mut id, timestamp_ms);
            id
        },
    };
    let credentials = if str_is_blank(config.username.as_str()) {
        None
    } else {
        Some((config.username.clone(), config.password.clone()))
    };
    ConnectOptions {
        client_id,
        host: config.host.clone(),
        port: config.port,
        credentials,
        keep_alive_secs: KEEP_ALIVE_SECS,
    }
}

/// The message of the connecting status: `正在连接 <host>:<port>`.
pub open spec fn connecting_message(config: MqttConfig) -> Seq<char> {
    "正在连接 "@ + config.host@ + ":"@ + decimal(config.port as nat)
}

/// How a connect starts its client once the previous one is stopped: the
/// client of generation `generation` runs with `options`, and `connecting`
/// is published.
#[derive(Debug)]
pub struct ManagerPlan {
    pub generation: u64,
    pub options: ConnectOptions,
    pub connecting: MqttStatus,
}

/// What stopping does: whether a running client is to be disconnected
/// (and its event loop aborted), and the status to publish then.
#[derive(Debug)]
pub struct StopPlan {
    pub stop_client: bool,
    pub publish: Option<MqttStatus>,
}

/// The bookkeeping of the second connection manager: the current
/// generation, whether a manual disconnect was asked for, and whether a
/// client runs.
#[derive(Debug)]
pub struct ManagerState {
    generation: u64,
    manual_disconnect: bool,
    running: bool,
}

impl ManagerState {
    /// The current generation.
    pub closed spec fn generation_spec(&self) -> u64 {
        self.generation
    }

    /// Whether a manual disconnect was asked for.
    pub closed spec fn manual_disconnect_spec(&self) -> bool {
        self.manual_disconnect
    }

    /// Whether a client runs.
    pub closed spec fn running_spec(&self) -> bool {
        self.running
    }

    /// Generation 0, no manual disconnect, no client.
    pub fn new() -> (s: ManagerState)
        ensures
            s.generation_spec() == 0,
            !s.manual_disconnect_spec(),
            !s.running_spec(),
    {
        ManagerState { generation: 0, manual_disconnect: false, running: false }
    }

    /// The current generation.
    pub fn generation(&self) -> (g: u64)
        ensures
            g == self.generation_spec(),
    {
        self.generation
    }

    /// Whether a manual disconnect was asked for.
    pub fn manual_disconnect(&self) -> (b: bool)
        ensures
            b == self.manual_disconnect_spec(),
    {
        self.manual_disconnect
    }

    /// Whether a client runs.
    pub fn running(&self) -> (b: bool)
        ensures
            b == self.running_spec(),
    {
        self.running
    }

    /// Stops the running client, if any, marking the stop as manual.
    fn stop(&mut self) -> (stop_client: bool)
        ensures
            stop_client == old(self).running_spec(),
            !final(self).running_spec(),
            final(self).manual_disconnect_spec(),
            final(self).generation_spec() == old(self).generation_spec(),
    {
        self.manual_disconnect = true;
        let was_running = self.running;
        self.running = false;
        was_running
    }

    /// Starts a connect to the broker of `config`. An invalid
    /// configuration fails with its validation message and changes
    /// nothing. Otherwise the previous client is stopped (marked as a
    /// manual stop); the result says whether one was running, to be
    /// disconnected before `start_client`.
    pub fn begin_connect(&mut self, config: &MqttConfig) -> (r: Result<bool, String>)
        ensures
            r is Err <==> config.validation_error() is Some,
            r matches Err(e) ==> config.validation_error() == Some(e@) && final(self).generation_spec()
                == old(self).generation_spec() && final(self).manual_disconnect_spec() == old(self).manual_disconnect_spec()
                && final(self).running_spec() == old(self).running_spec(),
            r matches Ok(stop_previous) ==> stop_previous == old(self).running_spec() && final(self).generation_spec()
                == old(self).generation_spec() && final(self).manual_disconnect_spec()
                && !final(self).running_spec(),
    {
        match config.validate() {
            Ok(()) => {},
            Err(e) => {
                return Err(e);
            },
        }
        Ok(self.stop())
    }

    /// Starts the client of a connect: a new generation begins, the
    /// manual-disconnect mark is cleared, and the client runs with
    /// `manager_options`; the connecting status names the broker. `pid`
    /// and `timestamp_ms` make the client identifier when the
    /// configuration has none.
    pub fn start_client(&mut self, config: &MqttConfig, pid: u32, timestamp_ms: u128) -> (p:
        ManagerPlan)
        ensures
            p.generation == next_generation(old(self).generation_spec()),
            final(self).generation_spec() == p.generation,
            !final(self).manual_disconnect_spec(),
            final(self).running_spec(),
            p.options@ == manager_options(*config, pid as nat, timestamp_ms as nat),
            p.connecting@ == status_view(MqttState::Connecting, connecting_message(*config), *config),
    {
        self.generation = if self.generation == u64::MAX {
            0
        } else {
            self.generation + 1
        };
        self.manual_disconnect = false;
        let options = manager_connect_options(config, pid, timestamp_ms);
        let mut message = String::from_str("正在连接 ");
        message.append(config.host.as_str());
        message.append(":");
        push_decimal(&mut message, config.port as u128);
        let connecting = make_status(MqttState::Connecting, message, config);
        self.running = true;
        ManagerPlan { generation: self.generation, options, connecting }
    }

    /// Handles one event of the event loop of generation `loop_generation`
    /// for the broker of `config`: it is published only while a client
    /// runs and that generation is current (see `published_by`), and a
    /// stopped manager publishes nothing.
    pub fn step_event(&self, loop_generation: u64, event: ManagerEvent, config: &MqttConfig) -> (r:
        ManagerStep)
        ensures
            opt_status(r.publish) == published_while(
                self.running_spec(),
                loop_generation,
                self.generation_spec(),
                self.manual_disconnect_spec(),
                event,
                *config,
            ),
            r.stop == (!self.running_spec() || event_report(
                self.manual_disconnect_spec(),
                event,
                *config,
            ).1),
    {
        let step = on_manager_event(loop_generation, self.generation, self.manual_disconnect, event, config);
        if self.running {
            step
        } else {
            ManagerStep { publish: None, stop: true }
        }
    }

    /// Ends a connect with the outcome of the wait. A failure stops the
    /// client and publishes the failure on the broker of `config`.
    pub fn finish_connect(&mut self, waited: Result<(), String>, config: &MqttConfig) -> (r: (
        Result<(), String>,
        StopPlan,
    ))
        ensures
            final(self).generation_spec() == old(self).generation_spec(),
            waited is Ok ==> r.0 is Ok && !r.1.stop_client && r.1.publish is None && final(self).manual_disconnect_spec() == old(self).manual_disconnect_spec() && final(self).running_spec() == old(self).running_spec(),
            waited matches Err(e) ==> r.0 == waited && r.1.stop_client == old(self).running_spec()
                && r.1.publish is Some && r.1.publish->0@ == status_view(
                MqttState::Disconnected,
                e@,
                *config,
            ) && final(self).manual_disconnect_spec() && !final(self).running_spec(),
    {
        match waited {
            Ok(()) => (Ok(()), StopPlan { stop_client: false, publish: None }),
            Err(e) => {
                let stop_client = self.stop();
                let status = make_status(MqttState::Disconnected, e.clone(), config);
                (Err(e), StopPlan { stop_client, publish: Some(status) })
            },
        }
    }

    /// Disconnects: the client is stopped (marked as a manual stop) and
    /// the disconnected status, with no broker, is published.
    pub fn disconnect(&mut self) -> (p: StopPlan)
        ensures
            final(self).generation_spec() == old(self).generation_spec(),
            final(self).manual_disconnect_spec(),
            !final(self).running_spec(),
            p.stop_client == old(self).running_spec(),
            p.publish is Some && p.publish->0@ == (MqttStatusView {
                state: MqttState::Disconnected,
                message: Some("已断开连接"@),
                host: None,
                port: None,
            }),
    {
        let stop_client = self.stop();
        let status = MqttStatus {
            state: MqttState::Disconnected,
            message: Some(String::from_str("已断开连接")),
            host: None,
            port: None,
        };
        StopPlan { stop_client, publish: Some(status) }
    }
}


/// The generation after `k` further connects that start from generation
/// `g`.
pub open spec fn generation_after(g: u64, k: nat) -> u64
    decreases k,
{
    if k == 0 {
        g
    } else {
        next_generation(generation_after(g, (k - 1) as nat))
    }
}

proof fn generation_after_wraps(g: u64, k: nat)
    ensures
        generation_after(g, k) as int == (g as int + k as int) % 0x1_0000_0000_0000_0000,
    decreases k,
{
    if k > 0 {
        generation_after_wraps(g, (k - 1) as nat);
        let prev = generation_after(g, (k - 1) as nat);
        assert(prev as int == (g as int + k - 1) % 0x1_0000_0000_0000_0000);
        vstd::arithmetic::div_mod::lemma_add_mod_noop(g as int + k - 1, 1, 0x1_0000_0000_0000_0000);
    }
}

/// A generation is not reached again by fewer than 2^64 further steps.
pub proof fn later_generation_differs(g: u64, k: nat)
    requires
        0 < k < 0x1_0000_0000_0000_0000,
    ensures
        generation_after(g, k) != g,
{
    generation_after_wraps(g, k);
    assert((g as int + k as int) % 0x1_0000_0000_0000_0000 != g as int) by (nonlinear_arith)
        requires
            0 < k < 0x1_0000_0000_0000_0000,
            0 <= g < 0x1_0000_0000_0000_0000,
    ;
}

/// Once a connect has been followed by further connects (fewer than
/// 2^64 of them), nothing its event loop sees is published any more.
pub proof fn superseded_loop_is_silent(
    g: u64,
    k: nat,
    manual_disconnect: bool,
    event: ManagerEvent,
    config: MqttConfig,
)
    requires
        0 < k < 0x1_0000_0000_0000_0000,
    ensures
        published_by(g, generation_after(g, k), manual_disconnect, event, config) is None,
{
    later_generation_differs(g, k);
}

/// After a manual disconnect, a failure of the current connection is
/// published as a plain disconnect on its broker, whatever the error.
pub proof fn manual_stop_reads_as_disconnect(g: u64, error: String, config: MqttConfig)
    ensures
        published_by(g, g, true, ManagerEvent::Failed(error), config) == Some(
            status_view(MqttState::Disconnected, "已断开连接"@, config),
        ),
{
}


/// After a disconnect (or a failed connect) no client runs, and until the
/// next `start_client` no event of any earlier event loop is published,
/// whatever its generation.
pub proof fn stopped_manager_is_silent(
    loop_generation: u64,
    current_generation: u64,
    manual_disconnect: bool,
    event: ManagerEvent,
    config: MqttConfig,
)
    ensures
        published_while(
            false,
            loop_generation,
            current_generation,
            manual_disconnect,
            event,
            config,
        ) is None,
{
}


/// The broker's acknowledgement decides the state a connect reports: for
/// the current generation, an acknowledgement is published as connected
/// exactly when the broker accepted the connect; a refused one is published
/// as disconnected on the configured broker, with `连接被拒绝: ` and the
/// return code, and ends the event loop. Only an accepted acknowledgement
/// is ever published as connected.
pub proof fn acknowledgement_decides_connected(
    generation: u64,
    manual_disconnect: bool,
    event: ManagerEvent,
    config: MqttConfig,
)
    ensures
        event matches ManagerEvent::ConnAck { accepted, code } ==> (published_by(
            generation,
            generation,
            manual_disconnect,
            event,
            config,
        ) matches Some(s) && s.host == Some(config.host@) && s.port == Some(config.port) && (
        s.state == MqttState::Connected <==> accepted) && (!accepted ==> s.state
            == MqttState::Disconnected && s.message == Some("连接被拒绝: "@ + code@))
            && event_report(manual_disconnect, event, config).1 == !accepted),
        published_by(generation, generation, manual_disconnect, event, config) matches Some(s)
            && s.state == MqttState::Connected ==> event matches ManagerEvent::ConnAck {
            accepted: true,
            ..
        },
        event matches ManagerEvent::ConnAck { accepted, code } && accepted ==> published_by(
            generation,
            generation,
            manual_disconnect,
            event,
            config,
        ) == Some(
            MqttStatusView {
                state: MqttState::Connected,
                message: Some("已连接"@),
                host: Some(config.host@),
                port: Some(config.port),
            },
        ) && !event_report(manual_disconnect, event, config).1,
        event matches ManagerEvent::Failed(e) ==> published_by(
            generation,
            generation,
            manual_disconnect,
            event,
            config,
        ) == Some(
            MqttStatusView {
                state: MqttState::Disconnected,
                message: Some(
                    if manual_disconnect {
                        "已断开连接"@
                    } else {
                        "连接异常: "@ + e@
                    },
                ),
                host: Some(config.host@),
                port: Some(config.port),
            },
        ) && event_report(manual_disconnect, event, config).1,
        event is Other ==> published_by(generation, generation, manual_disconnect, event, config)
            is None && !event_report(manual_disconnect, event, config).1,
{
}

/// Credentials go with every user name that is not blank: the options
/// carry the user name and the password, whatever the password (the empty
/// one too), and none only when the user name is blank.
pub proof fn manager_credentials_follow_user_name(config: MqttConfig, pid: nat, timestamp_ms: nat)
    ensures
        manager_options(config, pid, timestamp_ms).credentials is Some <==> !is_blank(
            config.username@,
        ),
        !is_blank(config.username@) ==> manager_options(config, pid, timestamp_ms).credentials
            == Some((config.username@, config.password@)),
        config.password@.len() == 0 && !is_blank(config.username@) ==> manager_options(
            config,
            pid,
            timestamp_ms,
        ).credentials == Some((config.username@, Seq::<char>::empty())),
        manager_options(config, pid, timestamp_ms).host == config.host@,
        manager_options(config, pid, timestamp_ms).port == config.port,
        manager_options(config, pid, timestamp_ms).keep_alive_secs == 30,
        config.client_id matches Some(id) ==> (!is_blank(id@) ==> manager_options(
            config,
            pid,
            timestamp_ms,
        ).client_id == id@),
        (config.client_id is None || is_blank(config.client_id->0@)) ==> manager_options(
            config,
            pid,
            timestamp_ms,
        ).client_id == "mqtt-web-"@ + decimal(pid) + "-"@ + decimal(timestamp_ms),
{
}

/// Only the event loop of the current generation publishes, and only
/// while the manager runs; whether a loop stops does not depend on the
/// generations.
pub proof fn only_current_loop_publishes(
    running: bool,
    loop_generation: u64,
    current_generation: u64,
    manual_disconnect: bool,
    event: ManagerEvent,
    config: MqttConfig,
)
    ensures
        loop_generation != current_generation ==> published_by(
            loop_generation,
            current_generation,
            manual_disconnect,
            event,
            config,
        ) is None,
        running && loop_generation == current_generation ==> published_while(
            running,
            loop_generation,
            current_generation,
            manual_disconnect,
            event,
            config,
        ) == event_report(manual_disconnect, event, config).0,
        !running ==> published_while(
            running,
            loop_generation,
            current_generation,
            manual_disconnect,
            event,
            config,
        ) is None,
{
}

} // verus!
