//! The decisions behind the web service's HTTP endpoints: the answer to a
//! request for the saved configuration, the login (which password to use,
//! then save, then connect), and the logout. Talking HTTP, the storage and
//! the broker is left to the caller.
pub mod mqtt;

use crate::domain::{
    generated_client_id, lacks_client_id, ConfigResponse, ConnectionState, LoginRequest,
    MqttConfig, SanitizedConfig, StatusResponse, StatusView, SuccessResponse,
};
use crate::error::AppError;
use vstd::prelude::*;

verus! {

/// The answer to `GET /config`: whether a configuration is saved, and that
/// configuration without its password.
pub fn config_response(loaded: Option<MqttConfig>) -> (r: ConfigResponse)
    ensures
        r.saved == loaded is Some,
        loaded is None ==> r.config is None,
        loaded matches Some(c) ==> r.config is Some && r.config->0.host == c.host
            && r.config->0.port == c.port && r.config->0.username == c.username
            && r.config->0.client_id == c.client_id,
{
    match loaded {
        Some(config) => ConfigResponse {
            saved: true,
            config: Some(SanitizedConfig::from_config(config)),
        },
        None => ConfigResponse { saved: false, config: None },
    }
}

/// Whether a saved configuration is for the broker and user a login
/// request names.
pub open spec fn same_account(saved: MqttConfig, req: LoginRequest) -> bool {
    saved.host@ == req.host@ && saved.port == req.port && saved.username@ == req.username@
}

/// The configuration a login request asks for, before a client identifier
/// is made up. A given password is used as it is (the empty one means an
/// anonymous login). A missing password reuses the saved one when the
/// saved configuration is for the same host, port and user name, and the
/// saved client identifier fills in a missing one; otherwise the password
/// is empty.
pub open spec fn login_config(c: MqttConfig, req: LoginRequest, saved: Option<MqttConfig>) -> bool {
    &&& c.host == req.host
    &&& c.port == req.port
    &&& c.username == req.username
    &&& match req.password {
        Some(p) => c.password == p && c.client_id == req.client_id,
        None => match saved {
            Some(s) => if same_account(s, req) {
                c.password == s.password && c.client_id == (match req.client_id {
                    Some(id) => Some(id),
                    None => s.client_id,
                })
            } else {
                c.password@ == Seq::<char>::empty() && c.client_id == req.client_id
            },
            None => c.password@ == Seq::<char>::empty() && c.client_id == req.client_id,
        },
    }
}

/// The configuration a login request asks for (see `login_config`);
/// `saved` is the saved configuration, `None` when there is none or it
/// cannot be read.
pub fn resolve_login_config(req: LoginRequest, saved: Option<MqttConfig>) -> (c: MqttConfig)
    ensures
        login_config(c, req, saved),
{
    let ghost r0 = req;
    match req.password {
        Some(pwd) => MqttConfig {
            host: req.host,
            port: req.port,
            username: req.username,
            password: pwd,
            client_id: req.client_id,
        },
        None => match saved {
            Some(saved_config) => {
                if saved_config.host != req.host || saved_config.port != req.port
                    || saved_config.username != req.username {
                    MqttConfig {
                        host: req.host,
                        port: req.port,
                        username: req.username,
                        password: String::new(),
                        client_id: req.client_id,
                    }
                } else {
                    MqttConfig {
                        host: req.host,
                        port: req.port,
                        username: req.username,
                        password: saved_config.password,
                        client_id: match req.client_id {
                            Some(id) => Some(id),
                            None => saved_config.client_id,
                        },
                    }
                }
            },
            None => MqttConfig {
                host: req.host,
                port: req.port,
                username: req.username,
                password: String::new(),
                client_id: req.client_id,
            },
        },
    }
}

/// The configuration a login goes on with: `login_config`, then given a
/// client identifier made from `pid` and `timestamp_ms` when it has none
/// or an empty one.
pub open spec fn login_config_with_id(
    c: MqttConfig,
    req: LoginRequest,
    saved: Option<MqttConfig>,
    pid: u32,
    timestamp_ms: u128,
) -> bool {
    exists|base: MqttConfig|
        #[trigger] login_config(base, req, saved) && c.host == base.host && c.port == base.port
            && c.username == base.username && c.password == base.password && (lacks_client_id(
            base.client_id,
        ) ==> c.client_id is Some && c.client_id->0@ == generated_client_id(
            pid as nat,
            timestamp_ms as nat,
        )) && (!lacks_client_id(base.client_id) ==> c.client_id == base.client_id)
}

/// How a login is answered: a notice (HTTP 200, with a message), or a
/// failure with an HTTP status and the error text.
#[derive(Debug)]
pub enum LoginReply {
    Notice(SuccessResponse),
    Failure { status: u16, error: String },
}

/// What the login event handler hands to the login.
#[derive(Debug)]
pub enum LoginEvent {
    /// The request arrived; the process id and the time in milliseconds
    /// make a client identifier when one is needed.
    Start { request: LoginRequest, pid: u32, timestamp_ms: u128 },
    /// The saved configuration was read (`None` when there is none or it
    /// could not be read).
    Loaded(Option<MqttConfig>),
    /// The configuration was saved, or saving failed.
    Saved(Result<(), AppError>),
    /// The broker connection was made, or it failed.
    Connected(Result<(), AppError>),
}

/// What the login asks its caller to do next.
#[derive(Debug)]
pub enum LoginAction {
    /// Answer the request; the login is over.
    Reply(LoginReply),
    /// Read the saved configuration, and come back with `Loaded`.
    LoadSaved,
    /// Save the configuration, and come back with `Saved`.
    Save(MqttConfig),
    /// Connect to the broker with the configuration, and come back with
    /// `Connected`.
    Connect(MqttConfig),
    /// Publish the status, then answer the request; the login is over.
    PublishAndReply(StatusResponse, LoginReply),
}

/// Where a login stands.
#[derive(Debug)]
pub enum LoginPhase {
    Ready,
    AwaitingSaved { request: LoginRequest, pid: u32, timestamp_ms: u128 },
    AwaitingSave(MqttConfig),
    AwaitingConnect(MqttConfig),
    Finished,
}

/// Whether `event` is the one a login in `phase` waits for.
pub open spec fn expects(phase: LoginPhase, event: LoginEvent) -> bool {
    match phase {
        LoginPhase::Ready => event is Start,
        LoginPhase::AwaitingSaved { .. } => event is Loaded,
        LoginPhase::AwaitingSave(_) => event is Saved,
        LoginPhase::AwaitingConnect(_) => event is Connected,
        LoginPhase::Finished => false,
    }
}

/// The notice a login answers with when the request names no host or port
/// 0, if it does.
pub open spec fn precheck_message(req: LoginRequest) -> Option<Seq<char>> {
    if req.host@.len() == 0 {
        Some("MQTT 地址不可为空"@)
    } else if req.port == 0 {
        Some("端口号不能为 0"@)
    } else {
        None
    }
}

/// A login in progress: `POST /login`. The request's password decides
/// which configuration to use (see `login_config_with_id`); the
/// configuration is checked, saved, and then connected to. A save failure
/// is answered with HTTP 500, a connect failure with HTTP 502 after the
/// disconnected status is published.
#[derive(Debug)]
pub struct LoginFlow {
    phase: LoginPhase,
}

/// Whether `a` answers with the notice `message`.
pub open spec fn is_notice(a: LoginAction, message: Seq<char>) -> bool {
    a matches LoginAction::Reply(LoginReply::Notice(n)) && n.success && n.message@ == message
}

impl LoginFlow {
    /// Where the login stands.
    pub closed spec fn phase_spec(&self) -> LoginPhase {
        self.phase
    }

    /// A login that waits for its request.
    pub fn new() -> (f: LoginFlow)
        ensures
            f.phase_spec() is Ready,
    {
        LoginFlow { phase: LoginPhase::Ready }
    }

    /// Whether the login is over.
    pub fn is_finished(&self) -> (b: bool)
        ensures
            b == self.phase_spec() is Finished,
    {
        match self.phase {
            LoginPhase::Finished => true,
            _ => false,
        }
    }

    /// Whether `event` is the one the login waits for.
    pub fn accepts(&self, event: &LoginEvent) -> (b: bool)
        ensures
            b == expects(self.phase_spec(), *event),
    {
        match (&self.phase, event) {
            (LoginPhase::Ready, LoginEvent::Start { .. }) => true,
            (LoginPhase::AwaitingSaved { .. }, LoginEvent::Loaded(_)) => true,
            (LoginPhase::AwaitingSave(_), LoginEvent::Saved(_)) => true,
            (LoginPhase::AwaitingConnect(_), LoginEvent::Connected(_)) => true,
            _ => false,
        }
    }

    /// Checks the configuration of a login, then asks to save it.
    fn check_and_save(&mut self, config: MqttConfig) -> (a: LoginAction)
        ensures
            config.validation_error() matches Some(m) ==> is_notice(a, m) && final(self).phase_spec() is Finished,
            config.validation_error() is None ==> a == LoginAction::Save(config) && final(self).phase_spec() == LoginPhase::AwaitingSave(config),
    {
        match config.validate() {
            Err(e) => {
                self.phase = LoginPhase::Finished;
                LoginAction::Reply(LoginReply::Notice(SuccessResponse::new(e)))
            },
            Ok(()) => {
                let copy = config.clone();
                self.phase = LoginPhase::AwaitingSave(config);
                LoginAction::Save(copy)
            },
        }
    }

    /// Goes one step on: takes the event the login waits for and says what
    /// to do next.
    pub fn step(&mut self, event: LoginEvent) -> (a: LoginAction)
        requires
            expects(old(self).phase_spec(), event),
        ensures
            match (old(self).phase_spec(), event) {
                (LoginPhase::Ready, LoginEvent::Start { request, pid, timestamp_ms }) => match precheck_message(request) {
                    Some(m) => is_notice(a, m) && final(self).phase_spec() is Finished,
                    None => match request.password {
                        None => a is LoadSaved && final(self).phase_spec() == (LoginPhase::AwaitingSaved {
                            request,
                            pid,
                            timestamp_ms,
                        }),
                        Some(_) => match a {
                            LoginAction::Save(c) => login_config_with_id(c, request, None, pid, timestamp_ms)
                                && c.validation_error() is None && final(self).phase_spec()
                                == LoginPhase::AwaitingSave(c),
                            LoginAction::Reply(LoginReply::Notice(n)) => exists|c: MqttConfig|
                                #[trigger] login_config_with_id(c, request, None, pid, timestamp_ms)
                                    && c.validation_error() == Some(n.message@) && n.success
                                    && final(self).phase_spec() is Finished,
                            _ => false,
                        },
                    },
                },
                (LoginPhase::AwaitingSaved { request, pid, timestamp_ms }, LoginEvent::Loaded(saved)) => match a {
                    LoginAction::Save(c) => login_config_with_id(c, request, saved, pid, timestamp_ms)
                        && c.validation_error() is None && final(self).phase_spec()
                        == LoginPhase::AwaitingSave(c),
                    LoginAction::Reply(LoginReply::Notice(n)) => exists|c: MqttConfig|
                        #[trigger] login_config_with_id(c, request, saved, pid, timestamp_ms)
                            && c.validation_error() == Some(n.message@) && n.success
                            && final(self).phase_spec() is Finished,
                    _ => false,
                },
                (LoginPhase::AwaitingSave(c), LoginEvent::Saved(Ok(()))) => a == LoginAction::Connect(c)
                    && final(self).phase_spec() == LoginPhase::AwaitingConnect(c),
                (LoginPhase::AwaitingSave(c), LoginEvent::Saved(Err(e))) => (a matches LoginAction::Reply(
                    LoginReply::Failure { status, error },
                ) && status == 500 && error@ == e.message_spec()) && final(self).phase_spec() is Finished,
                (LoginPhase::AwaitingConnect(c), LoginEvent::Connected(Ok(()))) => is_notice(a, "登录成功"@)
                    && final(self).phase_spec() is Finished,
                (LoginPhase::AwaitingConnect(c), LoginEvent::Connected(Err(e))) => (a matches LoginAction::PublishAndReply(
                    s,
                    LoginReply::Failure { status, error },
                ) && s@ == (StatusView {
                    state: ConnectionState::Disconnected,
                    message: "连接失败："@ + e.message_spec(),
                    host: None,
                    port: None,
                }) && status == 502 && error@ == e.message_spec()) && final(self).phase_spec() is Finished,
                _ => false,
            },
    {
        let mut phase = LoginPhase::Finished;
        std::mem::swap(&mut phase, &mut self.phase);
        match (phase, event) {
            (LoginPhase::Ready, LoginEvent::Start { request, pid, timestamp_ms }) => {
                if request.host.as_str().is_empty() {
                    return LoginAction::Reply(
                        LoginReply::Notice(SuccessResponse::new(String::from_str("MQTT 地址不可为空"))),
                    );
                }
                if request.port == 0 {
                    return LoginAction::Reply(
                        LoginReply::Notice(SuccessResponse::new(String::from_str("端口号不能为 0"))),
                    );
                }
                match request.password {
                    None => {
                        self.phase = LoginPhase::AwaitingSaved { request, pid, timestamp_ms };
                        LoginAction::LoadSaved
                    },
                    Some(_) => {
                        let ghost req = request;
                        let mut config = resolve_login_config(request, None);
                        let ghost base = config;
                        config.generate_client_id(pid, timestamp_ms);
                        assert(login_config_with_id(config, req, None, pid, timestamp_ms));
                        self.check_and_save(config)
                    },
                }
            },
            (LoginPhase::AwaitingSaved { request, pid, timestamp_ms }, LoginEvent::Loaded(saved)) => {
                let ghost req = request;
                let ghost sv = saved;
                let mut config = resolve_login_config(request, saved);
                let ghost base = config;
                config.generate_client_id(pid, timestamp_ms);
                assert(login_config_with_id(config, req, sv, pid, timestamp_ms));
                self.check_and_save(config)
            },
            (LoginPhase::AwaitingSave(config), LoginEvent::Saved(result)) => match result {
                Ok(()) => {
                    let copy = config.clone();
                    self.phase = LoginPhase::AwaitingConnect(config);
                    LoginAction::Connect(copy)
                },
                Err(e) => LoginAction::Reply(LoginReply::Failure { status: 500, error: e.message() }),
            },
            (LoginPhase::AwaitingConnect(config), LoginEvent::Connected(result)) => match result {
                Ok(()) => LoginAction::Reply(
                    LoginReply::Notice(SuccessResponse::new(String::from_str("登录成功"))),
                ),
                Err(e) => {
                    let text = e.message();
                    let status = StatusResponse {
                        state: ConnectionState::Disconnected,
                        message: String::from_str("连接失败：").concat(text.as_str()),
                        host: None,
                        port: None,
                    };
                    LoginAction::PublishAndReply(
                        status,
                        LoginReply::Failure { status: 502, error: e.message() },
                    )
                },
            },
            _ => LoginAction::Reply(LoginReply::Failure { status: 500, error: String::new() }),
        }
    }
}

/// How `POST /logout` is answered, given whether the client is connected
/// and, when it is, how the disconnect went: `当前未连接` when it is not
/// connected, `已断开连接` after a disconnect, HTTP 500 with the error
/// text when the disconnect failed.
pub fn logout_reply(connected: bool, disconnected: Result<(), AppError>) -> (r: LoginReply)
    ensures
        !connected ==> (r matches LoginReply::Notice(n) && n.success && n.message@
            == "当前未连接"@),
        connected && disconnected is Ok ==> (r matches LoginReply::Notice(n) && n.success
            && n.message@ == "已断开连接"@),
        connected ==> (disconnected matches Err(e) ==> (r matches LoginReply::Failure {
            status,
            error,
        } && status == 500 && error@ == e.message_spec())),
{
    if !connected {
        return LoginReply::Notice(SuccessResponse::new(String::from_str("当前未连接")));
    }
    match disconnected {
        Ok(()) => LoginReply::Notice(SuccessResponse::new(String::from_str("已断开连接"))),
        Err(e) => LoginReply::Failure { status: 500, error: e.message() },
    }
}


/// A saved password is reused only for its own broker and user: with no
/// password in the request, a saved configuration whose host, port or user
/// name differs from the request's gives the empty password and the
/// request's client identifier, whatever was saved; one with the same
/// host, port and user name gives its password. A given password is always
/// the one used.
pub proof fn saved_password_stays_with_its_broker(c: MqttConfig, req: LoginRequest, saved: Option<MqttConfig>)
    requires
        login_config(c, req, saved),
    ensures
        c.host == req.host && c.port == req.port && c.username == req.username,
        req.password matches Some(p) ==> c.password == p && c.client_id == req.client_id,
        req.password is None ==> (saved matches Some(s) ==> (s.host@ == req.host@ && s.port
            == req.port && s.username@ == req.username@ ==> c.client_id == (match req.client_id {
            Some(id) => Some(id),
            None => s.client_id,
        }))),
        req.password is None ==> (saved matches Some(s) && (s.host@ != req.host@ || s.port
            != req.port || s.username@ != req.username@) ==> c.password@ == Seq::<char>::empty()
            && c.client_id == req.client_id),
        req.password is None ==> (saved matches Some(s) ==> (s.host@ == req.host@ && s.port
            == req.port && s.username@ == req.username@ ==> c.password == s.password)),
        req.password is None && saved is None ==> c.password@ == Seq::<char>::empty()
            && c.client_id == req.client_id,
        req.password is None && c.password@.len() > 0 ==> (saved matches Some(s) && s.host@
            == req.host@ && s.port == req.port && s.username@ == req.username@),
{
}

} // verus!
