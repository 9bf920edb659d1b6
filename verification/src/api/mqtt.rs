//! The decisions behind the endpoints of the second connection manager,
//! which keeps its configuration in the JSON configuration store.
use crate::domain::mqtt::MqttConfig;
use vstd::prelude::*;

verus! {

/// The body of a login request. A missing password (`None`) asks to reuse
/// the stored one; an empty one means an anonymous login.
#[derive(Debug)]
pub struct LoginRequest {
    pub host: String,
    pub port: u16,
    pub username: String,
    pub password: Option<String>,
    pub client_id: Option<String>,
}

/// A stored configuration as it is shown: everything but the password.
#[derive(Debug)]
pub struct SafeMqttConfig {
    pub host: String,
    pub port: u16,
    pub username: String,
    pub client_id: Option<String>,
}

/// The answer to a request for the stored configuration.
#[derive(Debug)]
pub struct ConfigResponse {
    pub saved: bool,
    pub config: Option<SafeMqttConfig>,
}

/// The answer to a login or a logout.
#[derive(Debug)]
pub struct LoginResponse {
    pub success: bool,
    pub message: String,
}

/// The answer to `GET /config`: the stored configuration without its
/// password, and whether there is one.
pub fn config_response(loaded: Option<MqttConfig>) -> (r: ConfigResponse)
    ensures
        r.saved == loaded is Some,
        loaded is None ==> r.config is None,
        loaded matches Some(c) ==> r.config is Some && r.config->0.host == c.host
            && r.config->0.port == c.port && r.config->0.username == c.username
            && r.config->0.client_id == c.client_id,
{
    let safe = match loaded {
        Some(c) => Some(
            SafeMqttConfig { host: c.host, port: c.port, username: c.username, client_id: c.client_id },
        ),
        None => None,
    };
    ConfigResponse { saved: safe.is_some(), config: safe }
}

/// The configuration a login asks for. A given password (the empty one
/// too) is used as it is. A missing password reuses the stored one when
/// the stored configuration is for the same host, port and user name, and
/// is empty otherwise. The client identifier is the request's.
pub open spec fn requested_config(c: MqttConfig, req: LoginRequest, stored: Option<MqttConfig>) -> bool {
    &&& c.host == req.host
    &&& c.port == req.port
    &&& c.username == req.username
    &&& c.client_id == req.client_id
    &&& match req.password {
        Some(p) => c.password == p,
        None => match stored {
            Some(s) => if s.host@ == req.host@ && s.port == req.port && s.username@
                == req.username@ {
                c.password == s.password
            } else {
                c.password@ == Seq::<char>::empty()
            },
            None => c.password@ == Seq::<char>::empty(),
        },
    }
}

/// The configuration a login asks for (see `requested_config`). `stored`
/// is only looked at when the request has no password.
pub fn login_config(req: LoginRequest, stored: Option<MqttConfig>) -> (c: MqttConfig)
    ensures
        requested_config(c, req, stored),
{
    let password = match req.password {
        Some(p) => p,
        None => match stored {
            Some(s) => if s.host == req.host && s.port == req.port && s.username == req.username {
                s.password
            } else {
                String::new()
            },
            None => String::new(),
        },
    };
    MqttConfig {
        host: req.host,
        port: req.port,
        username: req.username,
        password,
        client_id: req.client_id,
    }
}

/// The answer to a login whose configuration does not validate, if it
/// does not: a failure with the validation message.
pub fn rejection(config: &MqttConfig) -> (r: Option<LoginResponse>)
    ensures
        config.validation_error() is None ==> r is None,
        config.validation_error() matches Some(m) ==> (r matches Some(resp) && !resp.success
            && resp.message@ == m),
{
    match config.validate() {
        Ok(()) => None,
        Err(message) => Some(LoginResponse { success: false, message }),
    }
}

/// The answer to a login once the connect is over: `登录成功` on success,
/// the connect's error message otherwise.
pub fn login_response(connected: Result<(), String>) -> (r: LoginResponse)
    ensures
        connected is Ok ==> r.success && r.message@ == "登录成功"@,
        connected matches Err(m) ==> !r.success && r.message == m,
{
    match connected {
        Ok(()) => LoginResponse { success: true, message: String::from_str("登录成功") },
        Err(message) => LoginResponse { success: false, message },
    }
}

/// The answer to a logout: `已断开连接`.
pub fn logout_response() -> (r: LoginResponse)
    ensures
        r.success && r.message@ == "已断开连接"@,
{
    LoginResponse { success: true, message: String::from_str("已断开连接") }
}


/// What the login handler hands to a login of the second connection
/// manager.
#[derive(Debug)]
pub enum StoreLoginEvent {
    /// The request arrived.
    Start(LoginRequest),
    /// The stored configuration was read (`None` when there is none).
    Loaded(Option<MqttConfig>),
    /// The configuration was written to the store.
    Saved,
    /// The connect is over, with its error message when it failed.
    Connected(Result<(), String>),
}

/// What a login of the second connection manager asks its caller to do
/// next.
#[derive(Debug)]
pub enum StoreLoginAction {
    /// Read the stored configuration, and come back with `Loaded`.
    LoadStored,
    /// Write the configuration to the store, and come back with `Saved`.
    Save(MqttConfig),
    /// Connect to the broker with the configuration, and come back with
    /// `Connected`.
    Connect(MqttConfig),
    /// Answer the request; the login is over.
    Reply(LoginResponse),
}

/// Where a login of the second connection manager stands.
#[derive(Debug)]
pub enum StoreLoginPhase {
    Ready,
    AwaitingStored(LoginRequest),
    AwaitingSave(MqttConfig),
    AwaitingConnect,
    Finished,
}

/// Whether `event` is the one a login in `phase` waits for.
pub open spec fn store_login_expects(phase: StoreLoginPhase, event: StoreLoginEvent) -> bool {
    match phase {
        StoreLoginPhase::Ready => event is Start,
        StoreLoginPhase::AwaitingStored(_) => event is Loaded,
        StoreLoginPhase::AwaitingSave(_) => event is Saved,
        StoreLoginPhase::AwaitingConnect => event is Connected,
        StoreLoginPhase::Finished => false,
    }
}

/// Whether action `a` and phase `phase` are what a login decides once it
/// knows the stored configuration (`stored`, looked at only when the
/// request has no password): the configuration the request asks for is
/// saved when it validates, and refused with its validation message when
/// it does not.
pub open spec fn store_login_decided(
    a: StoreLoginAction,
    phase: StoreLoginPhase,
    req: LoginRequest,
    stored: Option<MqttConfig>,
) -> bool {
    match a {
        StoreLoginAction::Save(c) => requested_config(c, req, stored) && c.validation_error() is None
            && phase == StoreLoginPhase::AwaitingSave(c),
        StoreLoginAction::Reply(resp) => exists|c: MqttConfig|
            #[trigger] requested_config(c, req, stored) && c.validation_error() == Some(resp.message@)
                && !resp.success && phase is Finished,
        _ => false,
    }
}

/// A login of the second connection manager in progress: `POST /login`.
/// The stored configuration is read only when the request has no
/// password; the configuration the request asks for (see
/// `requested_config`) is refused when it does not validate, and
/// otherwise saved and then connected to.
#[derive(Debug)]
pub struct StoreLoginFlow {
    phase: StoreLoginPhase,
}

impl StoreLoginFlow {
    /// Where the login stands.
    pub closed spec fn phase_spec(&self) -> StoreLoginPhase {
        self.phase
    }

    /// A login that waits for its request.
    pub fn new() -> (f: StoreLoginFlow)
        ensures
            f.phase_spec() is Ready,
    {
        StoreLoginFlow { phase: StoreLoginPhase::Ready }
    }

    /// Whether `event` is the one the login waits for.
    pub fn accepts(&self, event: &StoreLoginEvent) -> (b: bool)
        ensures
            b == store_login_expects(self.phase_spec(), *event),
    {
        match (&self.phase, event) {
            (StoreLoginPhase::Ready, StoreLoginEvent::Start(_)) => true,
            (StoreLoginPhase::AwaitingStored(_), StoreLoginEvent::Loaded(_)) => true,
            (StoreLoginPhase::AwaitingSave(_), StoreLoginEvent::Saved) => true,
            (StoreLoginPhase::AwaitingConnect, StoreLoginEvent::Connected(_)) => true,
            _ => false,
        }
    }

    /// Refuses a configuration that does not validate, and otherwise asks
    /// to save it.
    fn check_and_save(&mut self, config: MqttConfig) -> (a: StoreLoginAction)
        ensures
            config.validation_error() matches Some(m) ==> (a matches StoreLoginAction::Reply(resp)
                && !resp.success && resp.message@ == m) && final(self).phase_spec() is Finished,
            config.validation_error() is None ==> a == StoreLoginAction::Save(config)
                && final(self).phase_spec() == StoreLoginPhase::AwaitingSave(config),
    {
        match rejection(&config) {
            Some(resp) => {
                self.phase = StoreLoginPhase::Finished;
                StoreLoginAction::Reply(resp)
            },
            None => {
                let copy = config.clone();
                self.phase = StoreLoginPhase::AwaitingSave(config);
                StoreLoginAction::Save(copy)
            },
        }
    }

    /// Goes one step on: takes the event the login waits for and says what
    /// to do next.
    pub fn step(&mut self, event: StoreLoginEvent) -> (a: StoreLoginAction)
        requires
            store_login_expects(old(self).phase_spec(), event),
        ensures
            match (old(self).phase_spec(), event) {
                (StoreLoginPhase::Ready, StoreLoginEvent::Start(req)) => match req.password {
                    None => a is LoadStored && final(self).phase_spec()
                        == StoreLoginPhase::AwaitingStored(req),
                    Some(_) => store_login_decided(a, final(self).phase_spec(), req, None),
                },
                (StoreLoginPhase::AwaitingStored(req), StoreLoginEvent::Loaded(stored)) =>
                    store_login_decided(a, final(self).phase_spec(), req, stored),
                (StoreLoginPhase::AwaitingSave(c), StoreLoginEvent::Saved) => a
                    == StoreLoginAction::Connect(c) && final(self).phase_spec() is AwaitingConnect,
                (StoreLoginPhase::AwaitingConnect, StoreLoginEvent::Connected(r)) => (a matches StoreLoginAction::Reply(
                    resp,
                ) && (r is Ok ==> resp.success && resp.message@ == "登录成功"@) && (r matches Err(
                    m,
                ) ==> !resp.success && resp.message == m)) && final(self).phase_spec() is Finished,
                _ => false,
            },
    {
        let mut phase = StoreLoginPhase::Finished;
        std::mem::swap(&mut phase, &mut self.phase);
        match (phase, event) {
            (StoreLoginPhase::Ready, StoreLoginEvent::Start(req)) => {
                if req.password.is_none() {
                    self.phase = StoreLoginPhase::AwaitingStored(req);
                    StoreLoginAction::LoadStored
                } else {
                    let ghost request = req;
                    let config = login_config(req, None);
                    assert(requested_config(config, request, None));
                    self.check_and_save(config)
                }
            },
            (StoreLoginPhase::AwaitingStored(req), StoreLoginEvent::Loaded(stored)) => {
                let ghost request = req;
                let ghost st = stored;
                let config = login_config(req, stored);
                assert(requested_config(config, request, st));
                self.check_and_save(config)
            },
            (StoreLoginPhase::AwaitingSave(config), StoreLoginEvent::Saved) => {
                self.phase = StoreLoginPhase::AwaitingConnect;
                StoreLoginAction::Connect(config)
            },
            (StoreLoginPhase::AwaitingConnect, StoreLoginEvent::Connected(result)) => {
                StoreLoginAction::Reply(login_response(result))
            },
            _ => StoreLoginAction::LoadStored,
        }
    }
}


/// A stored password is used only for its own broker and user: with no
/// password in the request, a stored configuration whose host, port or
/// user name differs from the request's gives the empty password, whatever
/// was stored; one with the same host, port and user name gives its
/// password. A given password is always the one used.
pub proof fn stored_password_stays_with_its_broker(c: MqttConfig, req: LoginRequest, stored: Option<MqttConfig>)
    requires
        requested_config(c, req, stored),
    ensures
        c.host == req.host && c.port == req.port && c.username == req.username && c.client_id
            == req.client_id,
        req.password matches Some(p) ==> c.password == p,
        req.password is None ==> (stored matches Some(s) && (s.host@ != req.host@ || s.port
            != req.port || s.username@ != req.username@) ==> c.password@ == Seq::<char>::empty()),
        req.password is None ==> (stored matches Some(s) ==> (s.host@ == req.host@ && s.port
            == req.port && s.username@ == req.username@ ==> c.password == s.password)),
        req.password is None && stored is None ==> c.password@ == Seq::<char>::empty(),
        req.password is None && c.password@.len() > 0 ==> (stored matches Some(s) && s.host@
            == req.host@ && s.port == req.port && s.username@ == req.username@),
{
}

} // verus!
