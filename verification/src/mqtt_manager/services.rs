//! The broker connection of the configuration manager: the connection
//! state its event loop keeps, and the options its client is started with.
use crate::mqtt::manager::{generation_after, later_generation_differs, next_generation};
use crate::mqtt::options::{ConnectOptions, ConnectOptionsView};
use crate::mqtt_manager::models::MqttConfig;
use crate::primitives::{os_random_bytes, uuid_from_random_bytes, uuid_v4_text};
use vstd::prelude::*;

verus! {

/// The keep-alive interval the client is started with, in seconds.
pub const KEEP_ALIVE_SECS: u64 = 60;

/// How long a connect waits before it looks at the connection state, in
/// milliseconds.
pub const CONNECT_SETTLE_MILLIS: u64 = 500;

/// How long the event loop waits after an error before it polls again, in
/// seconds.
pub const RETRY_DELAY_SECS: u64 = 5;

/// Whether the broker connection is up, and the last connection error.
#[derive(Debug)]
pub struct MqttConnectionState {
    pub connected: bool,
    pub error: Option<String>,
}

impl Clone for MqttConnectionState {
    fn clone(&self) -> (c: Self)
        ensures
            c == *self,
    {
        MqttConnectionState {
            connected: self.connected,
            error: match &self.error {
                Some(e) => Some(e.clone()),
                None => None,
            },
        }
    }
}

impl MqttConnectionState {
    /// Not connected, no error.
    pub fn new() -> (s: Self)
        ensures
            !s.connected,
            s.error is None,
    {
        MqttConnectionState { connected: false, error: None }
    }

    /// The event loop polled successfully: connected, no error.
    pub fn record_success(&mut self)
        ensures
            final(self).connected,
            final(self).error is None,
    {
        self.connected = true;
        self.error = None;
    }

    /// The event loop failed with `error`: not connected, and the error is
    /// kept.
    pub fn record_failure(&mut self, error: String)
        ensures
            !final(self).connected,
            final(self).error == Some(error),
    {
        self.connected = false;
        self.error = Some(error);
    }

    /// The client was disconnected: not connected, no error.
    pub fn clear(&mut self)
        ensures
            !final(self).connected,
            final(self).error is None,
    {
        self.connected = false;
        self.error = None;
    }

    /// How a connect ends once it has waited: success when connected,
    /// otherwise the kept error, or `Unknown connection error` when there
    /// is none.
    pub fn connect_outcome(&self) -> (r: Result<(), String>)
        ensures
            self.connected ==> r is Ok,
            !self.connected ==> r is Err && r->Err_0@ == match self.error {
                Some(e) => e@,
                None => "Unknown connection error"@,
            },
    {
        if self.connected {
            Ok(())
        } else {
            match &self.error {
                Some(e) => Err(e.clone()),
                None => Err(String::from_str("Unknown connection error")),
            }
        }
    }
}

/// The connection state of the service together with the number of the
/// current connect attempt. Every connect and every disconnect starts a new
/// attempt with a cleared state; the event loop of an attempt may change
/// the state only while its attempt is current, and stops once it is not.
#[derive(Debug)]
pub struct ServiceSession {
    attempt: u64,
    state: MqttConnectionState,
}

impl ServiceSession {
    /// The number of the current attempt.
    pub closed spec fn attempt_spec(&self) -> u64 {
        self.attempt
    }

    /// The connection state of the current attempt.
    pub closed spec fn state_spec(&self) -> MqttConnectionState {
        self.state
    }

    /// Attempt 0, not connected, no error.
    pub fn new() -> (s: Self)
        ensures
            s.attempt_spec() == 0,
            !s.state_spec().connected,
            s.state_spec().error is None,
    {
        ServiceSession { attempt: 0, state: MqttConnectionState::new() }
    }

    /// The number of the current attempt.
    pub fn attempt(&self) -> (a: u64)
        ensures
            a == self.attempt_spec(),
    {
        self.attempt
    }

    /// The connection state of the current attempt.
    pub fn state(&self) -> (s: &MqttConnectionState)
        ensures
            *s == self.state_spec(),
    {
        &self.state
    }

    /// Starts a connect: a new attempt begins, not connected and with no
    /// error. The result is the attempt its event loop reports under.
    pub fn begin_attempt(&mut self) -> (a: u64)
        ensures
            a == next_generation(old(self).attempt_spec()),
            final(self).attempt_spec() == a,
            !final(self).state_spec().connected,
            final(self).state_spec().error is None,
    {
        self.attempt = if self.attempt == u64::MAX {
            0
        } else {
            self.attempt + 1
        };
        self.state.clear();
        self.attempt
    }

    /// Records a poll of the event loop of `attempt`: a success connects, a
    /// failure disconnects with its error; the result says whether that
    /// event loop goes on. A poll of an attempt that is no longer current
    /// changes nothing and stops its event loop.
    pub fn record_poll(&mut self, attempt: u64, polled: Result<(), String>) -> (keep_running: bool)
        ensures
            final(self).attempt_spec() == old(self).attempt_spec(),
            keep_running == (attempt == old(self).attempt_spec()),
            attempt != old(self).attempt_spec() ==> final(self).state_spec() == old(self).state_spec(),
            attempt == old(self).attempt_spec() ==> match polled {
                Ok(()) => final(self).state_spec().connected && final(self).state_spec().error is None,
                Err(e) => !final(self).state_spec().connected && final(self).state_spec().error
                    == Some(e),
            },
    {
        if attempt != self.attempt {
            return false;
        }
        match polled {
            Ok(()) => self.state.record_success(),
            Err(e) => self.state.record_failure(e),
        }
        true
    }

    /// Disconnects: a new attempt begins that no event loop reports under,
    /// so every running loop stops at its next poll, and the state is not
    /// connected, with no error.
    pub fn disconnect(&mut self)
        ensures
            final(self).attempt_spec() == next_generation(old(self).attempt_spec()),
            !final(self).state_spec().connected,
            final(self).state_spec().error is None,
    {
        self.begin_attempt();
    }

    /// How the current connect ends once it has waited (see
    /// `MqttConnectionState::connect_outcome`): only the polls of this
    /// attempt count.
    pub fn connect_outcome(&self) -> (r: Result<(), String>)
        ensures
            self.state_spec().connected ==> r is Ok,
            !self.state_spec().connected ==> r is Err && r->Err_0@ == match self.state_spec().error {
                Some(e) => e@,
                None => "Unknown connection error"@,
            },
    {
        self.state.connect_outcome()
    }
}

/// The event loop of an attempt that later connects or disconnects (fewer
/// than 2^64 of them) have followed is no longer current: its polls change
/// nothing and stop it.
pub proof fn superseded_attempt_is_ignored(attempt: u64, k: nat)
    requires
        0 < k < 0x1_0000_0000_0000_0000,
    ensures
        generation_after(attempt, k) != attempt,
{
    later_generation_differs(attempt, k);
}

/// The options the client is started with for the stored configuration
/// `config` and the client identifier `client_id`: the credentials are
/// always given, the port is taken as a `u16` (its low 16 bits), and the
/// keep-alive is 60 seconds.
pub open spec fn service_options(config: MqttConfig, client_id: Seq<char>) -> ConnectOptionsView {
    ConnectOptionsView {
        client_id,
        host: config.host@,
        port: config.port as u16,
        credentials: Some((config.username@, config.password@)),
        keep_alive_secs: KEEP_ALIVE_SECS,
    }
}

/// The options the client is started with (see `service_options`).
pub fn options_with_client_id(config: &MqttConfig, client_id: String) -> (o: ConnectOptions)
    ensures
        o@ == service_options(*config, client_id@),
{
    ConnectOptions {
        client_id,
        host: config.host.clone(),
        port: #[verifier::truncate] (config.port as u16),
        credentials: Some((config.username.clone(), config.password.clone())),
        keep_alive_secs: KEEP_ALIVE_SECS,
    }
}

/// The client identifier a connect uses when the operating system gave it
/// the 16 random bytes `random`: `mqtt_manager_` and the version 4
/// identifier those bytes make.
pub fn client_id_from_random(random: &[u8]) -> (id: String)
    requires
        random@.len() == 16,
    ensures
        id@ == "mqtt_manager_"@ + uuid_v4_text(random@),
        uuid_v4_text(random@).len() == 36,
{
    let uuid = uuid_from_random_bytes(random);
    String::from_str("mqtt_manager_").concat(uuid.as_str())
}

/// The options a connect starts the client with: `service_options` with a
/// fresh client identifier `mqtt_manager_<uuid>` made from 16 random bytes
/// of the operating system. It fails, with the error text, when the
/// operating system supplies no randomness.
pub fn connect_options(config: &MqttConfig) -> (r: Result<ConnectOptions, String>)
    ensures
        r matches Ok(o) ==> exists|random: Seq<u8>|
            random.len() == 16 && uuid_v4_text(random).len() == 36 && o@
                == #[trigger] service_options(*config, "mqtt_manager_"@ + uuid_v4_text(random)),
{
    let random = match os_random_bytes(16) {
        Ok(b) => b,
        Err(e) => {
            return Err(e);
        },
    };
    let client_id = client_id_from_random(random.as_slice());
    let o = options_with_client_id(config, client_id);
    assert(o@ == service_options(*config, "mqtt_manager_"@ + uuid_v4_text(random@)));
    Ok(o)
}

} // verus!
