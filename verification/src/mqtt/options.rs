//! The connection options the managers hand to the MQTT client.
use crate::primitives::{
    mqtt_options_broker, mqtt_options_client_id, mqtt_options_credentials,
    mqtt_options_keep_alive_nanos, mqtt_options_new, mqtt_options_set_credentials,
    mqtt_options_set_keep_alive,
};
use vstd::prelude::*;

verus! {

/// What the MQTT client is started with: its identifier, the broker, the
/// credentials (none for an anonymous login) and the keep-alive interval.
#[derive(Debug)]
pub struct ConnectOptions {
    pub client_id: String,
    pub host: String,
    pub port: u16,
    pub credentials: Option<(String, String)>,
    pub keep_alive_secs: u64,
}

/// Connection options as plain values.
pub struct ConnectOptionsView {
    pub client_id: Seq<char>,
    pub host: Seq<char>,
    pub port: u16,
    pub credentials: Option<(Seq<char>, Seq<char>)>,
    pub keep_alive_secs: u64,
}

impl View for ConnectOptions {
    type V = ConnectOptionsView;

    open spec fn view(&self) -> ConnectOptionsView {
        ConnectOptionsView {
            client_id: self.client_id@,
            host: self.host@,
            port: self.port,
            credentials: match self.credentials {
                Some(c) => Some((c.0@, c.1@)),
                None => None,
            },
            keep_alive_secs: self.keep_alive_secs,
        }
    }
}

impl ConnectOptions {
    /// The `rumqttc` options these connection options describe: the same
    /// client identifier, broker, credentials and keep-alive interval.
    pub fn to_mqtt_options(self) -> (o: rumqttc::MqttOptions)
        ensures
            mqtt_options_client_id(o) == self@.client_id,
            mqtt_options_broker(o) == (self@.host, self@.port),
            mqtt_options_credentials(o) == self@.credentials,
            mqtt_options_keep_alive_nanos(o) == self@.keep_alive_secs as nat * 1_000_000_000,
    {
        let mut options = mqtt_options_new(self.client_id, self.host, self.port);
        match self.credentials {
            Some((username, password)) => mqtt_options_set_credentials(
                &mut options,
                username,
                password,
            ),
            None => {},
        }
        mqtt_options_set_keep_alive(&mut options, self.keep_alive_secs);
        options
    }
}

} // verus!
