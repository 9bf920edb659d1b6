use mqtt_web::domain::mqtt::{MqttConfig as ProfileConfig, MqttState, MqttStatus};
use mqtt_web::domain::{
    ConnectionState, LoginRequest, MqttConfig, SanitizedConfig, StatusResponse, SuccessResponse,
};

fn config(host: &str, port: u16, client_id: Option<&str>) -> MqttConfig {
    MqttConfig {
        host: host.to_string(),
        port,
        username: "user".to_string(),
        password: "secret".to_string(),
        client_id: client_id.map(|s| s.to_string()),
    }
}

#[test]
fn validate_accepts_host_and_port() {
    assert_eq!(config("broker.local", 1883, None).validate(), Ok(()));
}

#[test]
fn validate_rejects_empty_host_first() {
    assert_eq!(config("", 0, None).validate(), Err("MQTT 地址不可为空".to_string()));
}

#[test]
fn validate_rejects_port_zero() {
    assert_eq!(config("broker", 0, None).validate(), Err("端口号不能为 0".to_string()));
}

#[test]
fn validate_allows_whitespace_host_in_this_model() {
    assert_eq!(config("  ", 1883, None).validate(), Ok(()));
}

#[test]
fn generate_client_id_fills_missing_id() {
    let mut c = config("broker", 1883, None);
    c.generate_client_id(4242, 1_700_000_000_123);
    assert_eq!(c.client_id.as_deref(), Some("mqtt-web-4242-1700000000123"));
    assert_eq!(c.host, "broker");
    assert_eq!(c.password, "secret");
}

#[test]
fn generate_client_id_fills_empty_id() {
    let mut c = config("broker", 1883, Some(""));
    c.generate_client_id(7, 0);
    assert_eq!(c.client_id.as_deref(), Some("mqtt-web-7-0"));
}

#[test]
fn generate_client_id_keeps_given_id() {
    let mut c = config("broker", 1883, Some("mine"));
    c.generate_client_id(7, 9);
    assert_eq!(c.client_id.as_deref(), Some("mine"));
}

#[test]
fn clone_keeps_every_field() {
    let c = config("broker", 1883, Some("id"));
    let d = c.clone();
    assert_eq!((d.host, d.port, d.username, d.password, d.client_id), (c.host, c.port, c.username, c.password, c.client_id));
}

#[test]
fn sanitized_config_drops_password() {
    let s = SanitizedConfig::from_config(config("broker", 8883, Some("id")));
    assert_eq!(s.host, "broker");
    assert_eq!(s.port, 8883);
    assert_eq!(s.username, "user");
    assert_eq!(s.client_id.as_deref(), Some("id"));
}

#[test]
fn connection_state_labels() {
    assert_eq!(ConnectionState::Connected.label(), "已连接");
    assert_eq!(ConnectionState::Connecting.label(), "连接中");
    assert_eq!(ConnectionState::Disconnected.label(), "已断开");
}

#[test]
fn success_response_is_always_successful() {
    let r = SuccessResponse::new("端口号不能为 0".to_string());
    assert!(r.success);
    assert_eq!(r.message, "端口号不能为 0");
}

#[test]
fn status_response_clone() {
    let s = StatusResponse {
        state: ConnectionState::Connecting,
        message: "连接中".to_string(),
        host: Some("h".to_string()),
        port: Some(1),
    };
    let t = s.clone();
    assert_eq!(t.state, ConnectionState::Connecting);
    assert_eq!(t.host.as_deref(), Some("h"));
    assert_eq!(t.port, Some(1));
}

#[test]
fn login_request_fields() {
    let r = LoginRequest {
        host: "h".to_string(),
        port: 1,
        username: String::new(),
        password: None,
        client_id: None,
    };
    assert!(r.password.is_none());
}

fn profile(host: &str, port: u16) -> ProfileConfig {
    ProfileConfig {
        host: host.to_string(),
        port,
        username: String::new(),
        password: String::new(),
        client_id: None,
    }
}

#[test]
fn profile_validate_trims_host() {
    assert_eq!(profile(" \t\u{3000}", 1883).validate(), Err("MQTT地址不可为空".to_string()));
    assert_eq!(profile("", 1883).validate(), Err("MQTT地址不可为空".to_string()));
}

#[test]
fn profile_validate_rejects_port_zero() {
    assert_eq!(profile("broker", 0).validate(), Err("MQTT端口不可为0".to_string()));
}

#[test]
fn profile_validate_allows_empty_credentials() {
    assert_eq!(profile(" broker ", 1).validate(), Ok(()));
}

#[test]
fn mqtt_status_clone() {
    let s = MqttStatus {
        state: MqttState::Connected,
        message: None,
        host: Some("h".to_string()),
        port: None,
    };
    let t = s.clone();
    assert_eq!(t.state, MqttState::Connected);
    assert_eq!(t.message, None);
    assert_eq!(t.host.as_deref(), Some("h"));
}
