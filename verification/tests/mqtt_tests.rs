use mqtt_web::domain::mqtt::{MqttConfig as ProfileConfig, MqttState, MqttStatus};
use mqtt_web::domain::{ConnectionState, MqttConfig, StatusResponse};
use mqtt_web::error::AppError;
use mqtt_web::mqtt::manager::{
    initial_status as manager_initial_status, make_status, manager_connect_options, on_manager_event,
    wait_step, ManagerEvent, ManagerState, WaitEvent,
};
use mqtt_web::mqtt::options::ConnectOptions;
use mqtt_web::mqtt::{
    connect_options, connect_wait_step, initial_status, is_connected, on_loop_event,
    ConnectWait, ConnectWaitEvent, LoopEvent, SessionState,
};

fn status(state: ConnectionState, host: Option<&str>, port: Option<u16>) -> StatusResponse {
    StatusResponse {
        state,
        message: "m".to_string(),
        host: host.map(|h| h.to_string()),
        port,
    }
}

fn config(username: &str, client_id: Option<&str>) -> MqttConfig {
    MqttConfig {
        host: "broker".to_string(),
        port: 1883,
        username: username.to_string(),
        password: "pw".to_string(),
        client_id: client_id.map(|s| s.to_string()),
    }
}

#[test]
fn connack_while_connecting_publishes_connected() {
    let step = on_loop_event(&status(ConnectionState::Connecting, Some("b"), Some(1)), LoopEvent::ConnAck);
    assert!(!step.stop);
    let s = step.publish.unwrap();
    assert_eq!(s.state, ConnectionState::Connected);
    assert_eq!(s.message, "已连接");
    assert_eq!(s.host.as_deref(), Some("b"));
    assert_eq!(s.port, Some(1));
}

#[test]
fn connack_otherwise_publishes_nothing() {
    for st in [ConnectionState::Connected, ConnectionState::Disconnected] {
        let step = on_loop_event(&status(st, None, None), LoopEvent::ConnAck);
        assert!(step.publish.is_none());
        assert!(!step.stop);
    }
}

#[test]
fn disconnect_event_publishes_closed() {
    let step = on_loop_event(&status(ConnectionState::Connected, Some("b"), Some(1)), LoopEvent::Disconnect);
    let s = step.publish.unwrap();
    assert_eq!((s.state, s.message.as_str(), s.host, s.port), (ConnectionState::Disconnected, "已断开", None, None));
    assert!(!step.stop);
}

#[test]
fn failure_event_publishes_error_and_stops() {
    let step = on_loop_event(&status(ConnectionState::Connected, None, None), LoopEvent::Failed("refused".to_string()));
    assert!(step.stop);
    assert_eq!(step.publish.unwrap().message, "错误：refused");
}

#[test]
fn other_events_change_nothing() {
    for ev in [LoopEvent::Publish, LoopEvent::Other] {
        let step = on_loop_event(&status(ConnectionState::Connecting, None, None), ev);
        assert!(step.publish.is_none() && !step.stop);
    }
}

#[test]
fn initial_status_is_disconnected() {
    let s = initial_status();
    assert!(!is_connected(&s));
    assert_eq!((s.state, s.message.as_str(), s.host, s.port), (ConnectionState::Disconnected, "未连接", None, None));
    assert!(is_connected(&status(ConnectionState::Connected, None, None)));
}

#[test]
fn session_options_use_configured_id_and_credentials() {
    let o = connect_options(&config("user", Some("cid")), 1, 2);
    assert_eq!(o.client_id, "cid");
    assert_eq!(o.credentials, Some(("user".to_string(), "pw".to_string())));
    assert_eq!((o.host.as_str(), o.port, o.keep_alive_secs), ("broker", 1883, 60));
}

#[test]
fn session_options_generate_id_and_allow_anonymous() {
    let o = connect_options(&config("", None), 99, 1234);
    assert_eq!(o.client_id, "mqtt-web-99-1234");
    assert_eq!(o.credentials, None);
}

#[test]
fn session_connect_then_disconnect() {
    let mut s = SessionState::new();
    let plan = s.begin_connect(&config("u", None), 1, 2);
    assert!(!plan.disconnect.shutdown_client);
    assert!(plan.disconnect.publish.is_none());
    assert_eq!(plan.connecting.state, ConnectionState::Connecting);
    assert_eq!(plan.connecting.message, "连接中");
    assert_eq!(plan.connecting.host.as_deref(), Some("broker"));
    assert_eq!(plan.connecting.port, Some(1883));
    assert_eq!(s.generation(), 1);
    assert_eq!(s.finish_connect(ConnectWait::Acknowledged), Ok(()));
    assert!(s.has_client());
    let again = s.begin_connect(&config("u", None), 1, 2);
    assert!(again.disconnect.shutdown_client);
    assert_eq!(again.disconnect.publish.unwrap().message, "已断开");
    assert_eq!(s.generation(), 3);
    assert_eq!(s.finish_connect(ConnectWait::TimedOut), Err(AppError::ConnectionTimeout));
    assert!(!s.has_client());
    let d = s.disconnect();
    assert!(!d.shutdown_client && d.publish.is_none());
    assert_eq!(s.generation(), 3);
}

fn profile(username: &str, client_id: Option<&str>) -> ProfileConfig {
    ProfileConfig {
        host: "broker".to_string(),
        port: 1883,
        username: username.to_string(),
        password: "pw".to_string(),
        client_id: client_id.map(|s| s.to_string()),
    }
}

#[test]
fn manager_options_replace_blank_id_and_skip_blank_user() {
    let o = manager_connect_options(&profile("  ", Some(" ")), 5, 6);
    assert_eq!(o.client_id, "mqtt-web-5-6");
    assert_eq!(o.credentials, None);
    assert_eq!(o.keep_alive_secs, 30);
    let o = manager_connect_options(&profile("u", Some("cid")), 5, 6);
    assert_eq!(o.client_id, "cid");
    assert_eq!(o.credentials, Some(("u".to_string(), "pw".to_string())));
}

#[test]
fn manager_events_of_the_current_generation() {
    let c = profile("u", None);
    let ok = on_manager_event(3, 3, false, ManagerEvent::ConnAck { accepted: true, code: "Success".to_string() }, &c);
    let s = ok.publish.unwrap();
    assert_eq!((s.state, s.message.as_deref()), (MqttState::Connected, Some("已连接")));
    assert_eq!((s.host.as_deref(), s.port), (Some("broker"), Some(1883)));
    assert!(!ok.stop);
    let refused = on_manager_event(3, 3, false, ManagerEvent::ConnAck { accepted: false, code: "BadUserNamePassword".to_string() }, &c);
    assert!(refused.stop);
    assert_eq!(refused.publish.unwrap().message.as_deref(), Some("连接被拒绝: BadUserNamePassword"));
    let failed = on_manager_event(3, 3, false, ManagerEvent::Failed("io".to_string()), &c);
    assert!(failed.stop);
    assert_eq!(failed.publish.unwrap().message.as_deref(), Some("连接异常: io"));
    let manual = on_manager_event(3, 3, true, ManagerEvent::Failed("io".to_string()), &c);
    assert_eq!(manual.publish.unwrap().message.as_deref(), Some("已断开连接"));
    let other = on_manager_event(3, 3, false, ManagerEvent::Other, &c);
    assert!(other.publish.is_none() && !other.stop);
}

#[test]
fn manager_events_of_a_superseded_generation_are_silent() {
    let c = profile("u", None);
    let step = on_manager_event(3, 4, false, ManagerEvent::ConnAck { accepted: true, code: "Success".to_string() }, &c);
    assert!(step.publish.is_none());
    let step = on_manager_event(3, 5, false, ManagerEvent::Failed("x".to_string()), &c);
    assert!(step.publish.is_none());
    assert!(step.stop);
}

#[test]
fn wait_steps() {
    let st = |state, message: Option<&str>| MqttStatus { state, message: message.map(|m| m.to_string()), host: None, port: None };
    assert_eq!(wait_step(WaitEvent::Status(st(MqttState::Connected, None))), Some(Ok(())));
    assert_eq!(wait_step(WaitEvent::Status(st(MqttState::Connecting, None))), None);
    assert_eq!(wait_step(WaitEvent::Status(st(MqttState::Disconnected, Some("坏")))), Some(Err("坏".to_string())));
    assert_eq!(wait_step(WaitEvent::Status(st(MqttState::Disconnected, None))), Some(Err("连接失败".to_string())));
    assert_eq!(wait_step(WaitEvent::TimedOut), Some(Err("连接超时".to_string())));
    assert_eq!(wait_step(WaitEvent::ChannelClosed), Some(Err("状态通道已关闭".to_string())));
}

#[test]
fn manager_connect_rejects_invalid_config_without_change() {
    let mut m = ManagerState::new();
    let mut bad = profile("u", None);
    bad.host = " ".to_string();
    assert_eq!(m.begin_connect(&bad).err(), Some("MQTT地址不可为空".to_string()));
    assert_eq!((m.generation(), m.manual_disconnect(), m.running()), (0, false, false));
}

#[test]
fn manager_connect_plan_and_failure() {
    let mut m = ManagerState::new();
    let c = profile("u", None);
    assert_eq!(m.begin_connect(&c), Ok(false));
    assert!(m.manual_disconnect());
    let plan = m.start_client(&c, 1, 2);
    assert_eq!(plan.generation, 1);
    assert_eq!(plan.connecting.state, MqttState::Connecting);
    assert_eq!(plan.connecting.message.as_deref(), Some("正在连接 broker:1883"));
    assert_eq!(plan.options.client_id, "mqtt-web-1-2");
    assert!(m.running() && !m.manual_disconnect());
    let (r, stop) = m.finish_connect(Err("连接超时".to_string()), &c);
    assert_eq!(r, Err("连接超时".to_string()));
    assert!(stop.stop_client);
    let s = stop.publish.unwrap();
    assert_eq!((s.state, s.message.as_deref(), s.host.as_deref()), (MqttState::Disconnected, Some("连接超时"), Some("broker")));
    assert!(m.manual_disconnect() && !m.running());
    assert_eq!(m.begin_connect(&c), Ok(false));
    let plan2 = m.start_client(&c, 1, 2);
    assert_eq!(plan2.generation, 2);
    assert_eq!(m.begin_connect(&c), Ok(true));
    let plan3 = m.start_client(&c, 1, 2);
    assert_eq!(plan3.generation, 3);
    let (r, stop) = m.finish_connect(Ok(()), &c);
    assert_eq!(r, Ok(()));
    assert!(!stop.stop_client && stop.publish.is_none());
    let d = m.disconnect();
    assert!(d.stop_client);
    let s = d.publish.unwrap();
    assert_eq!((s.state, s.message.as_deref(), s.host, s.port), (MqttState::Disconnected, Some("已断开连接"), None, None));
    assert!(m.manual_disconnect());
}

#[test]
fn manager_status_helpers() {
    let s = make_status(MqttState::Connecting, "x".to_string(), &profile("u", None));
    assert_eq!((s.host.as_deref(), s.port, s.message.as_deref()), (Some("broker"), Some(1883), Some("x")));
    let i = manager_initial_status();
    assert_eq!((i.state, i.message.as_deref()), (MqttState::Disconnected, Some("未连接")));
}

#[test]
fn options_reach_rumqttc() {
    let o = ConnectOptions {
        client_id: "cid".to_string(),
        host: "broker".to_string(),
        port: 1884,
        credentials: Some(("u".to_string(), "p".to_string())),
        keep_alive_secs: 30,
    };
    let m = o.to_mqtt_options();
    assert_eq!(m.client_id(), "cid");
    assert_eq!(m.broker_address(), ("broker".to_string(), 1884));
    assert_eq!(m.credentials(), Some(("u".to_string(), "p".to_string())));
    assert_eq!(m.keep_alive(), std::time::Duration::from_secs(30));
    let anonymous = ConnectOptions { credentials: None, ..o_clone() }.to_mqtt_options();
    assert_eq!(anonymous.credentials(), None);
}

fn o_clone() -> ConnectOptions {
    ConnectOptions {
        client_id: "cid".to_string(),
        host: "broker".to_string(),
        port: 1884,
        credentials: None,
        keep_alive_secs: 60,
    }
}

#[test]
fn acknowledged_connect_shows_the_broker_connected() {
    let mut s = SessionState::new();
    let plan = s.begin_connect(&config("u", None), 1, 2);
    let step = on_loop_event(&plan.connecting, LoopEvent::ConnAck);
    let shown = step.publish.unwrap();
    assert_eq!(shown.state, ConnectionState::Connected);
    assert_eq!(shown.message, "已连接");
    assert_eq!((shown.host.as_deref(), shown.port), (Some("broker"), Some(1883)));
}

#[test]
fn connect_waits_for_the_acknowledgement() {
    let st = |state| status(state, Some("b"), Some(1));
    assert_eq!(connect_wait_step(ConnectWaitEvent::Status(st(ConnectionState::Connecting))), None);
    assert_eq!(connect_wait_step(ConnectWaitEvent::Status(st(ConnectionState::Disconnected))), None);
    assert_eq!(
        connect_wait_step(ConnectWaitEvent::Status(st(ConnectionState::Connected))),
        Some(ConnectWait::Acknowledged)
    );
    assert_eq!(connect_wait_step(ConnectWaitEvent::TimedOut), Some(ConnectWait::TimedOut));
}

#[test]
fn stopped_manager_publishes_nothing() {
    let c = profile("u", None);
    let mut m = ManagerState::new();
    assert_eq!(m.begin_connect(&c), Ok(false));
    let plan = m.start_client(&c, 1, 2);
    let ev = || ManagerEvent::ConnAck { accepted: true, code: "Success".to_string() };
    assert!(m.step_event(plan.generation, ev(), &c).publish.is_some());
    m.disconnect();
    let step = m.step_event(plan.generation, ManagerEvent::Failed("closed".to_string()), &c);
    assert!(step.publish.is_none());
    assert!(step.stop);
    let step = m.step_event(plan.generation, ev(), &c);
    assert!(step.publish.is_none() && step.stop);
}
