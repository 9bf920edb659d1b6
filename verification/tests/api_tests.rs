use mqtt_web::api::mqtt::{
    config_response as store_config_response, login_config, login_response, logout_response,
    rejection, LoginRequest as StoreLoginRequest, StoreLoginAction, StoreLoginEvent,
    StoreLoginFlow,
};
use mqtt_web::api::{
    config_response, logout_reply, resolve_login_config, LoginAction, LoginEvent, LoginFlow,
    LoginReply,
};
use mqtt_web::domain::mqtt::MqttConfig as ProfileConfig;
use mqtt_web::domain::{ConnectionState, LoginRequest, MqttConfig};
use mqtt_web::error::AppError;

fn saved() -> MqttConfig {
    MqttConfig {
        host: "broker".to_string(),
        port: 1883,
        username: "user".to_string(),
        password: "saved-pw".to_string(),
        client_id: Some("saved-id".to_string()),
    }
}

fn request(password: Option<&str>, client_id: Option<&str>) -> LoginRequest {
    LoginRequest {
        host: "broker".to_string(),
        port: 1883,
        username: "user".to_string(),
        password: password.map(|p| p.to_string()),
        client_id: client_id.map(|c| c.to_string()),
    }
}

#[test]
fn config_response_hides_password() {
    let r = config_response(Some(saved()));
    assert!(r.saved);
    let c = r.config.unwrap();
    assert_eq!((c.host.as_str(), c.port, c.username.as_str()), ("broker", 1883, "user"));
    assert_eq!(c.client_id.as_deref(), Some("saved-id"));
    let none = config_response(None);
    assert!(!none.saved && none.config.is_none());
}

#[test]
fn missing_password_reuses_saved_for_same_account() {
    let c = resolve_login_config(request(None, None), Some(saved()));
    assert_eq!(c.password, "saved-pw");
    assert_eq!(c.client_id.as_deref(), Some("saved-id"));
    let c = resolve_login_config(request(None, Some("mine")), Some(saved()));
    assert_eq!(c.client_id.as_deref(), Some("mine"));
}

#[test]
fn missing_password_with_other_account_is_empty() {
    let mut other = request(None, None);
    other.port = 8883;
    let c = resolve_login_config(other, Some(saved()));
    assert_eq!(c.password, "");
    assert_eq!(c.client_id, None);
    let c = resolve_login_config(request(None, None), None);
    assert_eq!(c.password, "");
}

#[test]
fn given_password_is_used_even_when_empty() {
    let c = resolve_login_config(request(Some(""), None), Some(saved()));
    assert_eq!(c.password, "");
    let c = resolve_login_config(request(Some("new"), None), Some(saved()));
    assert_eq!(c.password, "new");
    assert_eq!(c.client_id, None);
}

fn notice(a: LoginAction) -> String {
    match a {
        LoginAction::Reply(LoginReply::Notice(n)) => {
            assert!(n.success);
            n.message
        }
        other => panic!("unexpected {:?}", other),
    }
}

#[test]
fn login_prechecks_host_and_port() {
    let mut f = LoginFlow::new();
    let mut r = request(Some("x"), None);
    r.host = String::new();
    assert_eq!(notice(f.step(LoginEvent::Start { request: r, pid: 1, timestamp_ms: 2 })), "MQTT 地址不可为空");
    assert!(f.is_finished());
    let mut f = LoginFlow::new();
    let mut r = request(Some("x"), None);
    r.port = 0;
    assert_eq!(notice(f.step(LoginEvent::Start { request: r, pid: 1, timestamp_ms: 2 })), "端口号不能为 0");
}

#[test]
fn login_with_saved_password_succeeds() {
    let mut f = LoginFlow::new();
    let start = LoginEvent::Start { request: request(None, None), pid: 10, timestamp_ms: 20 };
    assert!(f.accepts(&start));
    assert!(matches!(f.step(start), LoginAction::LoadSaved));
    let ev = LoginEvent::Loaded(Some(saved()));
    assert!(f.accepts(&ev));
    let config = match f.step(ev) {
        LoginAction::Save(c) => c,
        other => panic!("unexpected {:?}", other),
    };
    assert_eq!(config.password, "saved-pw");
    assert_eq!(config.client_id.as_deref(), Some("saved-id"));
    let connect = match f.step(LoginEvent::Saved(Ok(()))) {
        LoginAction::Connect(c) => c,
        other => panic!("unexpected {:?}", other),
    };
    assert_eq!(connect.host, "broker");
    assert!(!f.accepts(&LoginEvent::Saved(Ok(()))));
    assert_eq!(notice(f.step(LoginEvent::Connected(Ok(())))), "登录成功");
    assert!(f.is_finished());
}

#[test]
fn login_generates_client_id_when_none() {
    let mut f = LoginFlow::new();
    match f.step(LoginEvent::Start { request: request(Some("pw"), None), pid: 10, timestamp_ms: 20 }) {
        LoginAction::Save(c) => {
            assert_eq!(c.client_id.as_deref(), Some("mqtt-web-10-20"));
            assert_eq!(c.password, "pw");
        }
        other => panic!("unexpected {:?}", other),
    }
}

#[test]
fn login_save_failure_is_http_500() {
    let mut f = LoginFlow::new();
    f.step(LoginEvent::Start { request: request(Some("pw"), None), pid: 1, timestamp_ms: 1 });
    match f.step(LoginEvent::Saved(Err(AppError::Io("read-only".to_string())))) {
        LoginAction::Reply(LoginReply::Failure { status, error }) => {
            assert_eq!(status, 500);
            assert_eq!(error, "IO error: read-only");
        }
        other => panic!("unexpected {:?}", other),
    }
    assert!(f.is_finished());
}

#[test]
fn login_connect_failure_publishes_and_is_http_502() {
    let mut f = LoginFlow::new();
    f.step(LoginEvent::Start { request: request(Some("pw"), None), pid: 1, timestamp_ms: 1 });
    f.step(LoginEvent::Saved(Ok(())));
    match f.step(LoginEvent::Connected(Err(AppError::ConnectionTimeout))) {
        LoginAction::PublishAndReply(s, LoginReply::Failure { status, error }) => {
            assert_eq!(s.state, ConnectionState::Disconnected);
            assert_eq!(s.message, "连接失败：Connection timeout");
            assert_eq!((s.host, s.port), (None, None));
            assert_eq!(status, 502);
            assert_eq!(error, "Connection timeout");
        }
        other => panic!("unexpected {:?}", other),
    }
}

#[test]
fn logout_replies() {
    match logout_reply(false, Ok(())) {
        LoginReply::Notice(n) => assert_eq!(n.message, "当前未连接"),
        other => panic!("unexpected {:?}", other),
    }
    match logout_reply(true, Ok(())) {
        LoginReply::Notice(n) => assert_eq!(n.message, "已断开连接"),
        other => panic!("unexpected {:?}", other),
    }
    match logout_reply(true, Err(AppError::DisconnectTimeout)) {
        LoginReply::Failure { status, error } => assert_eq!((status, error.as_str()), (500, "Disconnect timeout")),
        other => panic!("unexpected {:?}", other),
    }
}

fn stored() -> ProfileConfig {
    ProfileConfig {
        host: "broker".to_string(),
        port: 1883,
        username: "user".to_string(),
        password: "stored-pw".to_string(),
        client_id: Some("stored-id".to_string()),
    }
}

fn store_request(password: Option<&str>) -> StoreLoginRequest {
    StoreLoginRequest {
        host: "broker".to_string(),
        port: 1883,
        username: "user".to_string(),
        password: password.map(|p| p.to_string()),
        client_id: None,
    }
}

#[test]
fn store_login_config_password_rules() {
    let c = login_config(store_request(None), Some(stored()));
    assert_eq!(c.password, "stored-pw");
    assert_eq!(c.client_id, None);
    let mut other = store_request(None);
    other.username = "someone".to_string();
    assert_eq!(login_config(other, Some(stored())).password, "");
    assert_eq!(login_config(store_request(Some("")), Some(stored())).password, "");
    assert_eq!(login_config(store_request(None), None).password, "");
}

#[test]
fn store_login_answers() {
    let mut bad = stored();
    bad.port = 0;
    let r = rejection(&bad).unwrap();
    assert!(!r.success);
    assert_eq!(r.message, "MQTT端口不可为0");
    assert!(rejection(&stored()).is_none());
    let ok = login_response(Ok(()));
    assert!(ok.success && ok.message == "登录成功");
    let failed = login_response(Err("连接超时".to_string()));
    assert!(!failed.success && failed.message == "连接超时");
    let out = logout_response();
    assert!(out.success && out.message == "已断开连接");
}

#[test]
fn store_config_response_shows_saved() {
    let r = store_config_response(Some(stored()));
    assert!(r.saved);
    assert_eq!(r.config.unwrap().client_id.as_deref(), Some("stored-id"));
    assert!(!store_config_response(None).saved);
}

fn store_step(flow: &mut StoreLoginFlow, event: StoreLoginEvent) -> StoreLoginAction {
    assert!(flow.accepts(&event));
    flow.step(event)
}

#[test]
fn store_login_reads_store_only_without_password() {
    let mut flow = StoreLoginFlow::new();
    assert!(!flow.accepts(&StoreLoginEvent::Saved));
    let a = store_step(&mut flow, StoreLoginEvent::Start(store_request(None)));
    assert!(matches!(a, StoreLoginAction::LoadStored));
    let a = store_step(&mut flow, StoreLoginEvent::Loaded(Some(stored())));
    let saved = match a {
        StoreLoginAction::Save(c) => c,
        other => panic!("unexpected {:?}", other),
    };
    assert_eq!(saved.password, "stored-pw");
    let a = store_step(&mut flow, StoreLoginEvent::Saved);
    match a {
        StoreLoginAction::Connect(c) => assert_eq!(c.password, "stored-pw"),
        other => panic!("unexpected {:?}", other),
    }
    let a = store_step(&mut flow, StoreLoginEvent::Connected(Ok(())));
    match a {
        StoreLoginAction::Reply(r) => assert!(r.success && r.message == "登录成功"),
        other => panic!("unexpected {:?}", other),
    }
    assert!(!flow.accepts(&StoreLoginEvent::Connected(Ok(()))));
}

#[test]
fn store_login_with_password_saves_at_once() {
    let mut flow = StoreLoginFlow::new();
    match store_step(&mut flow, StoreLoginEvent::Start(store_request(Some("pw")))) {
        StoreLoginAction::Save(c) => assert_eq!((c.host.as_str(), c.password.as_str()), ("broker", "pw")),
        other => panic!("unexpected {:?}", other),
    }
    assert!(matches!(store_step(&mut flow, StoreLoginEvent::Saved), StoreLoginAction::Connect(_)));
    match store_step(&mut flow, StoreLoginEvent::Connected(Err("连接超时".to_string()))) {
        StoreLoginAction::Reply(r) => assert!(!r.success && r.message == "连接超时"),
        other => panic!("unexpected {:?}", other),
    }
}

#[test]
fn store_login_refuses_invalid_config_before_saving() {
    let mut flow = StoreLoginFlow::new();
    let mut req = store_request(Some("pw"));
    req.port = 0;
    match store_step(&mut flow, StoreLoginEvent::Start(req)) {
        StoreLoginAction::Reply(r) => assert!(!r.success && r.message == "MQTT端口不可为0"),
        other => panic!("unexpected {:?}", other),
    }
    assert!(!flow.accepts(&StoreLoginEvent::Saved));
}
