use armazem::config::{
    env_or, health_listen_text, listen_text, Backend, Config, ConfigError, EnvValues, IpAddress,
    SocketAddress,
};

fn empty_env() -> EnvValues {
    EnvValues { listen: None, health_listen: None, backend_type: None, backend_root: None, log_level: None }
}

fn v4(a: u8, b: u8, c: u8, d: u8, port: u16) -> SocketAddress {
    SocketAddress { ip: IpAddress::V4 { octets: [a, b, c, d] }, port }
}

#[test]
fn env_or_takes_present_value() {
    assert_eq!(env_or(&Some("debug".to_string()), "info"), "debug");
}

#[test]
fn env_or_defaults_when_absent_or_empty() {
    assert_eq!(env_or(&None, "info"), "info");
    assert_eq!(env_or(&Some(String::new()), "info"), "info");
}

#[test]
fn address_texts_default() {
    let env = empty_env();
    assert_eq!(listen_text(&env), "0.0.0.0:9000");
    assert_eq!(health_listen_text(&env), "0.0.0.0:9001");
}

#[test]
fn address_texts_from_env() {
    let mut env = empty_env();
    env.listen = Some("127.0.0.1:8080".to_string());
    env.health_listen = Some(String::new());
    assert_eq!(listen_text(&env), "127.0.0.1:8080");
    assert_eq!(health_listen_text(&env), "0.0.0.0:9001");
}

#[test]
fn empty_environment_gives_defaults() {
    let cfg = Config::from_env(&empty_env(), Ok(v4(0, 0, 0, 0, 9000)), Ok(v4(0, 0, 0, 0, 9001)))
        .expect("defaults are valid");
    assert_eq!(cfg.listen.port, 9000);
    assert_eq!(cfg.health_listen.port, 9001);
    assert_eq!(cfg.log_level, "info");
    match cfg.backend {
        Backend::Fs { root } => assert_eq!(root, "/data"),
    }
}

#[test]
fn explicit_values_are_used() {
    let env = EnvValues {
        listen: Some("127.0.0.1:1234".to_string()),
        health_listen: Some("127.0.0.1:1235".to_string()),
        backend_type: Some("fs".to_string()),
        backend_root: Some("/srv/s3".to_string()),
        log_level: Some("debug".to_string()),
    };
    let cfg = Config::from_env(&env, Ok(v4(127, 0, 0, 1, 1234)), Ok(v4(127, 0, 0, 1, 1235))).unwrap();
    assert_eq!(cfg.log_level, "debug");
    match cfg.backend {
        Backend::Fs { root } => assert_eq!(root, "/srv/s3"),
    }
    match cfg.listen.ip {
        IpAddress::V4 { octets } => assert_eq!(octets, [127, 0, 0, 1]),
        IpAddress::V6 { .. } => panic!("expected an IPv4 address"),
    }
}

#[test]
fn empty_backend_type_means_fs() {
    let mut env = empty_env();
    env.backend_type = Some(String::new());
    assert!(Config::from_env(&env, Ok(v4(0, 0, 0, 0, 9000)), Ok(v4(0, 0, 0, 0, 9001))).is_ok());
}

#[test]
fn unknown_backend_is_refused() {
    let mut env = empty_env();
    env.backend_type = Some("upstream_s3".to_string());
    match Config::from_env(&env, Ok(v4(0, 0, 0, 0, 9000)), Ok(v4(0, 0, 0, 0, 9001))) {
        Err(ConfigError::UnsupportedBackend { value }) => assert_eq!(value, "upstream_s3"),
        other => panic!("unexpected {:?}", other),
    }
}

#[test]
fn bad_listen_address_is_reported_first() {
    let mut env = empty_env();
    env.listen = Some("not-an-address".to_string());
    env.backend_type = Some("nope".to_string());
    match Config::from_env(&env, Err("invalid socket address syntax".to_string()), Err("x".to_string())) {
        Err(ConfigError::InvalidAddress { key, raw, reason }) => {
            assert_eq!(key, "ARMAZEM_LISTEN");
            assert_eq!(raw, "not-an-address");
            assert_eq!(reason, "invalid socket address syntax");
        }
        other => panic!("unexpected {:?}", other),
    }
}

#[test]
fn bad_health_address_is_reported_before_backend() {
    let mut env = empty_env();
    env.health_listen = Some("localhost".to_string());
    env.backend_type = Some("nope".to_string());
    match Config::from_env(&env, Ok(v4(0, 0, 0, 0, 9000)), Err("bad".to_string())) {
        Err(ConfigError::InvalidAddress { key, raw, .. }) => {
            assert_eq!(key, "ARMAZEM_HEALTH_LISTEN");
            assert_eq!(raw, "localhost");
        }
        other => panic!("unexpected {:?}", other),
    }
}

#[test]
fn config_error_messages() {
    let e = ConfigError::InvalidAddress {
        key: "ARMAZEM_LISTEN".to_string(),
        raw: "not \"an\" address".to_string(),
        reason: "invalid socket address syntax".to_string(),
    };
    assert_eq!(
        e.message(),
        "invalid socket address in ARMAZEM_LISTEN (\"not \\\"an\\\" address\"): invalid socket address syntax"
    );
    let e = ConfigError::UnsupportedBackend { value: "cas".to_string() };
    assert_eq!(e.message(), "unsupported ARMAZEM_BACKEND_TYPE \"cas\" (M0 supports only \"fs\")");
}
