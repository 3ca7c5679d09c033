use libonebot::comm::CommConfig;
use libonebot::config::{
    Config, ConfigError, ConfigFileAuth, ConfigFileCommMethod, ConfigFileHeartBeat, ConfigFileLog,
    DefaultConfigFile, LogLevel, LogOutput,
};
use libonebot::{GatewayPhase, OneBot};

type Handler = fn(serde_json::Value) -> Result<String, String>;

fn comm_method(kind: &str) -> ConfigFileCommMethod {
    ConfigFileCommMethod {
        kind: kind.to_string(),
        host: None,
        port: None,
        url: None,
        timeout: None,
        secret: None,
        reconnect_interval: None,
    }
}

#[test]
fn run_requires_a_platform_name() {
    let mut ob: OneBot<Handler> = OneBot::new("", 4);
    ob.set_self_id("1");
    ob.set_default_config();
    assert_eq!(ob.start_run().unwrap_err(), ConfigError::MissingPlatform);
    assert_eq!(ob.phase, GatewayPhase::Setup);
}

#[test]
fn run_requires_a_self_id() {
    let mut ob: OneBot<Handler> = OneBot::new("demo", 4);
    ob.set_default_config();
    assert_eq!(ob.start_run().unwrap_err(), ConfigError::MissingSelfId);
    ob.set_self_id("");
    assert_eq!(ob.start_run().unwrap_err(), ConfigError::MissingSelfId);
}

#[test]
fn run_requires_a_configuration() {
    let mut ob: OneBot<Handler> = OneBot::new("demo", 4);
    ob.set_self_id("1");
    assert_eq!(ob.start_run().unwrap_err(), ConfigError::MissingConfig);
}

#[test]
fn lifecycle_walks_setup_running_shutting_down_stopped() {
    let mut ob: OneBot<Handler> = OneBot::new("demo", 4);
    ob.set_self_id("1");
    ob.enable_heartbeat(30);
    let plan = ob.start_run().unwrap();
    assert_eq!(plan.heartbeat, Some(30));
    assert_eq!(ob.phase, GatewayPhase::Running);
    ob.shutdown();
    assert_eq!(ob.phase, GatewayPhase::ShuttingDown);
    ob.finish_shutdown();
    assert_eq!(ob.phase, GatewayPhase::Stopped);
}

#[test]
fn shutdown_outside_running_changes_nothing() {
    let mut ob: OneBot<Handler> = OneBot::new("demo", 4);
    ob.shutdown();
    assert_eq!(ob.phase, GatewayPhase::Setup);
    ob.finish_shutdown();
    assert_eq!(ob.phase, GatewayPhase::Setup);
}

#[test]
fn config_builders_layer_over_the_defaults() {
    let mut ob: OneBot<Handler> = OneBot::new("demo", 4);
    assert!(!ob.has_access_token());
    assert!(!ob.heartbeat_enabled());
    ob.set_access_token("tok");
    assert!(ob.has_access_token());
    assert_eq!(ob.access_token().as_deref(), Some("tok"));
    ob.enable_heartbeat(55);
    assert!(ob.heartbeat_enabled());
    assert_eq!(ob.heartbeat_interval(), Some(55));
    // the token set first survived the heartbeat builder
    assert_eq!(ob.access_token().as_deref(), Some("tok"));
    ob.log_to_stdout();
    ob.log_to_path("/tmp/gw.log");
    ob.set_log_level(LogLevel::Debug);
    let c = ob.config().unwrap();
    assert_eq!(c.log.output, LogOutput::Stdout);
    assert_eq!(c.log.path.as_deref(), Some("/tmp/gw.log"));
    assert_eq!(c.log.level, LogLevel::Debug);
    assert_eq!(c.heartbeat, Some(55));
    assert_eq!(c.auth.access_token.as_deref(), Some("tok"));
}

#[test]
fn default_config_logs_info_to_stderr_and_a_file() {
    let c = Config::new();
    assert_eq!(c.log.output, LogOutput::Stderr);
    assert_eq!(c.log.path.as_deref(), Some("./onebot.log"));
    assert_eq!(c.log.level, LogLevel::Info);
    assert_eq!(c.heartbeat, None);
    assert_eq!(c.auth.access_token, None);
}

#[test]
fn file_merge_takes_token_heartbeat_and_log() {
    let mut f = DefaultConfigFile::new();
    f.auth = Some(ConfigFileAuth { access_token: Some("abc".to_string()) });
    f.heartbeat = Some(ConfigFileHeartBeat { enable: true, interval: None });
    f.log = Some(ConfigFileLog {
        mode: "all".to_string(),
        output: Some("stdout".to_string()),
        path: Some("gw.log".to_string()),
        level: Some("trace".to_string()),
    });
    let c = Config::from_config_file(&f).unwrap();
    assert_eq!(c.auth.access_token.as_deref(), Some("abc"));
    assert_eq!(c.heartbeat, Some(1000)); // enabled without an interval takes the default
    assert_eq!(c.log.output, LogOutput::Stdout);
    assert_eq!(c.log.path.as_deref(), Some("gw.log"));
    assert_eq!(c.log.level, LogLevel::Trace);
}

#[test]
fn file_merge_mode_terminal_drops_the_file_path() {
    let mut f = DefaultConfigFile::new();
    f.log = Some(ConfigFileLog {
        mode: "terminal".to_string(),
        output: None,
        path: Some("ignored.log".to_string()),
        level: None,
    });
    let c = Config::from_config_file(&f).unwrap();
    assert_eq!(c.log.output, LogOutput::Stderr);
    assert_eq!(c.log.path, None);
    assert_eq!(c.log.level, LogLevel::Info);
}

#[test]
fn file_merge_mode_off_silences_both_sinks() {
    let mut f = DefaultConfigFile::new();
    f.log = Some(ConfigFileLog {
        mode: "off".to_string(),
        output: None,
        path: None,
        level: None,
    });
    let c = Config::from_config_file(&f).unwrap();
    assert_eq!(c.log.output, LogOutput::Nul);
    assert_eq!(c.log.path, None);
}

#[test]
fn file_merge_rejects_unknown_log_settings() {
    let mut f = DefaultConfigFile::new();
    f.log = Some(ConfigFileLog {
        mode: "sometimes".to_string(),
        output: None,
        path: None,
        level: None,
    });
    assert_eq!(Config::from_config_file(&f).unwrap_err(), ConfigError::UnknownLogMode);
    f.log = Some(ConfigFileLog {
        mode: "terminal".to_string(),
        output: Some("printer".to_string()),
        path: None,
        level: None,
    });
    assert_eq!(Config::from_config_file(&f).unwrap_err(), ConfigError::UnknownLogOutput);
    f.log = Some(ConfigFileLog {
        mode: "off".to_string(),
        output: None,
        path: None,
        level: Some("loud".to_string()),
    });
    assert_eq!(Config::from_config_file(&f).unwrap_err(), ConfigError::UnknownLogLevel);
}

#[test]
fn disabled_heartbeat_stays_off_whatever_the_interval_says() {
    let mut f = DefaultConfigFile::new();
    f.heartbeat = Some(ConfigFileHeartBeat { enable: false, interval: Some(9) });
    let c = Config::from_config_file(&f).unwrap();
    assert_eq!(c.heartbeat, None);
}

#[test]
fn init_from_file_builds_each_transport_kind() {
    let mut f = DefaultConfigFile::new();
    let mut server = comm_method("socket_server");
    server.host = Some("0.0.0.0".to_string());
    server.port = Some(9000);
    let mut reverse = comm_method("socket_reverse");
    reverse.url = Some("ws://up".to_string());
    reverse.reconnect_interval = Some(3000);
    let mut forward = comm_method("event_forward");
    forward.url = Some("http://sink".to_string());
    forward.secret = Some("s".to_string());
    f.comm_method = Some(vec![
        ("a".to_string(), server),
        ("b".to_string(), reverse),
        ("c".to_string(), comm_method("sync_request")),
        ("d".to_string(), forward),
    ]);
    let mut ob: OneBot<Handler> = OneBot::new("demo", 4);
    ob.init_from_file(&f).unwrap();
    assert_eq!(ob.comms.len(), 4);
    match &ob.comms[0].1 {
        CommConfig::WebSocket(w) => {
            assert_eq!(w.host, "0.0.0.0");
            assert_eq!(w.port, 9000);
        },
        _ => panic!("expected the socket server"),
    }
    match &ob.comms[1].1 {
        CommConfig::WebSocketReverse(w) => {
            assert_eq!(w.connect_url, "ws://up");
            assert_eq!(w.reconnect_interval, Some(3000));
        },
        _ => panic!("expected the reverse client"),
    }
    match &ob.comms[2].1 {
        CommConfig::HTTP(h) => {
            assert_eq!(h.host, "127.0.0.1");
            assert_eq!(h.port, 5700);
        },
        _ => panic!("expected the sync listener with defaults"),
    }
    match &ob.comms[3].1 {
        CommConfig::HTTPWebHook(h) => {
            assert_eq!(h.post_url, "http://sink");
            assert_eq!(h.secret.as_deref(), Some("s"));
        },
        _ => panic!("expected the forwarder"),
    }
}

#[test]
fn init_from_file_rejects_an_unknown_transport_kind() {
    let mut f = DefaultConfigFile::new();
    f.comm_method = Some(vec![("x".to_string(), comm_method("carrier_pigeon"))]);
    let mut ob: OneBot<Handler> = OneBot::new("demo", 4);
    assert_eq!(ob.init_from_file(&f).unwrap_err(), ConfigError::UnknownCommType);
    // no partial startup: the transport set stays empty
    assert!(ob.comms.is_empty());
}
