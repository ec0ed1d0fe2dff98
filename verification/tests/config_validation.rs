use torq::config::{
    validate_non_empty_path, validate_runtime_config, LogMode, RuntimeConfigValidationError,
    TorRuntimeConfig,
};
use torq::control::{TorControlAuth, TorControlConfig};
use torq::runtime_config::{
    get_runtime_config_response, normalize_optional_string, set_runtime_config_request,
    RuntimeConfigDto, RuntimeConfigError, RuntimeControlAuth, RuntimeControlConfig,
    RuntimeLogMode,
};

#[test]
fn config_rejects_empty_working_dir() {
    let error = TorRuntimeConfig::new("tor.exe", "tor.log")
        .with_working_dir("   ")
        .validate()
        .unwrap_err();

    assert_eq!(
        error,
        RuntimeConfigValidationError::EmptyField {
            field: "working_dir",
        }
    );
}

#[test]
fn config_rejects_missing_torrc_path_when_enabled() {
    let error = TorRuntimeConfig::new("tor.exe", "tor.log")
        .with_use_torrc(true)
        .validate()
        .unwrap_err();

    assert_eq!(
        error,
        RuntimeConfigValidationError::EmptyField {
            field: "torrc_path",
        }
    );
}

#[test]
fn rejects_empty_torrc_path_when_enabled() {
    let error = TorRuntimeConfig::new("tor.exe", "tor.log")
        .with_torrc_path(" ")
        .with_use_torrc(true)
        .validate()
        .unwrap_err();

    assert_eq!(
        error,
        RuntimeConfigValidationError::EmptyField {
            field: "torrc_path",
        }
    );
}

#[test]
fn config_rejects_empty_control_host() {
    let error = TorRuntimeConfig::new("tor.exe", "tor.log")
        .with_control(TorControlConfig::new(" ", 9051, TorControlAuth::Null))
        .validate()
        .unwrap_err();

    assert_eq!(
        error,
        RuntimeConfigValidationError::EmptyField {
            field: "control.host",
        }
    );
}

#[test]
fn config_rejects_empty_cookie_path() {
    let error = TorRuntimeConfig::new("tor.exe", "tor.log")
        .with_control(TorControlConfig::new(
            "127.0.0.1",
            9051,
            TorControlAuth::Cookie {
                cookie_path: " ".to_string(),
            },
        ))
        .validate()
        .unwrap_err();

    assert_eq!(
        error,
        RuntimeConfigValidationError::EmptyField {
            field: "control.auth.cookie_path",
        }
    );
}

fn dto_with(tweak: impl FnOnce(&mut RuntimeConfigDto)) -> RuntimeConfigDto {
    let mut dto = RuntimeConfigDto {
        tor_path: "tor.exe".to_string(),
        log_path: "tor.log".to_string(),
        log_mode: RuntimeLogMode::Managed,
        torrc_path: None,
        use_torrc: false,
        args: vec![],
        working_dir: None,
        control: None,
        stop_timeout_ms: 5_000,
        log_poll_interval_ms: 250,
    };
    tweak(&mut dto);
    dto
}

#[test]
fn dto_round_trips_runtime_config_shape() {
    let runtime_config = TorRuntimeConfig::new("tor.exe", "tor.log")
        .with_log_mode(LogMode::External)
        .with_torrc_path("C:/Tor/torrc")
        .with_use_torrc(true)
        .with_args(vec!["--foo".to_string(), "--bar".to_string()])
        .with_working_dir("C:/Tor")
        .with_control(TorControlConfig::new(
            "127.0.0.1",
            9051,
            TorControlAuth::Null,
        ))
        .with_stop_timeout(7_000)
        .with_log_poll_interval(125);

    let dto = RuntimeConfigDto::from_runtime_config(&runtime_config);

    assert_eq!(dto.tor_path, "tor.exe");
    assert_eq!(dto.log_path, "tor.log");
    assert_eq!(dto.log_mode, RuntimeLogMode::External);
    assert_eq!(dto.torrc_path.as_deref(), Some("C:/Tor/torrc"));
    assert!(dto.use_torrc);
    assert_eq!(dto.args, vec!["--foo".to_string(), "--bar".to_string()]);
    assert_eq!(dto.working_dir.as_deref(), Some("C:/Tor"));
    assert_eq!(
        dto.control,
        Some(RuntimeControlConfig {
            host: "127.0.0.1".to_string(),
            port: 9051,
            auth: RuntimeControlAuth::Null,
        })
    );
    assert_eq!(dto.stop_timeout_ms, 7000);
    assert_eq!(dto.log_poll_interval_ms, 125);

    let rebuilt = set_runtime_config_request(dto).unwrap();

    assert_eq!(rebuilt.tor_path, "tor.exe");
    assert_eq!(rebuilt.log_path, "tor.log");
    assert_eq!(rebuilt.log_mode, LogMode::External);
    assert_eq!(rebuilt.torrc_path, Some("C:/Tor/torrc".to_string()));
    assert!(rebuilt.use_torrc);
    assert_eq!(rebuilt.args, vec!["--foo".to_string(), "--bar".to_string()]);
    assert_eq!(rebuilt.working_dir, Some("C:/Tor".to_string()));
    assert_eq!(
        rebuilt.control,
        Some(TorControlConfig::new(
            "127.0.0.1",
            9051,
            TorControlAuth::Null
        ))
    );
    assert_eq!(rebuilt.stop_timeout_ms, 7000);
    assert_eq!(rebuilt.log_poll_interval_ms, 125);
}

#[test]
fn rejects_empty_tor_path() {
    let dto = dto_with(|d| d.tor_path = "   ".to_string());

    let error = dto.try_into_runtime_config().unwrap_err();

    assert_eq!(error, RuntimeConfigError::EmptyField { field: "tor_path" });
}

#[test]
fn runtime_config_rejects_empty_cookie_path() {
    let dto = dto_with(|d| {
        d.control = Some(RuntimeControlConfig {
            host: "127.0.0.1".to_string(),
            port: 9051,
            auth: RuntimeControlAuth::Cookie {
                cookie_path: " ".to_string(),
            },
        })
    });

    let error = dto.try_into_runtime_config().unwrap_err();

    assert_eq!(
        error,
        RuntimeConfigError::EmptyField {
            field: "control.auth.cookie_path",
        }
    );
}

#[test]
fn runtime_config_rejects_empty_control_host() {
    let dto = dto_with(|d| {
        d.control = Some(RuntimeControlConfig {
            host: " ".to_string(),
            port: 9051,
            auth: RuntimeControlAuth::Null,
        })
    });

    let error = dto.try_into_runtime_config().unwrap_err();

    assert_eq!(
        error,
        RuntimeConfigError::EmptyField {
            field: "control.host",
        }
    );
}

#[test]
fn runtime_config_rejects_empty_working_dir() {
    let dto = dto_with(|d| d.working_dir = Some(" ".to_string()));

    let error = dto.try_into_runtime_config().unwrap_err();

    assert_eq!(
        error,
        RuntimeConfigError::EmptyField {
            field: "working_dir",
        }
    );
}

#[test]
fn runtime_config_rejects_missing_torrc_path_when_enabled() {
    let dto = dto_with(|d| {
        d.torrc_path = Some(" ".to_string());
        d.use_torrc = true;
    });

    let error = dto.try_into_runtime_config().unwrap_err();

    assert_eq!(
        error,
        RuntimeConfigError::EmptyField {
            field: "torrc_path"
        }
    );
}

#[test]
fn get_runtime_config_response_uses_current_runtime_shape() {
    let runtime_config =
        TorRuntimeConfig::from_tor_path("tor.exe").with_args(vec!["--help".to_string()]);

    let response = get_runtime_config_response(&runtime_config);

    assert_eq!(response.tor_path, "tor.exe");
    assert_eq!(response.args, vec!["--help".to_string()]);
}

#[test]
fn from_tor_path_derives_log_path_from_the_executable() {
    let config = TorRuntimeConfig::from_tor_path("/opt/tor/bin/tor.exe");
    assert_eq!(config.log_path, "/opt/tor/bin/tor.log");
    let bare = TorRuntimeConfig::from_tor_path("tor");
    assert_eq!(bare.log_path, "tor.log");
    assert_eq!(TorRuntimeConfig::from_tor_path("tor.exe").log_path, "tor.log");
    assert_eq!(TorRuntimeConfig::from_tor_path("a.b.c").log_path, "a.b.log");
    assert_eq!(TorRuntimeConfig::from_tor_path(".torrc").log_path, ".torrc.log");
    assert_eq!(TorRuntimeConfig::from_tor_path("tor.").log_path, "tor.log");
    assert_eq!(TorRuntimeConfig::from_tor_path("dir.d/tor").log_path, "dir.d/tor.log");
    assert_eq!(TorRuntimeConfig::from_tor_path("./bin/.tor").log_path, "./bin/.tor.log");
}

#[test]
fn new_config_has_defaults() {
    let config = TorRuntimeConfig::new("tor.exe", "tor.log");
    assert_eq!(config.log_mode, LogMode::Managed);
    assert_eq!(config.torrc_path, None);
    assert!(!config.use_torrc);
    assert!(config.args.is_empty());
    assert_eq!(config.working_dir, None);
    assert_eq!(config.control, None);
    assert_eq!(config.stop_timeout_ms, 5_000);
    assert_eq!(config.log_poll_interval_ms, 250);
    assert!(validate_runtime_config(&config).is_ok());
}

#[test]
fn validation_reports_first_empty_field_with_message() {
    let config = TorRuntimeConfig::new(" \t", "tor.log").with_working_dir(" ");
    let error = validate_runtime_config(&config).unwrap_err();
    assert_eq!(error, RuntimeConfigValidationError::empty_field("tor_path"));
    assert_eq!(error.message(), "tor_path must not be empty");
    assert!(validate_non_empty_path("x", "f").is_ok());
    assert_eq!(
        RuntimeConfigError::empty_field("working_dir").message(),
        "working_dir must not be empty"
    );
}

#[test]
fn append_log_argument_selects_log_mode() {
    let config = TorRuntimeConfig::new("tor.exe", "tor.log");
    assert_eq!(
        config.clone().with_append_log_argument(false).log_mode,
        LogMode::External
    );
    assert_eq!(config.with_append_log_argument(true).log_mode, LogMode::Managed);
    assert_eq!(LogMode::Managed.as_str(), "managed");
    assert_eq!(LogMode::External.as_str(), "external");
}

#[test]
fn torrc_path_is_trimmed_and_blank_dropped() {
    assert_eq!(
        normalize_optional_string(Some("  C:/Tor/torrc ".to_string())),
        Some("C:/Tor/torrc".to_string())
    );
    assert_eq!(normalize_optional_string(Some("   ".to_string())), None);
    assert_eq!(normalize_optional_string(None), None);

    let dto = dto_with(|d| d.torrc_path = Some("  torrc  ".to_string()));
    let config = dto.try_into_runtime_config().unwrap();
    assert_eq!(config.torrc_path, Some("torrc".to_string()));

    let blank = dto_with(|d| d.torrc_path = Some("  ".to_string()));
    assert_eq!(blank.try_into_runtime_config().unwrap().torrc_path, None);
}

#[test]
fn payload_round_trip_is_stable() {
    let config = TorRuntimeConfig::new("tor.exe", "tor.log")
        .with_torrc_path(" torrc ")
        .with_control(TorControlConfig::localhost(
            9051,
            TorControlAuth::Cookie {
                cookie_path: "cookie".to_string(),
            },
        ));
    let once = set_runtime_config_request(get_runtime_config_response(&config)).unwrap();
    let twice = set_runtime_config_request(get_runtime_config_response(&once)).unwrap();
    assert_eq!(
        get_runtime_config_response(&once),
        get_runtime_config_response(&twice)
    );
    assert_eq!(once.torrc_path, Some("torrc".to_string()));
}

#[test]
fn runtime_log_mode_converts_both_ways() {
    assert_eq!(RuntimeLogMode::from(LogMode::External), RuntimeLogMode::External);
    assert_eq!(LogMode::from(RuntimeLogMode::Managed), LogMode::Managed);
    assert_eq!(
        RuntimeConfigError::from(RuntimeConfigValidationError::empty_field("tor_path")),
        RuntimeConfigError::EmptyField { field: "tor_path" }
    );
}

#[test]
fn control_payload_conversions() {
    let config = TorControlConfig::new(
        "127.0.0.1",
        9051,
        TorControlAuth::Cookie {
            cookie_path: "/run/tor/control.authcookie".to_string(),
        },
    );
    let payload = RuntimeControlConfig::from(&config);
    assert_eq!(
        payload,
        RuntimeControlConfig {
            host: "127.0.0.1".to_string(),
            port: 9051,
            auth: RuntimeControlAuth::Cookie {
                cookie_path: "/run/tor/control.authcookie".to_string(),
            },
        }
    );
    assert_eq!(TorControlConfig::try_from(payload), Ok(config));
    assert_eq!(
        RuntimeControlAuth::from(&TorControlAuth::Null),
        RuntimeControlAuth::Null
    );
    assert_eq!(
        TorControlAuth::try_from(RuntimeControlAuth::Null),
        Ok(TorControlAuth::Null)
    );
}
