use img_server_rs::config::{Config, EnvOverrides};

#[test]
fn test_default_config() {
    let config = Config::default();
    assert_eq!(config.server.host, "0.0.0.0");
    assert_eq!(config.server.port, 3030);
    assert_eq!(config.compression.default_quality, 80);
}

#[test]
fn test_config_validation() {
    let mut config = Config::default();

    assert!(config.validate().is_ok());

    config.compression.default_quality = 0;
    assert!(config.validate().is_err());

    config.compression.default_quality = 101;
    assert!(config.validate().is_err());

    config.compression.default_quality = 80;
    config.compression.default_algorithm = "invalid".to_string();
    assert!(config.validate().is_err());
}

#[test]
fn test_bind_address() {
    let config = Config::default();
    assert_eq!(config.bind_address(), "0.0.0.0:3030");
}

#[test]
fn test_max_file_size_bytes() {
    let config = Config::default();
    assert_eq!(config.max_file_size_bytes(), 100 * 1024 * 1024);
}

#[test]
fn validation_rejects_zero_port_and_size() {
    let mut config = Config::default();
    config.server.port = 0;
    assert!(config.validate().is_err());
    let mut config = Config::default();
    config.server.max_file_size_mb = 0;
    assert!(config.validate().is_err());
    let mut config = Config::default();
    config.compression.default_algorithm = "png-quantized".to_string();
    assert!(config.validate().is_ok());
}

#[test]
fn validation_error_message() {
    let mut config = Config::default();
    config.server.port = 0;
    let err = config.validate().unwrap_err();
    assert_eq!(err.message(), "Validation error: Port cannot be 0");
}

#[test]
fn test_apply_overrides() {
    let mut config = Config::default();
    config.apply_overrides(EnvOverrides {
        host: Some("127.0.0.1".to_string()),
        port: Some("8080".to_string()),
        max_file_size_mb: None,
        default_quality: Some("90".to_string()),
        default_algorithm: None,
        log_level: Some("debug".to_string()),
    });
    assert_eq!(config.server.host, "127.0.0.1");
    assert_eq!(config.server.port, 8080);
    assert_eq!(config.compression.default_quality, 90);
    assert_eq!(config.logging.level, "debug");
    assert_eq!(config.server.max_file_size_mb, 100);
    assert_eq!(config.bind_address(), "127.0.0.1:8080");
}

#[test]
fn overrides_that_do_not_parse_are_ignored() {
    let mut config = Config::default();
    config.apply_overrides(EnvOverrides {
        host: None,
        port: Some("70000".to_string()),
        max_file_size_mb: Some("12x".to_string()),
        default_quality: Some("101".to_string()),
        default_algorithm: Some("jpeg-encoder".to_string()),
        log_level: None,
    });
    assert_eq!(config.server.port, 3030);
    assert_eq!(config.server.max_file_size_mb, 100);
    assert_eq!(config.compression.default_quality, 80);
    assert_eq!(config.compression.default_algorithm, "jpeg-encoder");
    config.apply_overrides(EnvOverrides {
        host: None,
        port: Some("+65535".to_string()),
        max_file_size_mb: Some("7".to_string()),
        default_quality: Some("1".to_string()),
        default_algorithm: None,
        log_level: None,
    });
    assert_eq!(config.server.port, 65535);
    assert_eq!(config.server.max_file_size_mb, 7);
    assert_eq!(config.compression.default_quality, 1);
}
