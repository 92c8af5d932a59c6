use telephony_core::call::CallStatus;
use telephony_core::config::{
    validate_core, ConfigError, HealthConfig, LoggingConfig, MediaConfig, SipConfig,
};
use telephony_core::health::should_restart;
use telephony_core::health::HealthConfig as MonitorConfig;
use telephony_core::logger::{parse_log_level, LevelFilter};

#[test]
fn test_parse_log_level() {
    assert_eq!(parse_log_level("error"), LevelFilter::Error);
    assert_eq!(parse_log_level("ERROR"), LevelFilter::Error);
    assert_eq!(parse_log_level("warn"), LevelFilter::Warn);
    assert_eq!(parse_log_level("info"), LevelFilter::Info);
    assert_eq!(parse_log_level("debug"), LevelFilter::Debug);
    assert_eq!(parse_log_level("trace"), LevelFilter::Trace);
    assert_eq!(parse_log_level("invalid"), LevelFilter::Info);
}

#[test]
fn test_parse_log_level_mixed_case() {
    assert_eq!(parse_log_level("WaRn"), LevelFilter::Warn);
    assert_eq!(parse_log_level("Trace"), LevelFilter::Trace);
    assert_eq!(parse_log_level(""), LevelFilter::Info);
}

#[test]
fn test_should_restart_logic() {
    let config = MonitorConfig::default();

    // Should restart initially
    assert!(should_restart(0, config.max_restart_attempts, None));

    // Should not restart after max attempts
    assert!(!should_restart(
        config.max_restart_attempts,
        config.max_restart_attempts,
        None
    ));

    // Should not restart if recently restarted
    assert!(!should_restart(0, config.max_restart_attempts, Some(0)));

    // An old restart no longer blocks a new one
    assert!(should_restart(1, config.max_restart_attempts, Some(60)));
}

#[test]
fn test_validate_default_config() {
    let sip = SipConfig::default();
    let media = MediaConfig::default();
    let logging = LoggingConfig::default();
    assert_eq!(validate_core(&sip, &media, &logging), Ok(()));
}

#[test]
fn test_validate_rejects_port_zero() {
    let mut sip = SipConfig::default();
    sip.port = 0;
    let r = validate_core(&sip, &MediaConfig::default(), &LoggingConfig::default());
    assert_eq!(r, Err(ConfigError::InvalidSipPort));
    assert_eq!(
        ConfigError::InvalidSipPort.message(),
        "invalid SIP port: port 0 is not allowed"
    );
}

#[test]
fn test_validate_rejects_bad_rtp_range() {
    let mut media = MediaConfig::default();
    media.rtp_port_range_start = 20000;
    media.rtp_port_range_end = 10000;
    let r = validate_core(&SipConfig::default(), &media, &LoggingConfig::default());
    assert_eq!(r, Err(ConfigError::InvalidRtpPortRange));

    media.rtp_port_range_start = 10000;
    media.rtp_port_range_end = 10000;
    let r = validate_core(&SipConfig::default(), &media, &LoggingConfig::default());
    assert_eq!(r, Err(ConfigError::InvalidRtpPortRange));
}

#[test]
fn test_validate_rejects_bad_log_level() {
    let mut logging = LoggingConfig::default();
    logging.level = "verbose".to_string();
    let r = validate_core(&SipConfig::default(), &MediaConfig::default(), &logging);
    assert_eq!(r, Err(ConfigError::InvalidLogLevel));
}

#[test]
fn test_validate_rejects_empty_domain() {
    let mut sip = SipConfig::default();
    sip.domain = String::new();
    let r = validate_core(&sip, &MediaConfig::default(), &LoggingConfig::default());
    assert_eq!(r, Err(ConfigError::EmptyDomain));
}

#[test]
fn test_validate_rejects_bad_transport() {
    let mut sip = SipConfig::default();
    sip.transport = "sctp".to_string();
    let r = validate_core(&sip, &MediaConfig::default(), &LoggingConfig::default());
    assert_eq!(r, Err(ConfigError::InvalidTransport));
}

#[test]
fn test_validate_is_case_insensitive() {
    let mut sip = SipConfig::default();
    sip.transport = "TLS".to_string();
    let mut logging = LoggingConfig::default();
    logging.level = "DEBUG".to_string();
    let r = validate_core(&sip, &MediaConfig::default(), &logging);
    assert_eq!(r, Ok(()));
}

#[test]
fn test_validate_reports_first_broken_rule() {
    // With both the port and the transport broken, the port is reported.
    let mut sip = SipConfig::default();
    sip.port = 0;
    sip.transport = "sctp".to_string();
    let r = validate_core(&sip, &MediaConfig::default(), &LoggingConfig::default());
    assert_eq!(r, Err(ConfigError::InvalidSipPort));
}

#[test]
fn test_config_defaults() {
    let sip = SipConfig::default();
    assert_eq!(sip.bind_address, "0.0.0.0");
    assert_eq!(sip.port, 5060);
    assert_eq!(sip.domain, "localhost");
    assert_eq!(sip.transport, "udp");

    let media = MediaConfig::default();
    assert_eq!(media.audio_sample_rate, 8000);
    assert_eq!(media.preferred_codecs, vec!["PCMU", "PCMA"]);
    assert!(media.enable_dtmf);

    let logging = LoggingConfig::default();
    assert_eq!(logging.level, "info");
    assert_eq!(logging.max_log_size_mb, 100);

    let health = HealthConfig::default();
    assert!(health.enable_health_check);
    assert_eq!(health.health_check_port, 8080);
    assert_eq!(health.max_restart_attempts, 3);

    let monitor = MonitorConfig::default();
    assert_eq!(monitor.health_check_interval_seconds, 30);
    assert_eq!(monitor.health_check_url, "http://localhost:8080/health");
    assert_eq!(monitor.restart_delay_seconds, 5);
}

#[test]
fn test_call_status() {
    assert!(CallStatus::Ringing.is_live());
    assert!(CallStatus::Answered.is_live());
    assert!(CallStatus::InProgress.is_live());
    assert!(CallStatus::Hanging.is_live());
    assert!(!CallStatus::Terminated.is_live());
    assert_eq!(CallStatus::Ringing, CallStatus::Ringing.clone());
    assert_ne!(CallStatus::Ringing, CallStatus::Terminated);
}
