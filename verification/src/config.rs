//! The server's configuration records and the validation rules over their
//! integer and string fields.
//!
//! Reading the configuration from disk, and the range checks over the
//! floating-point audio-processing parameters, are the caller's work; the
//! record shapes and the rules below are fixed here.

use vstd::prelude::*;
use crate::text::{lower_of, lowercase};

verus! {

/// SIP endpoint settings.
#[derive(Debug, Clone)]
pub struct SipConfig {
    pub bind_address: String,
    pub port: u16,
    pub domain: String,
    pub user_agent: String,
    pub transport: String,
}

/// Media transport settings.
#[derive(Debug, Clone)]
pub struct MediaConfig {
    pub rtp_port_range_start: u16,
    pub rtp_port_range_end: u16,
    pub preferred_codecs: Vec<String>,
    pub enable_dtmf: bool,
    pub audio_sample_rate: u32,
}

/// Logging settings.
#[derive(Debug, Clone)]
pub struct LoggingConfig {
    pub level: String,
    pub enable_file_logging: bool,
    pub enable_syslog: bool,
    pub log_file_path: String,
    pub max_log_size_mb: u64,
    pub max_log_files: u32,
}

/// Health-check settings of the server itself.
#[derive(Debug, Clone)]
pub struct HealthConfig {
    pub enable_health_check: bool,
    pub health_check_port: u16,
    pub health_check_interval_seconds: u64,
    pub restart_on_failure: bool,
    pub max_restart_attempts: u32,
}

/// A configuration field rejected by validation.
#[derive(Debug, Clone, Copy, PartialEq, Eq, Structural)]
pub enum ConfigError {
    /// The SIP port is 0, which cannot be bound.
    InvalidSipPort,
    /// The RTP port range is empty or reversed.
    InvalidRtpPortRange,
    /// The logging level names none of the five known verbosities.
    InvalidLogLevel,
    /// The SIP domain is empty.
    EmptyDomain,
    /// The transport names none of udp, tcp, tls, ws, wss.
    InvalidTransport,
}

impl ConfigError {
    /// A short description of the rejected field, for the caller's report.
    pub fn message(&self) -> (r: &'static str)
        ensures
            self is InvalidSipPort ==> r@ == "invalid SIP port: port 0 is not allowed"@,
            self is InvalidRtpPortRange ==> r@ == "invalid RTP port range: start is not below end"@,
            self is InvalidLogLevel ==> r@ == "invalid log level"@,
            self is EmptyDomain ==> r@ == "domain cannot be empty"@,
            self is InvalidTransport ==> r@ == "invalid transport"@,
    {
        match self {
            ConfigError::InvalidSipPort => "invalid SIP port: port 0 is not allowed",
            ConfigError::InvalidRtpPortRange => "invalid RTP port range: start is not below end",
            ConfigError::InvalidLogLevel => "invalid log level",
            ConfigError::EmptyDomain => "domain cannot be empty",
            ConfigError::InvalidTransport => "invalid transport",
        }
    }
}

/// Whether a lowercased string names one of the five logging verbosities.
pub open spec fn is_valid_log_level(lowered: Seq<char>) -> bool {
    ||| lowered == "error"@
    ||| lowered == "warn"@
    ||| lowered == "info"@
    ||| lowered == "debug"@
    ||| lowered == "trace"@
}

/// Whether a lowercased string names a supported SIP transport.
pub open spec fn is_valid_transport(lowered: Seq<char>) -> bool {
    ||| lowered == "udp"@
    ||| lowered == "tcp"@
    ||| lowered == "tls"@
    ||| lowered == "ws"@
    ||| lowered == "wss"@
}

/// The first rule the three records break, checked in this order: SIP port,
/// RTP port range, logging level, domain, transport. `Ok` exactly when none
/// is broken.
pub open spec fn validate_core_spec(
    sip: SipConfig,
    media: MediaConfig,
    logging: LoggingConfig,
) -> Result<(), ConfigError> {
    if sip.port == 0 {
        Err(ConfigError::InvalidSipPort)
    } else if media.rtp_port_range_start >= media.rtp_port_range_end {
        Err(ConfigError::InvalidRtpPortRange)
    } else if !is_valid_log_level(lower_of(logging.level@)) {
        Err(ConfigError::InvalidLogLevel)
    } else if sip.domain@.len() == 0 {
        Err(ConfigError::EmptyDomain)
    } else if !is_valid_transport(lower_of(sip.transport@)) {
        Err(ConfigError::InvalidTransport)
    } else {
        Ok(())
    }
}

/// Validate the integer and string configuration fields.
///
/// The caller validates separately what this cannot see: that the bind
/// address parses as an IP address and that the floating-point
/// audio-processing parameters are in range.
pub fn validate_core(sip: &SipConfig, media: &MediaConfig, logging: &LoggingConfig) -> (r: Result<
    (),
    ConfigError,
>)
    ensures
        r == validate_core_spec(*sip, *media, *logging),
{
    if sip.port == 0 {
        return Err(ConfigError::InvalidSipPort);
    }
    if media.rtp_port_range_start >= media.rtp_port_range_end {
        return Err(ConfigError::InvalidRtpPortRange);
    }
    let level = lowercase(logging.level.as_str());
    let level_ok = level == "error".to_owned() || level == "warn".to_owned() || level
        == "info".to_owned() || level == "debug".to_owned() || level == "trace".to_owned();
    if !level_ok {
        return Err(ConfigError::InvalidLogLevel);
    }
    if sip.domain.as_str().is_empty() {
        return Err(ConfigError::EmptyDomain);
    }
    let transport = lowercase(sip.transport.as_str());
    let transport_ok = transport == "udp".to_owned() || transport == "tcp".to_owned() || transport
        == "tls".to_owned() || transport == "ws".to_owned() || transport == "wss".to_owned();
    if !transport_ok {
        return Err(ConfigError::InvalidTransport);
    }
    Ok(())
}

impl Default for SipConfig {
    /// The stock SIP settings: listen on every interface, port 5060, UDP.
    fn default() -> (r: Self)
        ensures
            r.bind_address@ == "0.0.0.0"@,
            r.port == 5060,
            r.domain@ == "localhost"@,
            r.user_agent@ == "rvoip-sip-server/0.1.0"@,
            r.transport@ == "udp"@,
    {
        SipConfig {
            bind_address: "0.0.0.0".to_owned(),
            port: 5060,
            domain: "localhost".to_owned(),
            user_agent: "rvoip-sip-server/0.1.0".to_owned(),
            transport: "udp".to_owned(),
        }
    }
}

impl Default for MediaConfig {
    /// The stock media settings: RTP ports 10000..20000, PCMU then PCMA,
    /// DTMF on, 8 kHz audio.
    fn default() -> (r: Self)
        ensures
            r.rtp_port_range_start == 10000,
            r.rtp_port_range_end == 20000,
            r.preferred_codecs@.len() == 2,
            r.preferred_codecs@[0]@ == "PCMU"@,
            r.preferred_codecs@[1]@ == "PCMA"@,
            r.enable_dtmf,
            r.audio_sample_rate == 8000,
    {
        MediaConfig {
            rtp_port_range_start: 10000,
            rtp_port_range_end: 20000,
            preferred_codecs: vec!["PCMU".to_owned(), "PCMA".to_owned()],
            enable_dtmf: true,
            audio_sample_rate: 8000,
        }
    }
}

impl Default for LoggingConfig {
    /// The stock logging settings: info level, file and syslog on.
    fn default() -> (r: Self)
        ensures
            r.level@ == "info"@,
            r.enable_file_logging,
            r.enable_syslog,
            r.log_file_path@ == "/var/log/rvoip-sip-server/server.log"@,
            r.max_log_size_mb == 100,
            r.max_log_files == 10,
    {
        LoggingConfig {
            level: "info".to_owned(),
            enable_file_logging: true,
            enable_syslog: true,
            log_file_path: "/var/log/rvoip-sip-server/server.log".to_owned(),
            max_log_size_mb: 100,
            max_log_files: 10,
        }
    }
}

impl Default for HealthConfig {
    /// The stock health settings: checks on port 8080 every 30 s, up to
    /// 3 restarts.
    fn default() -> (r: Self)
        ensures
            r.enable_health_check,
            r.health_check_port == 8080,
            r.health_check_interval_seconds == 30,
            r.restart_on_failure,
            r.max_restart_attempts == 3,
    {
        HealthConfig {
            enable_health_check: true,
            health_check_port: 8080,
            health_check_interval_seconds: 30,
            restart_on_failure: true,
            max_restart_attempts: 3,
        }
    }
}

} // verus!
