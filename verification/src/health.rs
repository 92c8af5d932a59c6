//! The health monitor's configuration record and its restart decision.
//!
//! Probing the server and starting or stopping its process are the caller's
//! work; whether one more restart is allowed is decided here.

use vstd::prelude::*;

verus! {

/// Settings of the external watchdog process.
#[derive(Debug, Clone)]
pub struct HealthConfig {
    pub server_binary_path: String,
    pub server_config_path: String,
    pub server_pid_file: String,
    pub server_log_file: String,
    pub health_check_url: String,
    pub health_check_interval_seconds: u64,
    pub health_check_timeout_seconds: u64,
    pub max_restart_attempts: u32,
    pub restart_delay_seconds: u64,
    pub monitor_log_file: String,
}

impl Default for HealthConfig {
    /// The stock watchdog settings: probe every 30 s with a 10 s timeout,
    /// up to 3 restarts, 5 s apart.
    fn default() -> (r: Self)
        ensures
            r.server_binary_path@ == "/usr/local/bin/sip-server"@,
            r.server_config_path@ == "/etc/rvoip-sip-server/config.toml"@,
            r.server_pid_file@ == "/var/run/rvoip-sip-server.pid"@,
            r.server_log_file@ == "/var/log/rvoip-sip-server/server.log"@,
            r.health_check_url@ == "http://localhost:8080/health"@,
            r.health_check_interval_seconds == 30,
            r.health_check_timeout_seconds == 10,
            r.max_restart_attempts == 3,
            r.restart_delay_seconds == 5,
            r.monitor_log_file@ == "/var/log/rvoip-sip-server/monitor.log"@,
    {
        HealthConfig {
            server_binary_path: "/usr/local/bin/sip-server".to_owned(),
            server_config_path: "/etc/rvoip-sip-server/config.toml".to_owned(),
            server_pid_file: "/var/run/rvoip-sip-server.pid".to_owned(),
            server_log_file: "/var/log/rvoip-sip-server/server.log".to_owned(),
            health_check_url: "http://localhost:8080/health".to_owned(),
            health_check_interval_seconds: 30,
            health_check_timeout_seconds: 10,
            max_restart_attempts: 3,
            restart_delay_seconds: 5,
            monitor_log_file: "/var/log/rvoip-sip-server/monitor.log".to_owned(),
        }
    }
}

/// Whether a failed health check should trigger one more restart: only while
/// attempts remain, and never within 60 s of the previous restart (to avoid
/// restart loops). `seconds_since_last_restart` is `None` when the monitor
/// has not restarted the server yet.
pub fn should_restart(
    restart_attempts: u32,
    max_restart_attempts: u32,
    seconds_since_last_restart: Option<u64>,
) -> (r: bool)
    ensures
        r == (restart_attempts < max_restart_attempts && match seconds_since_last_restart {
            Option::None => true,
            Option::Some(s) => s >= 60,
        }),
{
    if restart_attempts >= max_restart_attempts {
        return false;
    }
    match seconds_since_last_restart {
        Option::None => true,
        Option::Some(s) => s >= 60,
    }
}

} // verus!
