//! The safety guard's global configuration and the values that stand for
//! every setting that a configuration file leaves out.
use vstd::prelude::*;

verus! {

broadcast use vstd::string::to_string_from_display_ensures_for_str;

/// How much the safety guard logs.
#[derive(Debug, Clone, Copy, PartialEq, Eq, Structural)]
pub enum LogLevel {
    DEDUG,
    INFO,
    WARN,
    ERROR,
}

/// Whether the safety guard runs for development or in production.
#[derive(Debug, Clone, Copy, PartialEq, Eq, Structural)]
pub enum Mode {
    DEVELOPMENT,
    PRODUCTION,
}

/// The whole configuration.
#[derive(Debug)]
pub struct Config {
    pub config_version: u64,
    pub global: Global,
    pub watchdog: Watchdog,
    pub recover: Recover,
}

/// Settings of the safety guard itself.
#[derive(Debug)]
pub struct Global {
    pub log_level: LogLevel,
    pub check_interval_ms: u64,
    pub state_file: String,
    pub log_file: String,
    pub config_file: String,
    pub config_file_gen: String,
    pub mode: Mode,
    pub endpoint: String,
}

/// Settings of the hardware watchdog.
#[derive(Debug)]
pub struct Watchdog {
    pub device: String,
    pub timeout_sec: u64,
    pub pretimeout_sec: u64,
    pub kick_interval_ms: u64,
}

/// What the safety guard does when applications keep failing.
#[derive(Debug)]
pub struct Recover {
    pub system_reset_on_failure: bool,
    pub max_global_failures: u64,
}

impl Config {
    /// The configuration version assumed when a file names none.
    pub fn default_config_version() -> (r: u64)
        ensures
            r == 1,
    {
        1
    }
}

impl Default for Global {
    fn default() -> (g: Self)
        ensures
            g.log_level == LogLevel::INFO,
            g.check_interval_ms == 500,
            g.state_file@ == "/tmp/safeappdb.state"@,
            g.log_file@ == "/tmp/safeappdb.log"@,
            g.config_file@ == "/tmp/safeappdb.config"@,
            g.config_file_gen@ == "/tmp/safeappdb.config.gen"@,
            g.mode == Mode::DEVELOPMENT,
            g.endpoint@ == "/tmp/saftyguard.sock"@,
    {
        Global {
            log_level: LogLevel::INFO,
            check_interval_ms: 500,
            state_file: "/tmp/safeappdb.state".to_string(),
            log_file: "/tmp/safeappdb.log".to_string(),
            config_file: "/tmp/safeappdb.config".to_string(),
            config_file_gen: "/tmp/safeappdb.config.gen".to_string(),
            mode: Mode::DEVELOPMENT,
            endpoint: "/tmp/saftyguard.sock".to_string(),
        }
    }
}

impl Default for Watchdog {
    fn default() -> (w: Self)
        ensures
            w.device@ == "/dev/watchdog"@,
            w.timeout_sec == 10,
            w.pretimeout_sec == 5,
            w.kick_interval_ms == 3000,
    {
        Watchdog {
            device: "/dev/watchdog".to_string(),
            timeout_sec: 10,
            pretimeout_sec: 5,
            kick_interval_ms: 3000,
        }
    }
}

impl Default for Recover {
    fn default() -> (r: Self)
        ensures
            r.system_reset_on_failure,
            r.max_global_failures == 5,
    {
        Recover { system_reset_on_failure: true, max_global_failures: 5 }
    }
}

} // verus!
