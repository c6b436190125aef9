use safetyguard::safeappdb::appsdb::{default_max_retries, App};
use safetyguard::safeappdb::config_object::{ConfigMap, ConfigObject, ConfigValue, Numeric};
use safetyguard::safeappdb::global::{Config, Global, LogLevel, Mode, Recover, Watchdog};

fn object() -> ConfigObject {
    let mut config = ConfigMap::new();
    config.insert("name".to_string(), ConfigValue::String("heartbeat".to_string()));
    config.insert("enabled".to_string(), ConfigValue::Bool(true));
    config.insert("period".to_string(), ConfigValue::Int(250));
    config.insert("ratio".to_string(), ConfigValue::Float(0.5f64.to_bits()));
    ConfigObject { object_type: "monitor".to_string(), sub_type: String::new(), config }
}

#[test]
fn global_defaults() {
    let g = Global::default();
    assert_eq!(g.check_interval_ms, 500);
    assert_eq!(g.state_file, "/tmp/safeappdb.state");
    assert_eq!(g.log_file, "/tmp/safeappdb.log");
    assert_eq!(g.config_file, "/tmp/safeappdb.config");
    assert_eq!(g.config_file_gen, "/tmp/safeappdb.config.gen");
    assert_eq!(g.endpoint, "/tmp/saftyguard.sock");
    assert_eq!(g.log_level, LogLevel::INFO);
    assert_eq!(g.mode, Mode::DEVELOPMENT);
}

#[test]
fn watchdog_and_recover_defaults() {
    let w = Watchdog::default();
    assert_eq!(w.device, "/dev/watchdog");
    assert_eq!(w.timeout_sec, 10);
    assert_eq!(w.pretimeout_sec, 5);
    assert_eq!(w.kick_interval_ms, 3000);
    let r = Recover::default();
    assert_eq!(r.system_reset_on_failure, true);
    assert_eq!(r.max_global_failures, 5);
}

#[test]
fn default_versions_and_retries() {
    assert_eq!(Config::default_config_version(), 1);
    assert_eq!(default_max_retries(), -1);
}

#[test]
fn typed_getters() {
    let o = object();
    assert_eq!(o.string("name"), Some("heartbeat"));
    assert_eq!(o.bool("enabled"), Some(true));
    assert_eq!(o.integer("period"), Some(250));
    assert!(matches!(o.get("ratio"), Some(ConfigValue::Float(bits)) if *bits == 0.5f64.to_bits()));
    assert_eq!(o.string("period"), None);
    assert_eq!(o.bool("name"), None);
    assert_eq!(o.integer("enabled"), None);
    assert_eq!(o.integer("missing"), None);
    assert!(o.get("missing").is_none());
}

#[test]
fn insert_replaces_and_returns_old_value() {
    let mut m = ConfigMap::new();
    assert!(m.is_empty());
    assert!(m.insert("a".to_string(), ConfigValue::Int(1)).is_none());
    assert!(m.insert("b".to_string(), ConfigValue::Int(2)).is_none());
    let old = m.insert("a".to_string(), ConfigValue::Int(3));
    assert!(matches!(old, Some(ConfigValue::Int(1))));
    assert_eq!(m.len(), 2);
    assert!(matches!(m.get("a"), Some(ConfigValue::Int(3))));
    assert!(matches!(m.get("b"), Some(ConfigValue::Int(2))));
    let keys: Vec<&str> = m.entries().iter().map(|(k, _)| k.as_str()).collect();
    assert_eq!(keys.len(), 2);
    assert!(keys.contains(&"a") && keys.contains(&"b"));
}

#[test]
fn clone_keeps_settings() {
    let o = object();
    let c = o.clone();
    assert_eq!(c.object_type, "monitor");
    assert_eq!(c.string("name"), Some("heartbeat"));
    assert_eq!(c.config.len(), 4);
}

#[test]
fn app_holds_objects() {
    let app = App {
        name: "engine".to_string(),
        max_retries: default_max_retries(),
        critical: false,
        manager: object(),
        safemonitor: vec![object()],
        safeaction: Vec::new(),
        safeinstrument: Vec::new(),
    };
    let copy = app.clone();
    assert_eq!(copy.max_retries, -1);
    assert_eq!(copy.safemonitor.len(), 1);
    assert_eq!(copy.manager.integer("period"), Some(250));
}

#[test]
fn numeric_accepts_floats_and_integers() {
    let o = object();
    assert_eq!(o.numeric("ratio"), Some(Numeric::FloatBits(0.5f64.to_bits())));
    assert_eq!(o.numeric("period"), Some(Numeric::Int(250)));
    assert_eq!(o.numeric("enabled"), None);
    assert_eq!(o.numeric("name"), None);
    assert_eq!(o.numeric("missing"), None);
}
