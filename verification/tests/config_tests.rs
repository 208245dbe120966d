use oss_emulator::cli::Cli;
use oss_emulator::config::{AppConfig, Config, DefaultsConfig, LimitsConfig, StorageConfig};

fn with_hostnames(h: Option<Vec<&str>>) -> AppConfig {
    AppConfig {
        storage: Some(StorageConfig {
            bucket_metadata: Some(".other".to_string()),
            object_metadata: None,
            object_content_prefix: None,
            object_content: None,
            object_content_two: None,
            bucket_config: None,
        }),
        defaults: Some(DefaultsConfig {
            hostnames: h.map(|v| v.iter().map(|s| s.to_string()).collect()),
            owner_id: Some("someone".to_string()),
            owner_display_name: None,
        }),
        limits: Some(LimitsConfig { max_bucket_num: Some(3), max_object_file_size: None, stream_chunk_size: None }),
    }
}

#[test]
fn default_settings() {
    let c = Config::default();
    assert_eq!(c.store_root, "store");
    assert_eq!(c.log_dir, "/opt/aio/logs/tools/oss-emulator");
    assert_eq!(c.port, 80);
    assert_eq!(c.host, "localhost");
    assert_eq!(c.hostnames, vec!["localhost", "oss.aliyun.com", "oss.localhost"]);
}

#[test]
fn new_settings_keep_what_is_given() {
    let c = Config::new(Some("/data".to_string()), None, 9000);
    assert_eq!(c.store_root, "/data");
    assert_eq!(c.log_dir, "/opt/aio/logs/tools/oss-emulator");
    assert_eq!(c.port, 9000);
    let c = Config::new(None, Some("/var/log".to_string()), 1);
    assert_eq!(c.store_root, "store");
    assert_eq!(c.log_dir, "/var/log");
}

#[test]
fn settings_file_overrides_only_hostnames() {
    let a = with_hostnames(Some(vec!["a.test", "b.test"]));
    let c = Config::from_toml(Some(&a));
    assert_eq!(c.hostnames, vec!["a.test", "b.test"]);
    assert_eq!(c.store_root, "store");
    assert_eq!(c.port, 80);
    let c = Config::from_toml(Some(&with_hostnames(None)));
    assert_eq!(c.hostnames, Config::default().hostnames);
    let c = Config::from_toml(None);
    assert_eq!(c.hostnames, Config::default().hostnames);
}

#[test]
fn apply_toml_changes_hostnames() {
    let mut c = Config::default();
    c.apply_toml(&with_hostnames(Some(vec!["x"])));
    assert_eq!(c.hostnames, vec!["x"]);
    assert_eq!(c.host, "localhost");
}

#[test]
fn command_line_wins_over_settings_file() {
    let cli = Cli { store: "s".to_string(), log_path: "/l".to_string(), port: 8080, config: Some("cfg.toml".to_string()) };
    let a = with_hostnames(Some(vec!["h"]));
    let c = cli.to_config(Some(&a));
    assert_eq!(c.store_root, "s");
    assert_eq!(c.log_dir, "/l");
    assert_eq!(c.port, 8080);
    assert_eq!(c.hostnames, vec!["h"]);
}

#[test]
fn command_line_without_settings_file() {
    let cli = Cli { store: "store".to_string(), log_path: "/tmp/oss-emulator".to_string(), port: 80, config: None };
    let a = with_hostnames(Some(vec!["ignored"]));
    let c = cli.to_config(Some(&a));
    assert_eq!(c.log_dir, "/tmp/oss-emulator");
    assert_eq!(c.hostnames, Config::default().hostnames);
}
