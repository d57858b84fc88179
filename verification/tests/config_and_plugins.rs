use appshell::config::AppConfig;
use appshell::config::AppSettings;
use appshell::config::DatabaseSettings;
use appshell::config::LoggingSettings;
use appshell::config::WindowSettings;
use appshell::models::DbStats;
use appshell::models::SystemInfo;
use appshell::models::User;
use appshell::plugins::CounterPlugin;
use appshell::plugins::SystemPlugin;
use appshell::plugins::WindowPlugin;

#[test]
fn default_configuration_matches_the_documented_values() {
    let c = AppConfig::default();
    assert_eq!(c.get_app_name(), "Rust WebUI Application");
    assert_eq!(c.get_version(), "1.0.0");
    assert_eq!(c.get_db_path(), "app.db");
    assert!(c.should_create_sample_data());
    assert_eq!(c.get_window_title(), "Rust WebUI Application");
    assert_eq!(c.get_log_level(), "info");
    assert_eq!(c.get_log_file(), "application.log");
    assert!(c.is_append_log());
    assert_eq!(c.get_log_format(), "text");
    assert_eq!(c.get_max_file_size(), 10 * 1024 * 1024);
    assert_eq!(c.get_max_files(), 5);
}

#[test]
fn accessors_fall_back_when_options_are_unset() {
    let c = AppConfig {
        app: AppSettings { name: "app".to_string(), version: "2.0".to_string() },
        database: DatabaseSettings { path: "other.db".to_string(), create_sample_data: None },
        window: WindowSettings { title: "win".to_string() },
        logging: LoggingSettings {
            level: "debug".to_string(),
            file: "out.log".to_string(),
            append: None,
            format: None,
            max_file_size: None,
            max_files: None,
        },
    };
    assert_eq!(c.get_app_name(), "app");
    assert_eq!(c.get_db_path(), "other.db");
    assert!(c.should_create_sample_data());
    assert!(c.is_append_log());
    assert_eq!(c.get_log_format(), "text");
    assert_eq!(c.get_max_file_size(), 10485760);
    assert_eq!(c.get_max_files(), 5);
}

#[test]
fn explicit_settings_override_the_fallbacks() {
    let c = AppConfig {
        app: AppSettings { name: "a".to_string(), version: "v".to_string() },
        database: DatabaseSettings { path: "p".to_string(), create_sample_data: Some(false) },
        window: WindowSettings { title: "t".to_string() },
        logging: LoggingSettings {
            level: "warn".to_string(),
            file: "f".to_string(),
            append: Some(false),
            format: Some("json".to_string()),
            max_file_size: Some(1024),
            max_files: Some(2),
        },
    };
    assert!(!c.should_create_sample_data());
    assert!(!c.is_append_log());
    assert_eq!(c.get_log_format(), "json");
    assert_eq!(c.get_max_file_size(), 1024);
    assert_eq!(c.get_max_files(), 2);
}

#[test]
fn counter_increments_and_resets() {
    let mut counter = CounterPlugin::new();
    assert_eq!(counter.get_value(), 0);
    assert_eq!(counter.increment(), 1);
    assert_eq!(counter.increment(), 2);
    assert_eq!(counter.get_value(), 2);
    counter.reset();
    assert_eq!(counter.get_value(), 0);
}

#[test]
fn window_identifiers_count_up_from_one() {
    let mut plugin = WindowPlugin::new();
    assert_eq!(plugin.get_next_id(), 1);
    assert_eq!(plugin.get_next_id(), 2);
    assert_eq!(plugin.get_next_id(), 3);
}

#[test]
fn system_plugin_constructs() {
    let _p = SystemPlugin::new();
    let _d = SystemPlugin::default();
}

#[test]
fn model_rows_hold_their_fields() {
    let user = User {
        id: 1,
        name: "John Doe".to_string(),
        email: "john@example.com".to_string(),
        role: "admin".to_string(),
        status: "active".to_string(),
    };
    let copy = user.clone();
    assert_eq!(copy.name, "John Doe");
    assert_eq!(copy.email, user.email);
    let stats = DbStats { users: 4, tables: vec!["users".to_string()], size: "16 KiB".to_string() };
    assert_eq!(stats.users, 4);
    let info = SystemInfo {
        cpu: "x86_64".to_string(),
        memory: "16 GiB".to_string(),
        os: "linux".to_string(),
    };
    assert_eq!(info.clone().os, "linux");
}
