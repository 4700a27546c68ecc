use netpulse::config::{
    default_log_format, default_secure_dir, default_true, match_platform, AppConfig, BrowserConfig,
    DatabaseConfig, JwtConfig, LoggingConfig, ServerConfig, StorageConfig, TaskConfig, VideoBrowserConfig,
    VideoPlatformConfig,
};
use netpulse::engines::browser::BrowserEngine;
use netpulse::models::plan::{default_enabled, default_engine, default_repeat};
use netpulse::models::task::default_repeat_count;
use std::time::Duration;

fn config(secret: &str, proxies: Vec<&str>) -> AppConfig {
    AppConfig {
        server: ServerConfig {
            host: "0.0.0.0".into(),
            port: 8080,
            trusted_proxies: proxies.into_iter().map(String::from).collect(),
        },
        database: DatabaseConfig { path: "data/netpulse.db".into() },
        logging: LoggingConfig {
            level: "info".into(),
            file_dir: "logs".into(),
            format: "text".into(),
            console: true,
            file: false,
        },
        browser: BrowserConfig { path: "/usr/bin/chromium".into(), headless: true },
        task: TaskConfig { concurrency: 2, timeout_seconds: 60 },
        storage: StorageConfig {
            screenshot_dir: "shots".into(),
            excel_dir: "excel".into(),
            secure_dir: "secure".into(),
        },
        jwt: JwtConfig { secret: secret.into(), expiration_hours: 24 },
        video_platforms: vec![],
        video_browser: VideoBrowserConfig {
            path: "/usr/bin/chromium".into(),
            headless: true,
            user_data_dir: None,
        },
    }
}

#[test]
fn settings_are_checked() {
    let strong = "0123456789abcdef0123456789abcdef";
    assert_eq!(config(strong, vec!["10.0.0.0/8", "127.0.0.1"]).validate(), Ok(()));
    assert_eq!(
        config("netpulse-jwt-secret-change-in-production", vec![]).validate(),
        Err("JWT secret must be changed from the default placeholder".to_string())
    );
    assert_eq!(config("short", vec![]).validate(), Err("JWT secret must be at least 32 bytes".to_string()));
    assert_eq!(
        config(strong, vec!["10.0.0.0/8", "bad"]).validate(),
        Err("invalid trusted proxy address or CIDR: bad".to_string())
    );
    let c = config(strong, vec![]);
    assert_eq!(c.server_addr(), "0.0.0.0:8080");
    assert_eq!(c.database_path(), "data/netpulse.db");
}

#[test]
fn platforms_are_matched_in_order() {
    let configured = vec![
        VideoPlatformConfig { name: "mine".into(), url_keywords: vec!["Example.COM".into()], detect_only: Some(true) },
        VideoPlatformConfig { name: "other".into(), url_keywords: vec!["example".into()], detect_only: None },
    ];
    let p = match_platform(&configured, "https://www.example.com/v");
    assert_eq!(p.name, "mine");
    assert!(p.is_detect_only());
    let p = match_platform(&configured, "https://b23.tv/x");
    assert_eq!(p.name, "bilibili");
    assert!(!p.is_detect_only());
    let p = match_platform(&vec![], "https://plain.site/v");
    assert_eq!(p.name, "html5");
    assert!(p.url_keywords.is_empty());
}

#[test]
fn defaults() {
    assert_eq!(default_log_format(), "console");
    assert!(default_true());
    assert_eq!(default_secure_dir(), "./storage");
    assert_eq!(default_repeat(), 1);
    assert_eq!(default_engine(), "headless_chrome");
    assert!(default_enabled());
    assert_eq!(default_repeat_count(), 1);
    let e = BrowserEngine::new(BrowserConfig { path: "c".into(), headless: false }, Duration::from_secs(5));
    assert_eq!(e.timeout(), Duration::from_secs(5));
    assert_eq!(e.chrome_config().path, "c");
}
