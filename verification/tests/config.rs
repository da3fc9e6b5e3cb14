use uplog::config::{
    candidate_paths, complete, expand_home, join_path, locate_config, pick_first, read_failure,
    resolve_config_path, validate,
};
use uplog::error::AppError;
use uplog::models::{AgentConfig, Config, LogsConfig, MetricsConfig, ShipperConfig};

fn valid_config() -> Config {
    Config {
        agent: AgentConfig { id: "prod-api-01".to_string() },
        logs: LogsConfig {
            paths: vec![
                "~/.pm2/logs/app-out.log".to_string(),
                "~/.pm2/logs/app-error.log".to_string(),
                "/var/log/nginx/access.log".to_string(),
            ],
        },
        metrics: MetricsConfig { collect_interval_seconds: 30 },
        shipper: ShipperConfig {
            endpoint: "https://mybackend.com/ingest".to_string(),
            ship_interval_seconds: 60,
            api_key: Some("your-secret-key".to_string()),
        },
    }
}

fn validation_message(config: &Config) -> String {
    match validate(config) {
        Err(AppError::ConfigValidationError(m)) => m,
        other => panic!("expected a validation error, got {:?}", other),
    }
}

#[test]
fn valid_config_passes() {
    assert!(validate(&valid_config()).is_ok());
}

#[test]
fn blank_agent_id_is_rejected() {
    let mut c = valid_config();
    c.agent.id = "".to_string();
    assert_eq!(validation_message(&c), "agent.id cannot be empty");
    c.agent.id = "  \t\n".to_string();
    assert_eq!(validation_message(&c), "agent.id cannot be empty");
    c.agent.id = "\u{3000}\u{00A0}".to_string();
    assert_eq!(validation_message(&c), "agent.id cannot be empty");
    c.agent.id = " x ".to_string();
    assert!(validate(&c).is_ok());
}

#[test]
fn empty_endpoint_is_rejected() {
    let mut c = valid_config();
    c.shipper.endpoint = String::new();
    assert_eq!(validation_message(&c), "shipper.endpoint must not be empty");
}

#[test]
fn endpoint_needs_http_scheme() {
    let mut c = valid_config();
    c.shipper.endpoint = "ftp://example.com".to_string();
    assert_eq!(
        validation_message(&c),
        "shipper.endpoint must start with \"http://\" or \"https://\""
    );
    c.shipper.endpoint = "http:/".to_string();
    assert!(validate(&c).is_err());
    c.shipper.endpoint = "http://localhost:3000/ingest".to_string();
    assert!(validate(&c).is_ok());
}

#[test]
fn api_key_is_optional() {
    let mut c = valid_config();
    c.shipper.api_key = None;
    assert!(validate(&c).is_ok());
}

#[test]
fn empty_log_paths_are_rejected() {
    let mut c = valid_config();
    c.logs.paths.clear();
    assert_eq!(validation_message(&c), "logs.paths must have at least one entry");
}

#[test]
fn zero_intervals_are_rejected() {
    let mut c = valid_config();
    c.metrics.collect_interval_seconds = 0;
    assert_eq!(
        validation_message(&c),
        "metrics.collect_interval_seconds must be greater than 0"
    );
    let mut c = valid_config();
    c.shipper.ship_interval_seconds = 0;
    assert_eq!(validation_message(&c), "shipper.ship_interval_seconds must be greater than 0");
}

#[test]
fn first_broken_rule_is_reported() {
    let mut c = valid_config();
    c.agent.id = String::new();
    c.metrics.collect_interval_seconds = 0;
    assert_eq!(validation_message(&c), "agent.id cannot be empty");
    let mut c = valid_config();
    c.shipper.endpoint = String::new();
    c.logs.paths.clear();
    assert_eq!(validation_message(&c), "shipper.endpoint must not be empty");
    let mut c = valid_config();
    c.shipper.endpoint = "example.com".to_string();
    c.metrics.collect_interval_seconds = 0;
    assert_eq!(
        validation_message(&c),
        "shipper.endpoint must start with \"http://\" or \"https://\""
    );
}

#[test]
fn readme_example_is_accepted_unchanged() {
    let c = complete(valid_config()).unwrap();
    assert_eq!(c.logs.paths.len(), 3);
    assert_eq!(c.metrics.collect_interval_seconds, 30);
    assert_eq!(c.shipper.endpoint, "https://mybackend.com/ingest");
    assert_eq!(c.shipper.ship_interval_seconds, 60);
    assert_eq!(c.shipper.api_key.as_deref(), Some("your-secret-key"));
    assert_eq!(c.agent.id, "prod-api-01");
}

#[test]
fn complete_refuses_invalid_config() {
    let mut c = valid_config();
    c.shipper.ship_interval_seconds = 0;
    assert!(matches!(complete(c), Err(AppError::ConfigValidationError(_))));
}

#[test]
fn candidates_follow_search_order() {
    let c = candidate_paths(Some("/tmp/my.toml"), Some("/home/user"));
    assert_eq!(
        c,
        vec![
            "/tmp/my.toml".to_string(),
            "./uplog.toml".to_string(),
            "/home/user/.uplog.toml".to_string(),
            "/etc/uplog/uplog.toml".to_string(),
        ]
    );
    let c = candidate_paths(None, None);
    assert_eq!(c, vec!["./uplog.toml".to_string(), "/etc/uplog/uplog.toml".to_string()]);
    let c = candidate_paths(None, Some("/root/"));
    assert_eq!(c[1], "/root/.uplog.toml");
}

#[test]
fn join_path_adds_one_separator() {
    assert_eq!(join_path("/home/u", ".uplog.toml"), "/home/u/.uplog.toml");
    assert_eq!(join_path("/home/u/", ".uplog.toml"), "/home/u/.uplog.toml");
    assert_eq!(join_path("", ".uplog.toml"), ".uplog.toml");
}

#[test]
fn first_found_candidate_wins() {
    let c = vec!["a".to_string(), "b".to_string(), "c".to_string()];
    assert_eq!(pick_first(&c, &vec![false, true, true]), Some("b".to_string()));
    assert_eq!(pick_first(&c, &vec![true, true, false]), Some("a".to_string()));
    assert_eq!(pick_first(&c, &vec![false, false, false]), None);
}

#[test]
fn resolve_prefers_command_line_path() {
    assert_eq!(resolve_config_path(Some("/"), None), Some("/".to_string()));
}

#[test]
fn resolve_finds_nothing_when_nothing_exists() {
    let r = resolve_config_path(
        Some("/nonexistent-uplog-test/uplog.toml"),
        Some("/nonexistent-uplog-home"),
    );
    if !std::path::Path::new("./uplog.toml").exists()
        && !std::path::Path::new("/etc/uplog/uplog.toml").exists()
    {
        assert_eq!(r, None);
    }
}

#[test]
fn home_is_expanded_in_paths() {
    assert_eq!(expand_home("~/.pm2/logs/app-out.log", Some("/home/u")), "/home/u/.pm2/logs/app-out.log");
    assert_eq!(expand_home("~", Some("/home/u")), "/home/u");
    assert_eq!(expand_home("~user/x", Some("/home/u")), "~user/x");
    assert_eq!(expand_home("/var/log/a.log", Some("/home/u")), "/var/log/a.log");
    assert_eq!(expand_home("~/x", None), "~/x");
}

#[test]
fn read_failure_names_the_file() {
    match read_failure("/etc/uplog/uplog.toml", "permission denied") {
        AppError::ConfigParseError(m) => {
            assert_eq!(m, "failed to read /etc/uplog/uplog.toml: permission denied")
        }
        other => panic!("unexpected {:?}", other),
    }
}

#[test]
fn missing_config_is_reported() {
    assert_eq!(locate_config(Some("/"), None).unwrap(), "/");
    if !std::path::Path::new("./uplog.toml").exists()
        && !std::path::Path::new("/etc/uplog/uplog.toml").exists()
    {
        assert!(matches!(
            locate_config(Some("/nonexistent-uplog-test/x.toml"), Some("/nonexistent-uplog-home")),
            Err(AppError::ConfigNotFound)
        ));
    }
}
