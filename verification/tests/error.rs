use uplog::error::AppError;

#[test]
fn messages_carry_prefix_and_text() {
    let cases = vec![
        (
            AppError::ConfigNotFound,
            "[uplog error] config: no config file found (checked ./uplog.toml, ~/.uplog.toml, /etc/uplog/uplog.toml)",
        ),
        (AppError::ConfigParseError("bad".to_string()), "[uplog error] config: parse failed — bad"),
        (
            AppError::ConfigValidationError("agent.id cannot be empty".to_string()),
            "[uplog error] config: invalid field — agent.id cannot be empty",
        ),
        (AppError::LogWatchError("cannot open x".to_string()), "[uplog error] logs: cannot open x"),
        (AppError::MetricsError("m".to_string()), "[uplog error] metrics: m"),
        (
            AppError::ShipError("batch dropped after 3 attempts".to_string()),
            "[uplog error] shipper: batch dropped after 3 attempts",
        ),
        (
            AppError::BufferLockError,
            "[uplog error] buffer: failed to acquire lock on shared buffer",
        ),
        (AppError::InitError("no".to_string()), "[uplog error] init: no"),
    ];
    for (e, text) in cases {
        let m = e.message();
        assert_eq!(m, text);
        assert!(m.starts_with("[uplog error] "));
    }
}
