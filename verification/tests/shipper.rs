use uplog::buffer::{push_log, set_metrics};
use uplog::error::AppError;
use uplog::models::{BufferInner, LogLine, MetricsSnapshot, Payload, ShipperConfig, Timestamp};
use uplog::shipper::http::{
    client_failure, is_success, prepare_batch, request_headers, serialize_failure,
    status_display, status_text, Delivery, SendOutcome, ShipAction, ShipSchedule,
};

fn ship_message(e: &AppError) -> &str {
    match e {
        AppError::ShipError(m) => m.as_str(),
        _ => panic!("expected a shipper error"),
    }
}

#[test]
fn success_is_any_2xx() {
    assert!(!is_success(199));
    assert!(is_success(200));
    assert!(is_success(204));
    assert!(is_success(299));
    assert!(!is_success(300));
    assert!(!is_success(401));
    assert!(!is_success(500));
}

#[test]
fn status_is_displayed_with_reason() {
    assert_eq!(status_display(200), "200 OK");
    assert_eq!(status_display(401), "401 Unauthorized");
    assert_eq!(status_display(404), "404 Not Found");
    assert_eq!(status_display(599), "599 <unknown status code>");
    assert_eq!(status_text(418, Some("I'm a teapot")), "418 I'm a teapot");
    assert_eq!(status_text(42, None), "42 <unknown status code>");
}

#[test]
fn headers_include_bearer_only_with_key() {
    let mut c = ShipperConfig {
        endpoint: "http://localhost:3000/ingest".to_string(),
        ship_interval_seconds: 60,
        api_key: Some("your-secret-key".to_string()),
    };
    assert_eq!(
        request_headers(&c),
        vec![
            ("Content-Type".to_string(), "application/json".to_string()),
            ("Authorization".to_string(), "Bearer your-secret-key".to_string()),
        ]
    );
    c.api_key = None;
    assert_eq!(
        request_headers(&c),
        vec![("Content-Type".to_string(), "application/json".to_string())]
    );
}

#[test]
fn delivery_stops_at_first_success() {
    let mut d = Delivery::new();
    assert_eq!(d.attempt(), 1);
    match d.on_outcome("http://x/ingest", SendOutcome::Responded(503)) {
        ShipAction::Retry { warning, delay_secs, attempt } => {
            assert_eq!(
                ship_message(&warning),
                "attempt 1: POST to http://x/ingest returned 503 Service Unavailable"
            );
            assert_eq!(delay_secs, 5);
            assert_eq!(attempt, 2);
        }
        _ => panic!("expected a retry"),
    }
    assert!(matches!(d.on_outcome("http://x/ingest", SendOutcome::Responded(201)), ShipAction::Delivered));
}

#[test]
fn delivery_gives_up_after_three_attempts() {
    let mut d = Delivery::new();
    let endpoint = "https://mybackend.com/ingest";
    match d.on_outcome(endpoint, SendOutcome::Failed("connection refused".to_string())) {
        ShipAction::Retry { warning, attempt, .. } => {
            assert_eq!(
                ship_message(&warning),
                "attempt 1: POST to https://mybackend.com/ingest failed: connection refused"
            );
            assert_eq!(attempt, 2);
        }
        _ => panic!("expected a retry"),
    }
    match d.on_outcome(endpoint, SendOutcome::Responded(401)) {
        ShipAction::Retry { warning, attempt, .. } => {
            assert_eq!(
                ship_message(&warning),
                "attempt 2: POST to https://mybackend.com/ingest returned 401 Unauthorized"
            );
            assert_eq!(attempt, 3);
        }
        _ => panic!("expected a retry"),
    }
    match d.on_outcome(endpoint, SendOutcome::Failed("timeout".to_string())) {
        ShipAction::GiveUp { warning, dropped } => {
            assert_eq!(
                ship_message(&warning),
                "attempt 3: POST to https://mybackend.com/ingest failed: timeout"
            );
            assert_eq!(ship_message(&dropped), "batch dropped after 3 attempts");
            assert_eq!(
                dropped.message(),
                "[uplog error] shipper: batch dropped after 3 attempts"
            );
        }
        _ => panic!("expected to give up"),
    }
    assert_eq!(d.attempt(), 3);
}

#[test]
fn empty_buffer_gives_no_batch() {
    let mut b = BufferInner::default();
    assert!(prepare_batch(&mut b, &"agent".to_string()).unwrap().is_none());
}

#[test]
fn batch_takes_everything_pending() {
    let mut b = BufferInner::default();
    push_log(
        &mut b,
        LogLine::captured_at("/tmp/test.log", "hello".to_string(), Timestamp { secs: 1, nanos: 0 }),
    );
    set_metrics(
        &mut b,
        MetricsSnapshot {
            cpu_usage_percent_bits: 0,
            memory_used_mb: 1,
            memory_total_mb: 2,
            disk_used_bytes: 3,
            disk_total_bytes: 4,
            net_bytes_sent: 5,
            net_bytes_received: 6,
            collected_at: Timestamp { secs: 2, nanos: 0 },
        },
    );
    let p: Payload = prepare_batch(&mut b, &"prod-api-01".to_string()).unwrap().unwrap();
    assert_eq!(p.agent_id, "prod-api-01");
    assert_eq!(p.logs.len(), 1);
    assert_eq!(p.logs[0].source, "file:/tmp/test.log");
    assert_eq!(p.metrics.unwrap().memory_total_mb, 2);
    assert!(p.timestamp.secs > 0);
    assert!(b.logs.is_empty() && b.metrics.is_none());
    assert!(prepare_batch(&mut b, &"prod-api-01".to_string()).unwrap().is_none());
}

#[test]
fn payload_assembles_fields() {
    let at = Timestamp { secs: 1_705_327_380, nanos: 0 };
    let p = Payload::assemble(&"test".to_string(), vec![], None, at);
    assert_eq!(p.agent_id, "test");
    assert!(p.logs.is_empty());
    assert!(p.metrics.is_none());
    assert_eq!(p.timestamp, at);
}

#[test]
fn failure_reports_name_the_cause() {
    assert_eq!(ship_message(&serialize_failure("oops")), "failed to serialize payload: oops");
    assert_eq!(ship_message(&client_failure("tls")), "failed to build HTTP client: tls");
}

#[test]
fn first_tick_is_not_shipped() {
    let mut s = ShipSchedule::new();
    assert!(!s.on_tick());
    assert!(s.on_tick());
    assert!(s.on_tick());
}

#[test]
fn stamped_payload_carries_batch() {
    let p = Payload::stamped(&"a".to_string(), vec![], None).unwrap();
    assert_eq!(p.agent_id, "a");
    assert!(p.timestamp.secs > 0);
}
