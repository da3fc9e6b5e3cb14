use uplog::buffer::{drain, is_empty, push_log, set_metrics};
use uplog::models::{BufferInner, LogLine, MetricsSnapshot, Timestamp};

fn line(text: &str, secs: i64) -> LogLine {
    LogLine::captured_at("/var/log/app.log", text.to_string(), Timestamp { secs, nanos: 0 })
}

fn snapshot(cpu: f32, at: i64) -> MetricsSnapshot {
    MetricsSnapshot {
        cpu_usage_percent_bits: cpu.to_bits(),
        memory_used_mb: 3200,
        memory_total_mb: 8192,
        disk_used_bytes: 10,
        disk_total_bytes: 20,
        net_bytes_sent: 1,
        net_bytes_received: 2,
        collected_at: Timestamp { secs: at, nanos: 0 },
    }
}

#[test]
fn new_buffer_is_empty() {
    let b = BufferInner::default();
    assert!(is_empty(&b));
    assert!(b.logs.is_empty());
    assert!(b.metrics.is_none());
}

#[test]
fn drain_returns_lines_in_arrival_order() {
    let mut b = BufferInner::default();
    push_log(&mut b, line("first", 1));
    push_log(&mut b, line("second", 2));
    push_log(&mut b, line("third", 3));
    assert!(!is_empty(&b));
    let (logs, metrics) = drain(&mut b);
    let texts: Vec<&str> = logs.iter().map(|l| l.line.as_str()).collect();
    assert_eq!(texts, vec!["first", "second", "third"]);
    assert!(metrics.is_none());
    assert!(is_empty(&b));
}

#[test]
fn only_latest_snapshot_is_kept() {
    let mut b = BufferInner::default();
    set_metrics(&mut b, snapshot(10.0, 100));
    set_metrics(&mut b, snapshot(87.3, 200));
    let (logs, metrics) = drain(&mut b);
    assert!(logs.is_empty());
    let m = metrics.unwrap();
    assert_eq!(m.collected_at.secs, 200);
    assert_eq!(f32::from_bits(m.cpu_usage_percent_bits), 87.3);
}

#[test]
fn snapshot_alone_makes_buffer_non_empty() {
    let mut b = BufferInner::default();
    set_metrics(&mut b, snapshot(1.0, 1));
    assert!(!is_empty(&b));
    drain(&mut b);
    assert!(is_empty(&b));
}

#[test]
fn consecutive_drains_split_lines_without_loss() {
    let mut b = BufferInner::default();
    push_log(&mut b, line("a", 1));
    set_metrics(&mut b, snapshot(5.0, 1));
    let (first, m1) = drain(&mut b);
    push_log(&mut b, line("b", 2));
    push_log(&mut b, line("c", 3));
    let (second, m2) = drain(&mut b);
    assert_eq!(first.len(), 1);
    assert_eq!(first[0].line, "a");
    assert!(m1.is_some());
    assert_eq!(second.len(), 2);
    assert_eq!(second[0].line, "b");
    assert_eq!(second[1].line, "c");
    assert!(m2.is_none());
}

#[test]
fn drain_of_empty_buffer_is_empty() {
    let mut b = BufferInner::default();
    let (logs, metrics) = drain(&mut b);
    assert!(logs.is_empty());
    assert!(metrics.is_none());
}
