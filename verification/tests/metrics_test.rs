use wikify_web::metrics::{get_memory_usage, DurationWindow, MetricsCollector};

#[test]
fn counters_start_at_zero() {
    let m = MetricsCollector::new();
    assert_eq!(m.http_requests_total, 0);
    assert_eq!(m.duration_summary(DurationWindow::Http), (0, 0));
    assert!(m.requests_by_status().is_empty());
    assert_eq!(get_memory_usage(), 100 * 1024 * 1024);
}

#[test]
fn http_requests_by_status() {
    let mut m = MetricsCollector::new();
    m.record_http_request(200, 10);
    m.record_http_request(404, 20);
    m.record_http_request(200, 30);
    assert_eq!(m.http_requests_total, 3);
    assert_eq!(m.status_count(200), 2);
    assert_eq!(m.status_count(404), 1);
    assert_eq!(m.status_count(500), 0);
    assert_eq!(m.duration_summary(DurationWindow::Http), (60, 3));
    assert_eq!(m.requests_by_status(), vec![(200, 2), (404, 1)]);
}

#[test]
fn windows_keep_the_most_recent() {
    let mut m = MetricsCollector::new();
    for i in 0..105u64 {
        m.record_repository_indexing(i);
    }
    assert_eq!(m.repositories_indexed, 105);
    let window = m.recent_durations(DurationWindow::Indexing);
    assert_eq!(window.len(), 100);
    assert_eq!(window[0], 5);
    assert_eq!(window[99], 104);
    for i in 0..1001u64 {
        m.record_database_query(i);
    }
    assert_eq!(m.recent_durations(DurationWindow::Database).len(), 1000);
    assert_eq!(m.recent_durations(DurationWindow::Database)[0], 1);
}

#[test]
fn websocket_counters() {
    let mut m = MetricsCollector::new();
    m.record_websocket_connection();
    m.record_websocket_connection();
    m.record_websocket_disconnection();
    m.record_websocket_message(true);
    m.record_websocket_message(false);
    m.record_websocket_message(false);
    let ws = m.websocket_metrics();
    assert_eq!(ws.connections_total, 2);
    assert_eq!(ws.connections_active, 1);
    assert_eq!(ws.messages_sent, 1);
    assert_eq!(ws.messages_received, 2);
    let mut fresh = MetricsCollector::new();
    fresh.record_websocket_disconnection();
    assert_eq!(fresh.websocket_connections_active, u64::MAX);
}

#[test]
fn chat_wiki_and_errors() {
    let mut m = MetricsCollector::new();
    m.record_chat_query(100, 5);
    m.record_chat_query(300, 7);
    m.record_wiki_generation(1000, 12);
    m.record_repository_initialization();
    m.record_error("timeout");
    m.record_error("timeout");
    m.record_error("parse");
    m.record_system_usage(42, 1234);
    assert_eq!(m.chat_tokens_processed, 12);
    assert_eq!(m.duration_summary(DurationWindow::Chat), (400, 2));
    assert_eq!(m.wiki_pages_generated, 12);
    assert_eq!(m.repositories_initialized, 1);
    assert_eq!(m.uptime_seconds, 42);
    assert_eq!(m.memory_usage_bytes, 1234);
    let errors = m.error_metrics();
    assert_eq!(errors.total, 3);
    assert_eq!(errors.by_type, vec![("timeout".to_string(), 2), ("parse".to_string(), 1)]);
}
