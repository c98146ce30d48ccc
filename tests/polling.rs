use server_monitor::{
    health_report, is_success, metrics_key_header, push_key_header, HealthReport, KeyHeader,
    Percent, PollResult, SystemSnapshot, METRICS_KEY_HEADER, PUSH_KEY_HEADER,
};

#[test]
fn healthy_response_reports_status() {
    let r = PollResult::new(200, 12, true);
    assert!(r.success);
    assert_eq!(
        health_report(&r, Some("ok".to_string())),
        HealthReport::Healthy { code: 200, latency_ms: 12, status: "ok".to_string() }
    );
}

#[test]
fn healthy_response_without_status_reports_empty() {
    let r = PollResult::new(204, 3, false);
    assert_eq!(
        health_report(&r, None),
        HealthReport::Healthy { code: 204, latency_ms: 3, status: String::new() }
    );
}

#[test]
fn server_error_is_unhealthy_regardless_of_body() {
    let r = PollResult::new(500, 7, true);
    assert!(!r.success);
    assert_eq!(
        health_report(&r, Some("ok".to_string())),
        HealthReport::Unhealthy { code: 500, latency_ms: 7 }
    );
}

#[test]
fn success_range_is_2xx() {
    assert!(!is_success(199));
    assert!(is_success(200));
    assert!(is_success(299));
    assert!(!is_success(300));
    assert!(!is_success(404));
}

#[test]
fn metrics_key_attached_exactly() {
    assert_eq!(METRICS_KEY_HEADER, "X-Metrics-Key");
    assert_eq!(
        metrics_key_header(&Some("s3cr3t value".to_string())),
        KeyHeader::Attached("s3cr3t value".to_string())
    );
}

#[test]
fn metrics_key_absent_omits_header() {
    assert_eq!(metrics_key_header(&None), KeyHeader::Absent);
}

#[test]
fn metrics_key_with_newline_is_rejected() {
    assert_eq!(metrics_key_header(&Some("bad\nkey".to_string())), KeyHeader::Rejected);
    assert_eq!(metrics_key_header(&Some("del\u{7f}".to_string())), KeyHeader::Rejected);
}

#[test]
fn metrics_key_with_tab_and_unicode_is_accepted() {
    assert_eq!(
        metrics_key_header(&Some("a\tb\u{e9}".to_string())),
        KeyHeader::Attached("a\tb\u{e9}".to_string())
    );
}

#[test]
fn push_key_passed_through() {
    assert_eq!(PUSH_KEY_HEADER, "X-API-Key");
    assert_eq!(push_key_header(&Some("k".to_string())), KeyHeader::Attached("k".to_string()));
    assert_eq!(push_key_header(&None), KeyHeader::Absent);
}

#[test]
fn zero_total_memory_gives_zero_percent() {
    let s = SystemSnapshot::from_readings(4, 0, 0);
    assert_eq!(s.memory_percent, Percent { part: 0, whole: 1 });
    assert!(s.memory_percent.is_zero());
}

#[test]
fn snapshot_memory_fields() {
    let s = SystemSnapshot::from_readings(8, 1000, 250);
    assert_eq!(s.cpu_count, 8);
    assert_eq!(s.memory_total, 1000);
    assert_eq!(s.memory_used, 250);
    assert_eq!(s.memory_available, 750);
    assert_eq!(s.memory_percent, Percent { part: 250, whole: 1000 });
}

#[test]
fn snapshot_disk_and_network_are_zero() {
    let s = SystemSnapshot::from_readings(2, 1 << 30, 1 << 29);
    assert_eq!((s.disk_total, s.disk_used, s.disk_free), (0, 0, 0));
    assert_eq!(s.disk_percent, Percent { part: 0, whole: 1 });
    assert_eq!((s.bytes_sent, s.bytes_recv), (0, 0));
}

#[test]
fn percent_of_nonzero_whole_is_kept() {
    assert_eq!(Percent::of(3, 4), Percent { part: 3, whole: 4 });
    assert_eq!(Percent::of(3, 0), Percent { part: 0, whole: 1 });
}

#[test]
fn health_200_with_status_ok_is_healthy() {
    let (r, report) = server_monitor::health_response(200, 9, br#"{"status":"ok"}"#);
    assert!(r.success);
    assert!(r.has_body);
    assert_eq!(report, HealthReport::Healthy { code: 200, latency_ms: 9, status: "ok".to_string() });
}

#[test]
fn health_500_is_unhealthy_whatever_the_body() {
    let (r, report) = server_monitor::health_response(500, 4, br#"{"status":"ok"}"#);
    assert!(!r.success);
    assert_eq!(report, HealthReport::Unhealthy { code: 500, latency_ms: 4 });
    let (_, report) = server_monitor::health_response(503, 4, b"down");
    assert_eq!(report, HealthReport::Unhealthy { code: 503, latency_ms: 4 });
}

#[test]
fn health_body_not_json_has_no_body_and_empty_status() {
    let (r, report) = server_monitor::health_response(200, 1, b"<html>");
    assert!(!r.has_body);
    assert_eq!(report, HealthReport::Healthy { code: 200, latency_ms: 1, status: String::new() });
}

#[test]
fn health_status_not_a_string_is_empty() {
    let (r, report) = server_monitor::health_response(200, 1, br#"{"status":3,"db":"ok"}"#);
    assert!(r.has_body);
    assert_eq!(report, HealthReport::Healthy { code: 200, latency_ms: 1, status: String::new() });
}

#[test]
fn metrics_response_records_body_and_success() {
    let r = server_monitor::poll_response(201, 15, br#"{"cpu":1}"#);
    assert_eq!(r, PollResult { code: 201, latency_ms: 15, has_body: true, success: true });
    let r = server_monitor::poll_response(404, 2, b"");
    assert_eq!(r, PollResult { code: 404, latency_ms: 2, has_body: false, success: false });
}

#[test]
fn health_status_is_read_from_status_member() {
    assert_eq!(server_monitor::STATUS_MEMBER, "status");
    let (_, report) = server_monitor::health_response(200, 2, br#"{"state":"ok"}"#);
    assert_eq!(report, HealthReport::Healthy { code: 200, latency_ms: 2, status: String::new() });
}
