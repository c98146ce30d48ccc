use server_monitor::{
    build_health_url, build_metrics_url, build_push_url, MonitorConfig, MonitorError, Targets,
};

fn config(backend: &str, push_mode: bool) -> MonitorConfig {
    MonitorConfig {
        backend: backend.to_string(),
        health: "/health".to_string(),
        metrics: "/api/monitoring/system".to_string(),
        metrics_api_key: None,
        interval: 10,
        timeout: 5,
        push_mode,
        push_api_key: None,
    }
}

#[test]
fn absolute_path_replaces_base_path() {
    assert_eq!(build_health_url("http://h/a/", "/health"), Ok("http://h/health".to_string()));
}

#[test]
fn absolute_path_on_bare_host() {
    assert_eq!(build_health_url("http://h", "/health"), Ok("http://h/health".to_string()));
}

#[test]
fn relative_path_joins_base_directory() {
    assert_eq!(build_metrics_url("http://h/a/b", "c"), Ok("http://h/a/c".to_string()));
    assert_eq!(build_metrics_url("http://h/a/", "c"), Ok("http://h/a/c".to_string()));
}

#[test]
fn resolution_is_deterministic() {
    let a = build_metrics_url("http://127.0.0.1:5000", "/api/monitoring/system");
    let b = build_metrics_url("http://127.0.0.1:5000", "/api/monitoring/system");
    assert_eq!(a, b);
    assert_eq!(a, Ok("http://127.0.0.1:5000/api/monitoring/system".to_string()));
}

#[test]
fn invalid_base_fails_with_base_text() {
    assert_eq!(
        build_health_url("not a url", "/health"),
        Err(MonitorError::InvalidUrl("not a url".to_string()))
    );
}

#[test]
fn failed_join_names_parsed_base_and_path() {
    assert_eq!(
        build_health_url("mailto:x", "/health"),
        Err(MonitorError::InvalidUrl("mailto:x/health".to_string()))
    );
}

#[test]
fn push_url_is_fixed_path() {
    assert_eq!(
        build_push_url("http://h:5000/base/"),
        Ok("http://h:5000/api/monitoring/data".to_string())
    );
}

#[test]
fn targets_built_with_defaults() {
    let t = Targets::build(&config("http://127.0.0.1:5000", true)).unwrap();
    assert_eq!(t.health_url, "http://127.0.0.1:5000/health");
    assert_eq!(t.metrics_url, "http://127.0.0.1:5000/api/monitoring/system");
    assert_eq!(t.push_url, Some("http://127.0.0.1:5000/api/monitoring/data".to_string()));
}

#[test]
fn targets_without_push_mode_have_no_push_url() {
    let t = Targets::build(&config("http://h", false)).unwrap();
    assert_eq!(t.push_url, None);
}

#[test]
fn invalid_base_prevents_targets() {
    assert_eq!(
        Targets::build(&config("not a url", false)),
        Err(MonitorError::InvalidUrl("not a url".to_string()))
    );
}

#[test]
fn targets_error_names_first_failing_target() {
    let mut c = config("mailto:x", false);
    c.health = "http://other/health".to_string();
    assert_eq!(
        Targets::build(&c),
        Err(MonitorError::InvalidUrl("mailto:x/api/monitoring/system".to_string()))
    );
    let c = config("mailto:x", true);
    assert_eq!(
        Targets::build(&c),
        Err(MonitorError::InvalidUrl("mailto:x/health".to_string()))
    );
}
