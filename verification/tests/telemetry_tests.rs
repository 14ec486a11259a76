use sdlc_graph::telemetry::{
    db_error_metric, db_query_metric, http_labels, http_latency_metric, http_request_metric,
    query_labels, record_db_error, record_db_query, record_http_latency, record_http_request,
    route_label, status_label,
};

#[test]
fn metric_names() {
    let (name, labels) = http_request_metric("POST", "/users", "201");
    assert_eq!(name, "http_requests_total");
    assert_eq!(labels, http_labels("POST", "/users", "201"));
    assert_eq!(http_latency_metric("GET", "/", "200").0, "http_request_duration_seconds");
    let (name, labels) = db_query_metric("get_user");
    assert_eq!(name, "db_query_duration_seconds");
    assert_eq!(labels, query_labels("get_user"));
    assert_eq!(db_error_metric("get_user").0, "db_query_errors_total");
}

#[test]
fn request_labels() {
    assert_eq!(route_label(Some("/users/:id")), "/users/:id");
    assert_eq!(route_label(None), "unknown");
    assert_eq!(status_label(200), "200");
    assert_eq!(status_label(404), "404");
    assert_eq!(status_label(u16::MAX), "65535");
}

#[test]
fn labels() {
    let l = http_labels("GET", "/users/:id", "200");
    assert_eq!(
        l,
        vec![
            ("method".to_string(), "GET".to_string()),
            ("path".to_string(), "/users/:id".to_string()),
            ("status".to_string(), "200".to_string()),
        ]
    );
    assert_eq!(query_labels("get_user"), vec![("query".to_string(), "get_user".to_string())]);
}

#[test]
fn recording_without_a_recorder_does_nothing_harmful() {
    let start = std::time::Instant::now();
    record_http_request("GET", "/", "200");
    record_http_latency("GET", "/", "200", start);
    record_db_query("get_user", start);
    record_db_error("get_user");
}
