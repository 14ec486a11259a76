use vstd::prelude::*;
use vstd::string::StringExecFns;
use crate::postgres::{decimal, decimal_text};

verus! {

/// `metrics::Counter`, a handle to a registered counter; opaque here.
#[verifier::external_type_specification]
#[verifier::external_body]
pub struct ExCounter(metrics::Counter);

/// `metrics::Histogram`, a handle to a registered histogram; opaque here.
#[verifier::external_type_specification]
#[verifier::external_body]
pub struct ExHistogram(metrics::Histogram);

/// `std::time::Instant`, a reading of the monotonic clock; opaque here.
#[verifier::external_type_specification]
#[verifier::external_body]
pub struct ExInstant(std::time::Instant);

/// The target and module path that this library's metrics are registered
/// under: the path of this module, as the `metrics` macros would give it.
pub const METRICS_TARGET: &'static str = "sdlc_graph::telemetry";

/// Registers a counter with the installed recorder, as `metrics::counter!`
/// does: builds the key with `metrics::Key::from_parts` and calls
/// `Recorder::register_counter` inside `metrics::with_recorder`. Nothing is
/// claimed of the handle it gives back.
#[verifier::external_body]
fn register_counter(
    target: &'static str,
    module: Option<&'static str>,
    name: &'static str,
    labels: Vec<(String, String)>,
) -> metrics::Counter {
    let key = metrics::Key::from_parts(name, &labels);
    let meta = metrics::Metadata::new(target, metrics::Level::INFO, module);
    metrics::with_recorder(|recorder| metrics::Recorder::register_counter(recorder, &key, &meta))
}

/// Registers a histogram with the installed recorder, as `metrics::histogram!`
/// does, through `Recorder::register_histogram`. Nothing is claimed of the
/// handle it gives back.
#[verifier::external_body]
fn register_histogram(
    target: &'static str,
    module: Option<&'static str>,
    name: &'static str,
    labels: Vec<(String, String)>,
) -> metrics::Histogram {
    let key = metrics::Key::from_parts(name, &labels);
    let meta = metrics::Metadata::new(target, metrics::Level::INFO, module);
    metrics::with_recorder(|recorder| metrics::Recorder::register_histogram(recorder, &key, &meta))
}

/// Calls `metrics::Counter::increment`; it only reports to the recorder.
#[verifier::external_body]
fn counter_increment(counter: &metrics::Counter, by: u64) {
    counter.increment(by)
}

/// Calls `metrics::Histogram::record` with a duration, which it records in seconds.
#[verifier::external_body]
fn histogram_record(histogram: &metrics::Histogram, value: std::time::Duration) {
    histogram.record(value)
}

/// Calls `std::time::Instant::elapsed`. Its result depends on the clock, so
/// nothing is claimed of it.
#[verifier::external_body]
fn elapsed_since(start: &std::time::Instant) -> std::time::Duration {
    start.elapsed()
}

fn label(key: &str, value: &str) -> (l: (String, String))
    ensures
        l.0@ == key@,
        l.1@ == value@,
{
    (String::from_str(key), String::from_str(value))
}

/// The labels of an HTTP request's metrics.
pub fn http_labels(method: &str, path: &str, status: &str) -> (v: Vec<(String, String)>)
    ensures
        v@.len() == 3,
        v@[0].0@ == "method"@ && v@[0].1@ == method@,
        v@[1].0@ == "path"@ && v@[1].1@ == path@,
        v@[2].0@ == "status"@ && v@[2].1@ == status@,
{
    let mut v: Vec<(String, String)> = Vec::new();
    v.push(label("method", method));
    v.push(label("path", path));
    v.push(label("status", status));
    v
}

/// The labels of a database query's metrics.
pub fn query_labels(query_name: &str) -> (v: Vec<(String, String)>)
    ensures
        v@.len() == 1,
        v@[0].0@ == "query"@ && v@[0].1@ == query_name@,
{
    let mut v: Vec<(String, String)> = Vec::new();
    v.push(label("query", query_name));
    v
}

/// `v` holds the labels of an HTTP request's metrics.
pub open spec fn is_http_labels(
    v: Seq<(String, String)>,
    method: Seq<char>,
    path: Seq<char>,
    status: Seq<char>,
) -> bool {
    &&& v.len() == 3
    &&& v[0].0@ == "method"@ && v[0].1@ == method
    &&& v[1].0@ == "path"@ && v[1].1@ == path
    &&& v[2].0@ == "status"@ && v[2].1@ == status
}

/// `v` holds the labels of a database query's metrics.
pub open spec fn is_query_labels(v: Seq<(String, String)>, query_name: Seq<char>) -> bool {
    &&& v.len() == 1
    &&& v[0].0@ == "query"@ && v[0].1@ == query_name
}

/// The name and labels of the counter of HTTP requests.
pub fn http_request_metric(method: &str, path: &str, status: &str) -> (m: (&'static str, Vec<(String, String)>))
    ensures
        m.0@ == "http_requests_total"@,
        is_http_labels(m.1@, method@, path@, status@),
{
    ("http_requests_total", http_labels(method, path, status))
}

/// The name and labels of the histogram of HTTP request durations.
pub fn http_latency_metric(method: &str, path: &str, status: &str) -> (m: (&'static str, Vec<(String, String)>))
    ensures
        m.0@ == "http_request_duration_seconds"@,
        is_http_labels(m.1@, method@, path@, status@),
{
    ("http_request_duration_seconds", http_labels(method, path, status))
}

/// The name and labels of the histogram of database query durations.
pub fn db_query_metric(query_name: &str) -> (m: (&'static str, Vec<(String, String)>))
    ensures
        m.0@ == "db_query_duration_seconds"@,
        is_query_labels(m.1@, query_name@),
{
    ("db_query_duration_seconds", query_labels(query_name))
}

/// The name and labels of the counter of failed database queries.
pub fn db_error_metric(query_name: &str) -> (m: (&'static str, Vec<(String, String)>))
    ensures
        m.0@ == "db_query_errors_total"@,
        is_query_labels(m.1@, query_name@),
{
    ("db_query_errors_total", query_labels(query_name))
}

/// The path label of a request: the route it matched, or `unknown`.
pub fn route_label(matched: Option<&str>) -> (s: String)
    ensures
        match matched {
            Some(p) => s@ == p@,
            None => s@ == "unknown"@,
        },
{
    match matched {
        Some(p) => String::from_str(p),
        None => String::from_str("unknown"),
    }
}

/// The status label of a response: its code in decimal.
pub fn status_label(code: u16) -> (s: String)
    ensures
        s@ == decimal_text(code as nat),
{
    decimal(code as u32)
}

/// Counts one HTTP request under its method, path and status.
pub fn record_http_request(method: &str, path: &str, status: &str) {
    let (name, labels) = http_request_metric(method, path, status);
    let counter = register_counter(METRICS_TARGET, Some(METRICS_TARGET), name, labels);
    counter_increment(&counter, 1);
}

/// Records how long an HTTP request took since `start`, under its method,
/// path and status.
pub fn record_http_latency(method: &str, path: &str, status: &str, start: std::time::Instant) {
    let (name, labels) = http_latency_metric(method, path, status);
    let histogram = register_histogram(METRICS_TARGET, Some(METRICS_TARGET), name, labels);
    let took = elapsed_since(&start);
    histogram_record(&histogram, took);
}

/// Records how long a database query took since `start`.
pub fn record_db_query(query_name: &'static str, start: std::time::Instant) {
    let (name, labels) = db_query_metric(query_name);
    let histogram = register_histogram(METRICS_TARGET, Some(METRICS_TARGET), name, labels);
    let took = elapsed_since(&start);
    histogram_record(&histogram, took);
}

/// Counts one failed database query.
pub fn record_db_error(query_name: &'static str) {
    let (name, labels) = db_error_metric(query_name);
    let counter = register_counter(METRICS_TARGET, Some(METRICS_TARGET), name, labels);
    counter_increment(&counter, 1);
}

} // verus!
