use rustagent::body::CapturedBody;
use rustagent::config::{resolve, Config, Exporter, TraceReporterType};
use rustagent::factorial;
use rustagent::gate::should_capture_content_type;
use rustagent::headers::{populate_headers, HeaderMap};
use rustagent::interceptor::{
    content_type_text, HandlerOutcome, RequestMeta, ResponseData, ResponseDisposition, RustAgent,
    RustAgentMiddleware, SpanPhase, TraceSession,
};
use rustagent::span::SpanRecord;
use rustagent::text::decimal_string;

fn attr<'a>(span: &'a SpanRecord, key: &str) -> Option<&'a String> {
    span.attribute(key)
}

fn default_middleware() -> RustAgentMiddleware {
    RustAgent::default().new_transform()
}

fn json_request() -> RequestMeta {
    let mut headers = HeaderMap::new();
    headers.push("Content-Type".to_string(), b"application/json".to_vec());
    RequestMeta {
        method: "POST".to_string(),
        url: "http://localhost/orders".to_string(),
        target: Some("/orders".to_string()),
        scheme: Some("http".to_string()),
        headers,
    }
}

fn json_response(status: u16, body: &[u8]) -> ResponseData {
    let mut headers = HeaderMap::new();
    headers.push("content-type".to_string(), b"application/json".to_vec());
    ResponseData { status, headers, body_chunks: vec![body.to_vec()] }
}

#[test]
fn factorial_values() {
    assert_eq!(factorial(0), 1);
    assert_eq!(factorial(1), 1);
    assert_eq!(factorial(5), 120);
    assert_eq!(factorial(12), 479001600);
}

#[test]
fn gate_allows_json_content_type() {
    let allowed = vec!["json".to_string()];
    assert!(should_capture_content_type("application/json; charset=utf-8", &allowed));
}

#[test]
fn gate_rejects_png() {
    let allowed = vec!["json".to_string()];
    assert!(!should_capture_content_type("image/png", &allowed));
}

#[test]
fn gate_rejects_absent_header_sentinel() {
    let allowed = vec!["json".to_string()];
    assert!(!should_capture_content_type("unknown", &allowed));
}

#[test]
fn gate_is_case_insensitive() {
    let allowed = vec!["json".to_string()];
    assert!(should_capture_content_type("Application/JSON", &allowed));
}

#[test]
fn gate_never_fails_on_empty_input() {
    let allowed = vec!["json".to_string()];
    assert!(!should_capture_content_type("", &allowed));
    let none: Vec<String> = Vec::new();
    assert!(!should_capture_content_type("application/json", &none));
}

#[test]
fn content_type_of_empty_header_map_is_unknown() {
    let headers = HeaderMap::new();
    assert_eq!(content_type_text(&headers), "unknown");
}

#[test]
fn config_default_values() {
    let c = Config::default();
    assert_eq!(c.service_name.as_deref(), Some("rustagent"));
    let e = c.exporter.unwrap();
    assert_eq!(e.endpoint.as_deref(), Some("localhost:4317"));
    assert!(matches!(e.trace_reporter_type, Some(TraceReporterType::Otlp)));
    assert_eq!(c.allowed_content_types.unwrap(), vec!["json".to_string()]);
}

#[test]
fn resolve_without_overrides_gives_defaults() {
    let c = resolve(None, None);
    assert_eq!(c.service_name.as_deref(), Some("rustagent"));
    let e = c.exporter.unwrap();
    assert_eq!(e.endpoint.as_deref(), Some("localhost:4317"));
    assert!(matches!(e.trace_reporter_type, Some(TraceReporterType::Otlp)));
    assert_eq!(c.allowed_content_types.unwrap(), vec!["json".to_string()]);
}

#[test]
fn capture_decision_false_when_content_type_absent() {
    let middleware = default_middleware();
    assert!(!middleware.capture_decision(&HeaderMap::new()));
}

#[test]
fn config_environment_overrides_endpoint() {
    let env = Config {
        service_name: None,
        exporter: Some(Exporter {
            endpoint: Some("collector:4317".to_string()),
            trace_reporter_type: None,
        }),
        allowed_content_types: None,
    };
    let c = resolve(None, Some(env));
    let e = c.exporter.unwrap();
    assert_eq!(e.endpoint.as_deref(), Some("collector:4317"));
    assert!(matches!(e.trace_reporter_type, Some(TraceReporterType::Otlp)));
    assert_eq!(c.service_name.as_deref(), Some("rustagent"));
}

#[test]
fn config_environment_wins_over_file() {
    let file = Config {
        service_name: Some("from-file".to_string()),
        exporter: Some(Exporter {
            endpoint: Some("file:4317".to_string()),
            trace_reporter_type: Some(TraceReporterType::Logging),
        }),
        allowed_content_types: Some(vec!["xml".to_string()]),
    };
    let env = Config {
        service_name: Some("from-env".to_string()),
        exporter: None,
        allowed_content_types: None,
    };
    let c = resolve(Some(file), Some(env));
    assert_eq!(c.service_name.as_deref(), Some("from-env"));
    let e = c.exporter.unwrap();
    assert_eq!(e.endpoint.as_deref(), Some("file:4317"));
    assert!(matches!(e.trace_reporter_type, Some(TraceReporterType::Logging)));
    assert_eq!(c.allowed_content_types.unwrap(), vec!["xml".to_string()]);
}

#[test]
fn header_projection_prefixes_names() {
    let mut span = SpanRecord::new("GET".to_string());
    let mut headers = HeaderMap::new();
    headers.push("X-A".to_string(), b"1".to_vec());
    headers.push("X-B".to_string(), b"2".to_vec());
    populate_headers(&mut span, &headers, "http.request.header.");
    assert_eq!(attr(&span, "http.request.header.X-A").map(|s| s.as_str()), Some("1"));
    assert_eq!(attr(&span, "http.request.header.X-B").map(|s| s.as_str()), Some("2"));
    assert_eq!(span.attr_count(), 2);
}

#[test]
fn header_projection_skips_unrepresentable_value() {
    let mut span = SpanRecord::new("GET".to_string());
    let mut headers = HeaderMap::new();
    headers.push("X-Bad".to_string(), vec![0xff, 0xfe]);
    headers.push("X-Good".to_string(), b"ok".to_vec());
    populate_headers(&mut span, &headers, "http.request.header.");
    assert!(attr(&span, "http.request.header.X-Bad").is_none());
    assert_eq!(attr(&span, "http.request.header.X-Good").map(|s| s.as_str()), Some("ok"));
    assert_eq!(span.attr_count(), 1);
}

#[test]
fn duplicate_header_names_collapse_last_wins() {
    let mut span = SpanRecord::new("GET".to_string());
    let mut headers = HeaderMap::new();
    headers.push("X-D".to_string(), b"first".to_vec());
    headers.push("X-D".to_string(), b"second".to_vec());
    populate_headers(&mut span, &headers, "p.");
    assert_eq!(span.attr_count(), 2);
    assert_eq!(attr(&span, "p.X-D").map(|s| s.as_str()), Some("second"));
}

#[test]
fn captured_body_concatenates_chunks_in_order() {
    let chunks = vec![b"{\"id\"".to_vec(), b":1}".to_vec()];
    let captured = CapturedBody::capture(&chunks);
    assert_eq!(captured.rebuild(), b"{\"id\":1}".to_vec());
    assert_eq!(captured.len(), 8);
}

#[test]
fn rebuild_is_repeatable() {
    let chunks = vec![b"ab".to_vec(), b"".to_vec(), b"cde".to_vec()];
    let captured = CapturedBody::capture(&chunks);
    let first = captured.rebuild();
    let second = captured.rebuild();
    assert_eq!(first, b"abcde".to_vec());
    assert_eq!(first, second);
    let recaptured = CapturedBody::capture(&vec![first.clone()]);
    assert_eq!(recaptured.rebuild(), first);
}

#[test]
fn body_display_substitutes_sentinel_for_invalid_utf8() {
    let captured = CapturedBody::capture(&vec![vec![0xff]]);
    assert_eq!(captured.to_text(), "Unknown");
}

#[test]
fn status_codes_render_in_decimal() {
    assert_eq!(decimal_string(201), "201");
    assert_eq!(decimal_string(0), "0");
    assert_eq!(decimal_string(65535), "65535");
}

#[test]
fn intercept_end_to_end_json_post() {
    let middleware = default_middleware();
    let req = json_request();
    let chunks = vec![b"{\"id\":1}".to_vec()];
    let outcome = HandlerOutcome::Completed(json_response(201, b"{\"ok\":true}"));
    let out = middleware.intercept(&req, &chunks, outcome);
    assert_eq!(out.forwarded_body, b"{\"id\":1}".to_vec());
    assert!(out.span.is_ended());
    assert_eq!(out.span.name(), "POST");
    assert_eq!(attr(&out.span, "http.method").map(|s| s.as_str()), Some("POST"));
    assert_eq!(attr(&out.span, "http.target").map(|s| s.as_str()), Some("/orders"));
    assert_eq!(attr(&out.span, "http.url").map(|s| s.as_str()), Some("http://localhost/orders"));
    assert_eq!(attr(&out.span, "http.scheme").map(|s| s.as_str()), Some("http"));
    assert_eq!(attr(&out.span, "http.request.body").map(|s| s.as_str()), Some("{\"id\":1}"));
    assert_eq!(attr(&out.span, "http.status_code").map(|s| s.as_str()), Some("201"));
    assert_eq!(attr(&out.span, "http.response.body").map(|s| s.as_str()), Some("{\"ok\":true}"));
    match out.response {
        ResponseDisposition::Rebuilt(b) => {
            assert_eq!(b.status, 201);
            assert_eq!(b.body, b"{\"ok\":true}".to_vec());
            assert_eq!(b.headers.len(), 1);
            assert_eq!(b.headers.name_at(0), "content-type");
            assert_eq!(b.headers.value_at(0), &b"application/json".to_vec());
        }
        _ => panic!("expected a rebuilt response"),
    }
}

#[test]
fn intercept_passthrough_sets_no_response_body_attribute() {
    let middleware = default_middleware();
    let req = json_request();
    let chunks: Vec<Vec<u8>> = Vec::new();
    let mut headers = HeaderMap::new();
    headers.push("content-type".to_string(), b"image/png".to_vec());
    let resp = ResponseData { status: 200, headers, body_chunks: vec![b"PNG".to_vec()] };
    let out = middleware.intercept(&req, &chunks, HandlerOutcome::Completed(resp));
    assert!(out.span.is_ended());
    assert!(attr(&out.span, "http.response.body").is_none());
    assert_eq!(attr(&out.span, "http.status_code").map(|s| s.as_str()), Some("200"));
    match out.response {
        ResponseDisposition::Passthrough(orig) => {
            assert_eq!(orig.status, 200);
            assert_eq!(orig.body_chunks, vec![b"PNG".to_vec()]);
            assert_eq!(orig.headers.len(), 1);
        }
        _ => panic!("expected the original response to pass through"),
    }
}

#[test]
fn intercept_failure_still_ends_span() {
    let middleware = default_middleware();
    let req = json_request();
    let chunks = vec![b"body".to_vec()];
    let out = middleware.intercept(&req, &chunks, HandlerOutcome::Failed);
    assert!(out.span.is_ended());
    assert!(matches!(out.response, ResponseDisposition::Failed));
    assert_eq!(out.forwarded_body, b"body".to_vec());
    assert_eq!(attr(&out.span, "http.method").map(|s| s.as_str()), Some("POST"));
    assert!(attr(&out.span, "http.status_code").is_none());
}

#[test]
fn intercept_missing_target_uses_sentinel() {
    let middleware = default_middleware();
    let req = RequestMeta {
        method: "GET".to_string(),
        url: "http://localhost/".to_string(),
        target: None,
        scheme: None,
        headers: HeaderMap::new(),
    };
    let out = middleware.intercept(&req, &Vec::new(), HandlerOutcome::Failed);
    assert_eq!(attr(&out.span, "http.target").map(|s| s.as_str()), Some("unknown"));
    assert!(attr(&out.span, "http.scheme").is_none());
    assert_eq!(attr(&out.span, "http.request.body").map(|s| s.as_str()), Some(""));
}

#[test]
fn intercept_request_body_sentinel_when_not_utf8() {
    let middleware = default_middleware();
    let req = json_request();
    let chunks = vec![vec![0xc3], vec![0x28]];
    let out = middleware.intercept(&req, &chunks, HandlerOutcome::Failed);
    assert_eq!(attr(&out.span, "http.request.body").map(|s| s.as_str()), Some("Unknown"));
    assert_eq!(out.forwarded_body, vec![0xc3, 0x28]);
}

#[test]
fn session_walks_phases_in_order() {
    let mut session = TraceSession::open("GET");
    assert!(matches!(session.phase(), SpanPhase::Created));
    let req = json_request();
    session.annotate_request(&req);
    assert!(matches!(session.phase(), SpanPhase::RequestAnnotated));
    let captured = CapturedBody::capture(&Vec::new());
    session.record_request_body(&captured);
    session.enter_handler();
    assert!(matches!(session.phase(), SpanPhase::HandlerInvoked));
    session.annotate_response(204, &HeaderMap::new());
    assert!(matches!(session.phase(), SpanPhase::ResponseAnnotated));
    assert!(!session.span().is_ended());
    session.finish();
    assert!(matches!(session.phase(), SpanPhase::Ended));
    let span = session.into_span();
    assert!(span.is_ended());
    assert_eq!(attr(&span, "http.status_code").map(|s| s.as_str()), Some("204"));
}

#[test]
fn capture_decision_follows_configuration() {
    let middleware = RustAgentMiddleware {
        config: Config {
            service_name: None,
            exporter: None,
            allowed_content_types: Some(vec!["xml".to_string()]),
        },
    };
    let mut headers = HeaderMap::new();
    headers.push("content-type".to_string(), b"text/xml".to_vec());
    assert!(middleware.capture_decision(&headers));
    let mut other = HeaderMap::new();
    other.push("content-type".to_string(), b"application/json".to_vec());
    assert!(!middleware.capture_decision(&other));
}

#[test]
fn capture_decision_defaults_to_json_when_unconfigured() {
    let middleware = RustAgentMiddleware {
        config: Config { service_name: None, exporter: None, allowed_content_types: None },
    };
    let mut headers = HeaderMap::new();
    headers.push("content-type".to_string(), b"application/json".to_vec());
    assert!(middleware.capture_decision(&headers));
}
