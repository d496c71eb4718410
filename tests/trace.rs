use loongfang::logging::LogLevel;
use loongfang::middleware::trace_body::{Action, TraceBodyLayer};
use loongfang::middleware::trace::{
    header_value, CustomMakeSpan, HeaderEntry, RequestMeta, SpanFields,
};

fn header(name: &str, value: &[u8]) -> HeaderEntry {
    HeaderEntry { name: name.to_string(), value: value.to_vec() }
}

fn request(peer: Option<&str>, headers: Vec<HeaderEntry>) -> RequestMeta {
    RequestMeta {
        peer_ip: peer.map(|p| p.to_string()),
        method: "GET".to_string(),
        uri: "/".to_string(),
        version: "HTTP/1.1".to_string(),
        headers,
    }
}

#[test]
fn compact_span_reads_client_headers() {
    let req = request(
        Some("127.0.0.1"),
        vec![header("x-forwarded-for", b"10.0.0.5"), header("x-request-id", b"abc-123")],
    );
    let span = CustomMakeSpan::new().make_span(req);
    assert_eq!(span.level, LogLevel::Debug);
    assert_eq!(span.direct_connect_ip, "127.0.0.1");
    assert_eq!(span.method, "GET");
    assert_eq!(span.uri, "/");
    assert_eq!(span.version, "HTTP/1.1");
    match span.fields {
        SpanFields::Compact { forwarded_for, real_ip, request_id } => {
            assert_eq!(forwarded_for, "10.0.0.5");
            assert_eq!(real_ip, "N/A");
            assert_eq!(request_id, "abc-123");
        }
        SpanFields::Verbose { .. } => panic!("compact span expected"),
    }
}

#[test]
fn missing_peer_becomes_sentinel() {
    let span = CustomMakeSpan::default().make_span(request(None, Vec::new()));
    assert_eq!(span.direct_connect_ip, "N/A");
    match span.fields {
        SpanFields::Compact { forwarded_for, real_ip, request_id } => {
            assert_eq!(forwarded_for, "N/A");
            assert_eq!(real_ip, "N/A");
            assert_eq!(request_id, "N/A");
        }
        SpanFields::Verbose { .. } => panic!("compact span expected"),
    }
}

#[test]
fn verbose_span_keeps_raw_headers() {
    let req = request(
        Some("::1"),
        vec![header("x-real-ip", b"1.2.3.4"), header("accept", b"*/*")],
    );
    let span = CustomMakeSpan::new()
        .include_headers(true)
        .level(LogLevel::Trace)
        .make_span(req);
    assert_eq!(span.level, LogLevel::Trace);
    match span.fields {
        SpanFields::Verbose { headers } => {
            assert_eq!(headers.len(), 2);
            assert_eq!(headers[0].name, "x-real-ip");
            assert_eq!(headers[1].value, b"*/*".to_vec());
        }
        SpanFields::Compact { .. } => panic!("verbose span expected"),
    }
}

#[test]
fn header_value_takes_first_and_rejects_invisible_bytes() {
    let hs = vec![
        header("x-real-ip", b"first"),
        header("x-real-ip", b"second"),
        header("x-request-id", b"bad\x01id"),
        header("x-forwarded-for", b"a\tb"),
    ];
    assert_eq!(header_value(&hs, "x-real-ip"), "first");
    assert_eq!(header_value(&hs, "x-request-id"), "N/A");
    assert_eq!(header_value(&hs, "x-forwarded-for"), "a\tb");
    assert_eq!(header_value(&hs, "accept"), "N/A");
    let high = vec![header("x-real-ip", "é".as_bytes())];
    assert_eq!(header_value(&high, "x-real-ip"), "N/A");
}

#[test]
fn forwarded_request_with_empty_body_end_to_end() {
    let req = request(Some("192.168.1.2"), vec![header("x-forwarded-for", b"10.0.0.5")]);
    let span = CustomMakeSpan::new().make_span(req);
    match span.fields {
        SpanFields::Compact { forwarded_for, .. } => assert_eq!(forwarded_for, "10.0.0.5"),
        SpanFields::Verbose { .. } => panic!("compact span expected"),
    }

    let mut ex = TraceBodyLayer::new().layer();
    let step = ex.on_request_body(Ok(Vec::new()));
    assert!(matches!(step.action, Action::CallInner(ref b) if b.is_empty()));
    assert_eq!(step.record.unwrap().message, "request body = \"\"");
    ex.on_inner_response();
    let step = ex.on_response_body(Ok(b"ok".to_vec()));
    assert!(matches!(step.action, Action::Forward(ref b) if b == b"ok"));
    assert_eq!(step.record.unwrap().message, "response body = \"ok\"");
}
