use loongfang::logging::LogLevel;
use loongfang::middleware::trace_body::{
    collect_and_log, trace_body, Action, Direction, Phase, TraceBodyLayer,
};

fn exchange() -> loongfang::middleware::trace_body::TraceBody {
    TraceBodyLayer::new().layer()
}

#[test]
fn utf8_request_body_is_logged_and_passed_on() {
    let mut ex = exchange();
    let step = ex.on_request_body(Ok(b"hello".to_vec()));
    match step.action {
        Action::CallInner(bytes) => assert_eq!(bytes, b"hello".to_vec()),
        _ => panic!("inner service not called"),
    }
    let rec = step.record.expect("no record");
    assert_eq!(rec.level, LogLevel::Debug);
    assert_eq!(rec.message, "request body = \"hello\"");
    assert_eq!(ex.phase(), Phase::AwaitingInner);
}

#[test]
fn binary_request_body_is_passed_on_unlogged() {
    let mut ex = exchange();
    let body = vec![0xff, 0xfe, 0x00, 0x80];
    let step = ex.on_request_body(Ok(body.clone()));
    match step.action {
        Action::CallInner(bytes) => assert_eq!(bytes, body),
        _ => panic!("inner service not called"),
    }
    assert!(step.record.is_none());
}

#[test]
fn request_text_with_quotes_is_escaped() {
    let mut ex = exchange();
    let step = ex.on_request_body(Ok(b"{\"a\":1}\n".to_vec()));
    assert_eq!(step.record.unwrap().message, "request body = \"{\\\"a\\\":1}\\n\"");
}

#[test]
fn request_read_failure_answers_bad_request() {
    let mut ex = exchange();
    let step = ex.on_request_body(Err("connection reset".to_string()));
    match step.action {
        Action::Respond { status, body } => {
            assert_eq!(status, 400);
            assert_eq!(body, "Bad Request");
        }
        _ => panic!("expected a fresh response"),
    }
    let rec = step.record.unwrap();
    assert_eq!(rec.level, LogLevel::Error);
    assert_eq!(rec.message, "failed to read request body: connection reset");
    assert_eq!(ex.phase(), Phase::Finished);
}

#[test]
fn inner_error_is_propagated() {
    let mut ex = exchange();
    let _ = ex.on_request_body(Ok(Vec::new()));
    assert!(matches!(ex.on_inner_error(), Action::PropagateError));
    assert_eq!(ex.phase(), Phase::Finished);
}

#[test]
fn response_body_is_logged_and_forwarded() {
    let mut ex = TraceBodyLayer::new().level(LogLevel::Info).layer();
    let _ = ex.on_request_body(Ok(Vec::new()));
    ex.on_inner_response();
    assert_eq!(ex.phase(), Phase::ReadingResponse);
    let step = ex.on_response_body(Ok(b"done".to_vec()));
    match step.action {
        Action::Forward(bytes) => assert_eq!(bytes, b"done".to_vec()),
        _ => panic!("response not forwarded"),
    }
    let rec = step.record.unwrap();
    assert_eq!(rec.level, LogLevel::Info);
    assert_eq!(rec.message, "response body = \"done\"");
}

#[test]
fn binary_response_body_is_forwarded_unlogged() {
    let mut ex = exchange();
    let _ = ex.on_request_body(Ok(Vec::new()));
    ex.on_inner_response();
    let step = ex.on_response_body(Ok(vec![0xc3, 0x28]));
    match step.action {
        Action::Forward(bytes) => assert_eq!(bytes, vec![0xc3, 0x28]),
        _ => panic!("response not forwarded"),
    }
    assert!(step.record.is_none());
}

#[test]
fn response_read_failure_answers_internal_error() {
    let mut ex = exchange();
    let _ = ex.on_request_body(Ok(Vec::new()));
    ex.on_inner_response();
    let step = ex.on_response_body(Err("stream broke".to_string()));
    match step.action {
        Action::Respond { status, body } => {
            assert_eq!(status, 500);
            assert_eq!(body, "Internal Server Error");
        }
        _ => panic!("expected a fresh response"),
    }
    assert_eq!(
        step.record.unwrap().message,
        "failed to read response body: stream broke"
    );
    assert_eq!(ex.phase(), Phase::Finished);
}

#[test]
fn empty_request_and_ok_response_exchange() {
    let mut ex = exchange();
    let step = ex.on_request_body(Ok(Vec::new()));
    assert_eq!(step.record.unwrap().message, "request body = \"\"");
    ex.on_inner_response();
    let step = ex.on_response_body(Ok(b"ok".to_vec()));
    assert_eq!(step.record.unwrap().message, "response body = \"ok\"");
}

#[test]
fn collect_and_log_multibyte_text() {
    let c = collect_and_log(Direction::Response, Ok("héllo".as_bytes().to_vec()), LogLevel::Trace);
    assert_eq!(c.bytes.unwrap(), "héllo".as_bytes().to_vec());
    assert_eq!(c.record.unwrap().message, "response body = \"héllo\"");
}

#[test]
fn body_tracing_installed_only_when_debug_is_on() {
    assert!(trace_body(Some(LogLevel::Trace)).is_some());
    let layer = trace_body(Some(LogLevel::Debug)).unwrap();
    assert_eq!(layer.body_level(), LogLevel::Debug);
    assert!(trace_body(Some(LogLevel::Info)).is_none());
    assert!(trace_body(Some(LogLevel::Warn)).is_none());
    assert!(trace_body(Some(LogLevel::Error)).is_none());
    assert!(trace_body(None).is_none());
}

#[test]
fn layer_default_level_is_debug() {
    assert_eq!(TraceBodyLayer::default().body_level(), LogLevel::Debug);
    assert_eq!(TraceBodyLayer::new().level(LogLevel::Warn).body_level(), LogLevel::Warn);
}
