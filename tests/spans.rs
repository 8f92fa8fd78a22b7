use node_config::spans::{
    enter_span, tracing_span, NoopRecorder, SpanEvent, SpanLog, TracingFlag, WASM_NAME_KEY,
    WASM_TARGET_KEY, WASM_TRACE_IDENTIFIER,
};

#[test]
fn span_keeps_result_with_recording() {
    let mut log = SpanLog::new();
    let mut side = Vec::new();
    let r = tracing_span(&mut log, "test-span", || {
        side.push(1);
        1 + 1
    });
    assert_eq!(r, 2);
    assert_eq!(side, vec![1]);
    assert_eq!(log.events.len(), 2);
    assert!(matches!(log.events[0], SpanEvent::Enter(ref n) if n == "test-span"));
    assert!(matches!(log.events[1], SpanEvent::Exit));
}

#[test]
fn span_keeps_result_without_recording() {
    let mut noop = NoopRecorder;
    let mut side = 0;
    let r = tracing_span(&mut noop, "test-span", || {
        side += 5;
        "done"
    });
    assert_eq!(r, "done");
    assert_eq!(side, 5);
}

#[test]
fn entered_span_lasts_until_exit() {
    let mut log = SpanLog::new();
    let span = enter_span(&mut log, "outer");
    let inner = tracing_span(&mut log, "inner", || 3);
    span.exit(&mut log);
    assert_eq!(inner, 3);
    assert_eq!(log.events.len(), 4);
    assert!(matches!(log.events[1], SpanEvent::Enter(ref n) if n == "inner"));
    assert!(matches!(log.events[3], SpanEvent::Exit));
}

#[test]
fn tracing_flag_starts_off_and_stays_on() {
    let mut flag = TracingFlag::new();
    assert!(!flag.is_enabled());
    flag.enable();
    assert!(flag.is_enabled());
    flag.enable();
    assert!(flag.is_enabled());
}

#[test]
fn reserved_identifiers_are_distinct() {
    assert_eq!(WASM_TARGET_KEY, "target");
    assert_eq!(WASM_NAME_KEY, "name");
    assert_eq!(WASM_TRACE_IDENTIFIER, "wasm_tracing");
    assert_ne!(WASM_TARGET_KEY, WASM_NAME_KEY);
    assert_ne!(WASM_TARGET_KEY, WASM_TRACE_IDENTIFIER);
    assert_ne!(WASM_NAME_KEY, WASM_TRACE_IDENTIFIER);
}

#[test]
fn logged_span_records_entry_then_exit() {
    let mut log = SpanLog::new();
    let r = log.run_in_span("block", || vec![1, 2, 3].len());
    assert_eq!(r, 3);
    assert_eq!(log.events.len(), 2);
    assert!(matches!(log.events[0], SpanEvent::Enter(ref n) if n == "block"));
    assert!(matches!(log.events[1], SpanEvent::Exit));
}
