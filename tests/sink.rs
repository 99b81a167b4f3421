use violet::{
    convert_level_to_string, convert_level_to_u8, echo_line, events_url, frame_envelope, suppressed,
    transport_outcome, HttpVioletData, Level, LogAction, Request, VioletBuilder, VioletError,
    VioletLog, VioletLogSeverity, DEFAULT_TITLE,
};

const ALL_LEVELS: [Level; 5] = [Level::Error, Level::Warn, Level::Info, Level::Debug, Level::Trace];

const ALL_SEVERITIES: [VioletLogSeverity; 6] = [
    VioletLogSeverity::NoDefined,
    VioletLogSeverity::Severe,
    VioletLogSeverity::Error,
    VioletLogSeverity::Warning,
    VioletLogSeverity::Info,
    VioletLogSeverity::Verbose,
];

fn installed(builder: VioletBuilder) -> HttpVioletData {
    let mut client = HttpVioletData::new();
    assert!(builder.init(&mut client));
    client
}

fn expect_blocking(action: LogAction) -> Request {
    match action {
        LogAction::Blocking(q) => q,
        _ => panic!("expected a blocking delivery"),
    }
}

#[test]
fn native_levels_map_to_severities() {
    assert_eq!(VioletLogSeverity::from(Level::Error), VioletLogSeverity::Error);
    assert_eq!(VioletLogSeverity::from(Level::Warn), VioletLogSeverity::Warning);
    assert_eq!(VioletLogSeverity::from(Level::Info), VioletLogSeverity::Info);
    assert_eq!(VioletLogSeverity::from(Level::Debug), VioletLogSeverity::Verbose);
    assert_eq!(VioletLogSeverity::from(Level::Trace), VioletLogSeverity::NoDefined);
}

#[test]
fn native_mapping_is_deterministic() {
    for l in ALL_LEVELS {
        let a = VioletLogSeverity::from(l);
        let b = VioletLogSeverity::from(l);
        assert_eq!(a, b);
        assert_eq!(u8::from(&a), convert_level_to_u8(&l));
    }
}

#[test]
fn level_codes() {
    assert_eq!(convert_level_to_u8(&Level::Error), 2);
    assert_eq!(convert_level_to_u8(&Level::Warn), 3);
    assert_eq!(convert_level_to_u8(&Level::Info), 4);
    assert_eq!(convert_level_to_u8(&Level::Debug), 5);
    assert_eq!(convert_level_to_u8(&Level::Trace), 0);
}

#[test]
fn level_tags() {
    assert_eq!(convert_level_to_string(&Level::Error), "ERRO");
    assert_eq!(convert_level_to_string(&Level::Warn), "WARN");
    assert_eq!(convert_level_to_string(&Level::Info), "INFO");
    assert_eq!(convert_level_to_string(&Level::Debug), "DEBU");
    assert_eq!(convert_level_to_string(&Level::Trace), "TRAC");
}

#[test]
fn severity_codes_round_trip() {
    for (i, s) in ALL_SEVERITIES.iter().enumerate() {
        let code = u8::from(s);
        assert_eq!(code as usize, i);
        assert_eq!(u8::from(&VioletLogSeverity::from(code)), code);
        assert_eq!(VioletLogSeverity::from(code), *s);
    }
}

#[test]
fn unknown_codes_decode_to_not_set() {
    for c in [6u8, 7, 42, 200, 255] {
        assert_eq!(VioletLogSeverity::from(c), VioletLogSeverity::NoDefined);
    }
}

#[test]
fn warning_floor_filters_less_urgent_records() {
    let w = VioletLogSeverity::Warning;
    assert!(suppressed(&Level::Info, &w));
    assert!(suppressed(&Level::Debug, &w));
    assert!(!suppressed(&Level::Warn, &w));
    assert!(!suppressed(&Level::Error, &w));
}

#[test]
fn warning_floor_sends_no_request_for_info() {
    let client = installed(VioletBuilder::new("tok", 1).set_send_min_level(VioletLogSeverity::Warning));
    assert!(matches!(client.log(&Level::Info, "i"), LogAction::Suppressed));
    assert!(matches!(client.log(&Level::Debug, "d"), LogAction::Suppressed));
    let q = expect_blocking(client.log(&Level::Error, "e"));
    assert!(q.body.starts_with("{\"severity\":2,"));
}

#[test]
fn not_set_is_never_suppressed() {
    for min in ALL_SEVERITIES {
        assert!(!suppressed(&Level::Trace, &min));
    }
    let client = installed(VioletBuilder::new("tok", 1).set_send_min_level(VioletLogSeverity::NoDefined));
    let q = expect_blocking(client.log(&Level::Trace, "t"));
    assert!(q.body.starts_with("{\"severity\":0,"));
    assert!(matches!(client.log(&Level::Error, "e"), LogAction::Suppressed));
}

#[test]
fn second_install_keeps_first_configuration() {
    let mut client = HttpVioletData::new();
    assert!(client.config().is_none());
    let first = VioletBuilder::new("first", 1).set_title("one");
    assert!(first.init(&mut client));
    let second = VioletBuilder::new("second", 2)
        .set_title("two")
        .enable_async()
        .set_send_min_level(VioletLogSeverity::Verbose);
    assert!(!second.init(&mut client));
    let c = client.config().unwrap();
    assert_eq!(c.identifier(), 1);
    assert_eq!(c.token(), "first");
    assert_eq!(c.default_title(), "one");
    assert_eq!(c.send_level(), VioletLogSeverity::Error);
    assert!(!c.is_async());
}

#[test]
fn builder_defaults() {
    let b = VioletBuilder::new("tok", 42);
    assert_eq!(b.identifier(), 42);
    assert_eq!(b.token(), "tok");
    assert_eq!(b.default_title(), DEFAULT_TITLE);
    assert_eq!(b.send_level(), VioletLogSeverity::Error);
    assert!(!b.is_async());
}

#[test]
fn example_scenario_error_floor() {
    let client = installed(VioletBuilder::new("tok", 42).set_send_min_level(VioletLogSeverity::Error));
    assert!(matches!(client.log(&Level::Warn, "x"), LogAction::Suppressed));
    let q = expect_blocking(client.log(&Level::Error, "boom"));
    assert_eq!(q.url, "https://violet.zuraaa.com/api/apps/42/events");
    assert_eq!(q.token, "tok");
    let expected = format!(
        "{{\"severity\":2,\"title\":\"{}\",\"message\":\"boom\",\"stacktrace\":null}}",
        DEFAULT_TITLE
    );
    assert_eq!(q.body, expected);
}

#[test]
fn detached_mode_hands_back_detached_request() {
    let client = installed(VioletBuilder::new("tok", 5).enable_async().set_title("svc"));
    match client.log(&Level::Error, "late") {
        LogAction::Detached(q) => {
            assert_eq!(q.url, "https://violet.zuraaa.com/api/apps/5/events");
            assert_eq!(
                q.body,
                "{\"severity\":2,\"title\":\"svc\",\"message\":\"late\",\"stacktrace\":null}"
            );
        }
        _ => panic!("expected a detached delivery"),
    }
}

#[test]
fn log_before_install_is_ignored() {
    let client = HttpVioletData::new();
    assert!(matches!(client.log(&Level::Error, "early"), LogAction::NotInitialized));
}

#[test]
fn build_request_before_install_fails() {
    let client = HttpVioletData::new();
    let r = client.build_request("t".to_string(), VioletLogSeverity::Severe, "m".to_string());
    assert!(matches!(r, Err(VioletError::NotInitialized)));
}

#[test]
fn build_request_uses_given_title() {
    let client = installed(VioletBuilder::new("k", 9));
    let q = client
        .build_request("custom".to_string(), VioletLogSeverity::Severe, "m".to_string())
        .unwrap();
    assert_eq!(q.token, "k");
    assert_eq!(
        q.body,
        "{\"severity\":1,\"title\":\"custom\",\"message\":\"m\",\"stacktrace\":null}"
    );
}

#[test]
fn message_is_escaped_as_json() {
    let client = installed(VioletBuilder::new("tok", 3).set_title("a\"b"));
    let q = expect_blocking(client.log(&Level::Error, "line\nwith \"quote\" and \\"));
    assert_eq!(
        q.body,
        "{\"severity\":2,\"title\":\"a\\\"b\",\"message\":\"line\\nwith \\\"quote\\\" and \\\\\",\"stacktrace\":null}"
    );
}

#[test]
fn envelope_without_stacktrace_writes_null() {
    let e = VioletLog::new(VioletLogSeverity::Info, "t".to_string(), "m".to_string());
    assert_eq!(e.severity(), VioletLogSeverity::Info);
    assert_eq!(
        e.to_json().unwrap(),
        "{\"severity\":4,\"title\":\"t\",\"message\":\"m\",\"stacktrace\":null}"
    );
}

#[test]
fn envelope_with_stacktrace() {
    let e = VioletLog::new(VioletLogSeverity::Verbose, "t".to_string(), "m".to_string())
        .with_stacktrace("at \"main\"".to_string());
    assert_eq!(
        e.to_json().unwrap(),
        "{\"severity\":5,\"title\":\"t\",\"message\":\"m\",\"stacktrace\":\"at \\\"main\\\"\"}"
    );
}

#[test]
fn frame_envelope_places_fields() {
    let s = frame_envelope(&VioletLogSeverity::Warning, "\"a\"", "\"b\"", Some("\"c\""));
    assert_eq!(s, "{\"severity\":3,\"title\":\"a\",\"message\":\"b\",\"stacktrace\":\"c\"}");
    let n = frame_envelope(&VioletLogSeverity::NoDefined, "\"a\"", "\"b\"", None);
    assert_eq!(n, "{\"severity\":0,\"title\":\"a\",\"message\":\"b\",\"stacktrace\":null}");
}

#[test]
fn events_url_edges() {
    assert_eq!(events_url(0), "https://violet.zuraaa.com/api/apps/0/events");
    assert_eq!(events_url(10), "https://violet.zuraaa.com/api/apps/10/events");
    assert_eq!(
        events_url(u64::MAX),
        "https://violet.zuraaa.com/api/apps/18446744073709551615/events"
    );
}

#[test]
fn transport_outcomes() {
    assert_eq!(transport_outcome(Some(200)), Ok(200));
    assert_eq!(transport_outcome(Some(204)), Ok(204));
    assert_eq!(transport_outcome(Some(299)), Ok(299));
    assert_eq!(transport_outcome(Some(199)), Err(VioletError::Transport));
    assert_eq!(transport_outcome(Some(300)), Err(VioletError::Transport));
    assert_eq!(transport_outcome(Some(500)), Err(VioletError::Transport));
    assert_eq!(transport_outcome(None), Err(VioletError::Transport));
}

#[test]
fn echo_line_format() {
    assert_eq!(
        echo_line("18/10/2026 12:00:00", &Level::Warn, "hello"),
        "[(18/10/2026 12:00:00) (WARN)]: hello"
    );
}

#[test]
fn plain_message_is_kept() {
    let client = installed(VioletBuilder::new("tok", 1));
    let q = expect_blocking(client.log(&Level::Error, "\u{1b}[31mred\u{1b}[0m"));
    assert_eq!(
        q.body,
        format!(
            "{{\"severity\":2,\"title\":\"{}\",\"message\":\"\\u001b[31mred\\u001b[0m\",\"stacktrace\":null}}",
            DEFAULT_TITLE
        )
    );
}

#[test]
fn envelope_warning_serialises() {
    let e = VioletLog::new(VioletLogSeverity::Warning, "a".to_string(), "b".to_string());
    assert_eq!(
        e.to_json(),
        Ok("{\"severity\":3,\"title\":\"a\",\"message\":\"b\",\"stacktrace\":null}".to_string())
    );
}

#[test]
fn control_characters_are_escaped() {
    let e = VioletLog::new(
        VioletLogSeverity::Error,
        "\u{1}\u{8}\t\u{c}\r".to_string(),
        "\u{1f} é/\u{7f}".to_string(),
    );
    assert_eq!(
        e.to_json().unwrap(),
        "{\"severity\":2,\"title\":\"\\u0001\\b\\t\\f\\r\",\"message\":\"\\u001f é/\u{7f}\",\"stacktrace\":null}"
    );
}
