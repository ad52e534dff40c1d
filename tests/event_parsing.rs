use kroco6::event::{parse, parse_diagnostic, strip_line_end, ExitStatus, ProxyEvent};

#[test]
fn object_line_is_traffic_without_line_end() {
    let event = parse("{\"method\":\"GET\",\"url\":\"https://example.com/\"}\n");
    assert_eq!(
        event,
        ProxyEvent::Traffic("{\"method\":\"GET\",\"url\":\"https://example.com/\"}".to_string())
    );
}

#[test]
fn object_line_with_crlf_is_traffic() {
    let event = parse("{\"a\":1}\r\n");
    assert_eq!(event, ProxyEvent::Traffic("{\"a\":1}".to_string()));
}

#[test]
fn readiness_line_is_started() {
    assert_eq!(parse("HTTP(S) proxy listening at *:8080."), ProxyEvent::Started);
    assert_eq!(parse("Proxy server listening at http://*:8080\n"), ProxyEvent::Started);
}

#[test]
fn log_noise_is_malformed() {
    assert_eq!(
        parse("127.0.0.1:51234: client connect"),
        ProxyEvent::MalformedLine("127.0.0.1:51234: client connect".to_string())
    );
}

#[test]
fn json_that_is_not_an_object_is_malformed() {
    assert_eq!(parse("[1, 2, 3]"), ProxyEvent::MalformedLine("[1, 2, 3]".to_string()));
    assert_eq!(parse("42"), ProxyEvent::MalformedLine("42".to_string()));
    assert_eq!(parse("{\"a\":"), ProxyEvent::MalformedLine("{\"a\":".to_string()));
}

#[test]
fn empty_line_is_malformed() {
    assert_eq!(parse("\n"), ProxyEvent::MalformedLine(String::new()));
}

#[test]
fn object_mentioning_the_sentinel_is_still_traffic() {
    let line = "{\"body\":\"listening at port 80\"}";
    assert_eq!(parse(line), ProxyEvent::Traffic(line.to_string()));
}

#[test]
fn parsing_twice_gives_the_same_event() {
    let line = "{\"method\":\"POST\",\"body\":\"x\"}\n";
    let first = parse(line);
    let second = parse(line);
    assert_eq!(first, second);
    match first {
        ProxyEvent::Traffic(record) => assert_eq!(parse(&record), ProxyEvent::Traffic(record.clone())),
        other => panic!("expected traffic, got {:?}", other),
    }
}

#[test]
fn diagnostic_lines_are_always_warnings() {
    assert_eq!(
        parse_diagnostic("deprecation notice\n"),
        ProxyEvent::Warning("deprecation notice".to_string())
    );
    assert_eq!(
        parse_diagnostic("proxy listening at *:8080"),
        ProxyEvent::Warning("proxy listening at *:8080".to_string())
    );
    assert_eq!(parse_diagnostic("{\"a\":1}"), ProxyEvent::Warning("{\"a\":1}".to_string()));
}

#[test]
fn strip_line_end_keeps_inner_characters() {
    assert_eq!(strip_line_end("a\r\nb\n\n"), "a\r\nb");
    assert_eq!(strip_line_end("plain"), "plain");
    assert_eq!(strip_line_end("\r\n"), "");
}

#[test]
fn exit_status_compares_by_code() {
    assert_eq!(ProxyEvent::Exited(ExitStatus::Code(1)), ProxyEvent::Exited(ExitStatus::Code(1)));
    assert_ne!(ProxyEvent::Exited(ExitStatus::Code(1)), ProxyEvent::Exited(ExitStatus::NoCode));
}
