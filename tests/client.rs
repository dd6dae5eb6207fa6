use graphql_client_core::args::{
    classify_variable_value, parse_header_arg, parse_variable_arg, split_assignment,
    ClapHttpHeaderParser, ClapKeyJsonValueParser, InvalidHeader, InvalidVariable, VariableValue,
};
use graphql_client_core::reconnect::{AttemptOutcome, DriverStep, ReconnectPolicy};
use graphql_client_core::response::{
    decode_response, encode_response, response_from_json, response_to_json, ws_message_from_json,
    GraphQlResponse, MalformedResponse, WsResponse,
};
use graphql_client_core::transport::{select_transport, InvalidServerEndpointScheme, Transport};
use graphql_client_core::variables::{apply_overrides, load_variables};
use graphql_client_core::wire::{
    connection_init_message, new_subscribe_message, operation_body, subscribe_message,
};
use graphql_client_core::ws::{
    AckEvent, FrameAction, InboundFrame, WsConnectionInitError, WsPhase, WsSession,
};

fn response_with(data: serde_json::Value) -> GraphQlResponse {
    GraphQlResponse { data: Some(data), extensions: serde_json::Map::new(), errors: Vec::new() }
}

fn ws_message(kind: &str, payload: Option<GraphQlResponse>) -> WsResponse {
    WsResponse { message_type: kind.to_string(), id: "1".to_string(), payload }
}

#[test]
fn http_schemes_select_http() {
    assert_eq!(select_transport("http://localhost:8000/api/graphql"), Ok(Transport::Http));
    assert_eq!(select_transport("https://example.com/graphql"), Ok(Transport::Http));
    assert_eq!(select_transport("http://"), Ok(Transport::Http));
}

#[test]
fn ws_schemes_select_websocket() {
    assert_eq!(select_transport("ws://localhost:8000/ws"), Ok(Transport::WebSocket));
    assert_eq!(select_transport("wss://example.com/ws"), Ok(Transport::WebSocket));
}

#[test]
fn other_schemes_are_refused() {
    assert_eq!(select_transport("ftp://example.com"), Err(InvalidServerEndpointScheme));
    assert_eq!(select_transport(""), Err(InvalidServerEndpointScheme));
    assert_eq!(select_transport("HTTP://example.com"), Err(InvalidServerEndpointScheme));
    assert_eq!(select_transport("http:/example.com"), Err(InvalidServerEndpointScheme));
    assert_eq!(InvalidServerEndpointScheme.message(), "InvalidServerEndpointScheme");
}

#[test]
fn overrides_replace_file_variables() {
    let r = load_variables(
        Some(r#"{"a":1,"b":2}"#),
        vec![("b".to_string(), serde_json::Value::from(3))],
    );
    let m = match r {
        Ok(m) => m,
        Err(_) => panic!("the object is well-formed"),
    };
    assert_eq!(m.len(), 2);
    assert_eq!(m.get("a"), Some(&serde_json::Value::from(1)));
    assert_eq!(m.get("b"), Some(&serde_json::Value::from(3)));
}

#[test]
fn overrides_applied_twice_change_nothing() {
    let overrides = vec![("b".to_string(), serde_json::Value::from(3))];
    let once = match load_variables(Some(r#"{"a":1,"b":2}"#), overrides.clone()) {
        Ok(m) => m,
        Err(_) => panic!("the object is well-formed"),
    };
    let mut twice = once.clone();
    apply_overrides(&mut twice, overrides);
    assert_eq!(once, twice);
}

#[test]
fn later_override_wins_and_new_names_are_added() {
    let m = match load_variables(
        None,
        vec![
            ("x".to_string(), serde_json::Value::from(1)),
            ("y".to_string(), serde_json::Value::from("z")),
            ("x".to_string(), serde_json::Value::from(2)),
        ],
    ) {
        Ok(m) => m,
        Err(_) => panic!("no file, no error"),
    };
    assert_eq!(m.len(), 2);
    assert_eq!(m.get("x"), Some(&serde_json::Value::from(2)));
    assert_eq!(m.get("y"), Some(&serde_json::Value::from("z")));
}

#[test]
fn malformed_variables_file_is_an_error() {
    assert!(load_variables(Some("[1, 2]"), Vec::new()).is_err());
    assert!(load_variables(Some("{\"a\":"), Vec::new()).is_err());
}

#[test]
fn single_attempt_without_interval() {
    let policy = ReconnectPolicy::once();
    let report = policy.after_attempt(AttemptOutcome::Failed);
    assert!(report.log_failure);
    assert_eq!(report.step, DriverStep::Finish);
    let report = policy.after_attempt(AttemptOutcome::Succeeded);
    assert!(!report.log_failure);
    assert_eq!(report.step, DriverStep::Finish);
}

#[test]
fn three_failures_under_interval_sleep_twice() {
    let policy = ReconnectPolicy::every(50);
    let mut attempts = 0;
    let mut logged = 0;
    let mut sleeps: Vec<u64> = Vec::new();
    loop {
        attempts += 1;
        let report = policy.after_attempt(AttemptOutcome::Failed);
        if report.log_failure {
            logged += 1;
        }
        if attempts == 3 {
            break;
        }
        match report.step {
            DriverStep::Retry { delay_millis } => sleeps.push(delay_millis),
            DriverStep::Finish => panic!("the driver never gives up on its own"),
        }
    }
    assert_eq!(logged, 3);
    assert_eq!(sleeps, vec![50, 50]);
}

#[test]
fn success_under_interval_finishes() {
    let report = ReconnectPolicy::every(50).after_attempt(AttemptOutcome::Succeeded);
    assert_eq!(report.step, DriverStep::Finish);
    assert!(!report.log_failure);
}

#[test]
fn http_body_for_hello_query() {
    let body = operation_body("query { hello }", None, &serde_json::Map::new());
    assert_eq!(body, r#"{"operationName":null,"query":"query { hello }","variables":{}}"#);
    let parsed: serde_json::Value = serde_json::from_str(&body).unwrap();
    assert_eq!(parsed["query"], serde_json::Value::from("query { hello }"));
}

#[test]
fn http_body_escapes_and_names_operation() {
    let mut vars = serde_json::Map::new();
    vars.insert("n".to_string(), serde_json::Value::from(1));
    let body = operation_body("query Q { s(x: \"a\") }", Some("Q"), &vars);
    assert_eq!(
        body,
        r#"{"operationName":"Q","query":"query Q { s(x: \"a\") }","variables":{"n":1}}"#
    );
}

#[test]
fn connection_init_is_empty_payload() {
    assert_eq!(connection_init_message(), r#"{"payload":{},"type":"connection_init"}"#);
}

#[test]
fn subscribe_message_carries_id_and_operation() {
    let m = subscribe_message("abc", "subscription { tick }", None, &serde_json::Map::new());
    assert_eq!(
        m,
        r#"{"id":"abc","payload":{"operationName":null,"query":"subscription { tick }","variables":{}},"type":"subscribe"}"#
    );
}

#[test]
fn subscription_ids_differ_between_attempts() {
    let (id1, m1) = new_subscribe_message("subscription { tick }", None, &serde_json::Map::new());
    let (id2, m2) = new_subscribe_message("subscription { tick }", None, &serde_json::Map::new());
    assert_eq!(id1.len(), 36);
    assert_eq!(id2.len(), 36);
    assert_ne!(id1, id2);
    assert!(m1.contains(&id1));
    assert!(m2.contains(&id2));
    assert_ne!(m1, m2);
}

#[test]
fn two_responses_then_complete() {
    let mut session = WsSession::new();
    assert_eq!(session.on_ack(AckEvent::Message), Ok(()));
    assert_eq!(session.phase, WsPhase::Streaming);
    let mut delivered = Vec::new();
    let frames = vec![
        InboundFrame::Message(ws_message("next", Some(response_with(serde_json::Value::from(1))))),
        InboundFrame::Message(ws_message("next", Some(response_with(serde_json::Value::from(2))))),
        InboundFrame::Message(ws_message("complete", None)),
    ];
    let mut ended = false;
    for frame in frames {
        assert_eq!(session.phase, WsPhase::Streaming);
        match session.on_frame(frame) {
            FrameAction::Deliver(p) => delivered.push(p.data),
            FrameAction::LogControl { message, ends } => {
                assert_eq!(message.message_type, "complete");
                ended = ends;
            }
            _ => panic!("no other action is expected"),
        }
    }
    assert!(ended);
    assert_eq!(session.phase, WsPhase::Done);
    assert_eq!(delivered, vec![Some(serde_json::Value::from(1)), Some(serde_json::Value::from(2))]);
}

#[test]
fn control_message_other_than_complete_is_only_logged() {
    let mut session = WsSession::new();
    assert_eq!(session.on_ack(AckEvent::Message), Ok(()));
    match session.on_frame(InboundFrame::Message(ws_message("error", None))) {
        FrameAction::LogControl { ends, .. } => assert!(!ends),
        _ => panic!("a message without payload is logged"),
    }
    assert_eq!(session.phase, WsPhase::Streaming);
    assert!(matches!(session.on_frame(InboundFrame::NotText), FrameAction::LogNotText));
    assert!(matches!(session.on_frame(InboundFrame::ReceiveError), FrameAction::LogReceiveError));
    assert_eq!(session.phase, WsPhase::Streaming);
}

#[test]
fn malformed_frame_fails_the_attempt() {
    let mut session = WsSession::new();
    assert_eq!(session.on_ack(AckEvent::Message), Ok(()));
    let action = session.on_frame(InboundFrame::Malformed(MalformedResponse {
        reason: "expected value".to_string(),
    }));
    assert!(matches!(action, FrameAction::Fail(_)));
    assert_eq!(session.phase, WsPhase::Done);
}

#[test]
fn missing_ack_is_a_connection_init_error() {
    let mut session = WsSession::new();
    assert_eq!(session.on_ack(AckEvent::Closed), Err(WsConnectionInitError));
    assert_eq!(session.phase, WsPhase::Done);
    let mut session = WsSession::new();
    assert_eq!(session.on_ack(AckEvent::TransportError), Err(WsConnectionInitError));
}

#[test]
fn stream_end_finishes_the_attempt() {
    let mut session = WsSession::new();
    assert_eq!(session.on_ack(AckEvent::Message), Ok(()));
    session.on_stream_end();
    assert_eq!(session.phase, WsPhase::Done);
}

#[test]
fn split_at_first_equals() {
    assert_eq!(split_assignment("a=b=c"), ("a".to_string(), Some("b=c".to_string())));
    assert_eq!(split_assignment("name"), ("name".to_string(), None));
    assert_eq!(split_assignment("=v"), ("".to_string(), Some("v".to_string())));
    assert_eq!(split_assignment("k="), ("k".to_string(), Some("".to_string())));
}

#[test]
fn variable_values_by_kind() {
    assert!(matches!(classify_variable_value(""), Ok(VariableValue::Null)));
    assert!(matches!(classify_variable_value("true"), Ok(VariableValue::Bool(true))));
    assert!(matches!(classify_variable_value("false"), Ok(VariableValue::Bool(false))));
    match classify_variable_value("\"hi there\"") {
        Ok(VariableValue::Text(t)) => assert_eq!(t, "hi there"),
        _ => panic!("a quoted text is a string"),
    }
    match classify_variable_value("-42") {
        Ok(VariableValue::Number(n)) => assert_eq!(n, serde_json::Number::from(-42)),
        _ => panic!("an integer is a number"),
    }
    match classify_variable_value("18446744073709551615") {
        Ok(VariableValue::Number(n)) => assert_eq!(n, serde_json::Number::from(u64::MAX)),
        _ => panic!("u64::MAX is a number"),
    }
    match classify_variable_value("[1,2]") {
        Ok(VariableValue::Json(j)) => {
            assert_eq!(j, serde_json::Value::Array(vec![1.into(), 2.into()]))
        }
        _ => panic!("a bracketed text is JSON"),
    }
    match classify_variable_value("1.5") {
        Ok(VariableValue::Unclassified(t)) => assert_eq!(t, "1.5"),
        _ => panic!("a float is left for float reading"),
    }
    match classify_variable_value("hello") {
        Ok(VariableValue::Unclassified(t)) => assert_eq!(t, "hello"),
        _ => panic!("plain text is left as it is"),
    }
}

#[test]
fn variable_value_errors() {
    assert!(matches!(
        classify_variable_value("18446744073709551616"),
        Err(InvalidVariable::NumberOutOfRange)
    ));
    assert!(matches!(
        classify_variable_value("-9223372036854775809"),
        Err(InvalidVariable::NumberOutOfRange)
    ));
    assert!(matches!(
        classify_variable_value("340282366920938463463374607431768211455"),
        Err(InvalidVariable::NumberOutOfRange)
    ));
    assert!(matches!(classify_variable_value("{\"a\":}"), Err(InvalidVariable::MalformedJson(_))));
}

#[test]
fn variable_arguments() {
    match parse_variable_arg("flag") {
        Ok((name, VariableValue::Null)) => assert_eq!(name, "flag"),
        _ => panic!("a bare name is null"),
    }
    match ClapKeyJsonValueParser.parse_ref("count=3") {
        Ok((name, VariableValue::Number(n))) => {
            assert_eq!(name, "count");
            assert_eq!(n, serde_json::Number::from(3));
        }
        _ => panic!("count=3 is a number"),
    }
}

#[test]
fn header_arguments() {
    match parse_header_arg("x-token=abc") {
        Ok((name, value)) => {
            assert_eq!(name.as_str(), "x-token");
            assert_eq!(value.to_str().unwrap(), "abc");
        }
        Err(_) => panic!("a valid header"),
    }
    match ClapHttpHeaderParser.parse_ref("x-empty") {
        Ok((name, value)) => {
            assert_eq!(name.as_str(), "x-empty");
            assert_eq!(value.to_str().unwrap(), "");
        }
        Err(_) => panic!("a header without value is empty"),
    }
    assert!(matches!(parse_header_arg("bad name=v"), Err(InvalidHeader::Name(_))));
    assert!(matches!(parse_header_arg("x-ok=a\u{1}b"), Err(InvalidHeader::Value(_))));
}

#[test]
fn empty_collections_are_left_out_and_read_back_empty() {
    let r = response_with(serde_json::Value::from(7));
    let text = response_to_json(r);
    assert_eq!(text, r#"{"data":7}"#);
    assert!(!text.contains("errors"));
    assert!(!text.contains("extensions"));
    let back = match response_from_json(&text) {
        Ok(b) => b,
        Err(_) => panic!("the text reads back"),
    };
    assert_eq!(back.data, Some(serde_json::Value::from(7)));
    assert!(back.extensions.is_empty());
    assert!(back.errors.is_empty());
}

#[test]
fn absent_data_is_written_as_null() {
    let r = GraphQlResponse { data: None, extensions: serde_json::Map::new(), errors: Vec::new() };
    assert_eq!(response_to_json(r), r#"{"data":null}"#);
}

#[test]
fn nonempty_collections_round_trip() {
    let mut ext = serde_json::Map::new();
    ext.insert("cost".to_string(), serde_json::Value::from(3));
    let mut err = serde_json::Map::new();
    err.insert("message".to_string(), serde_json::Value::from("boom"));
    let r = GraphQlResponse { data: None, extensions: ext.clone(), errors: vec![err.clone()] };
    let m = encode_response(r);
    assert_eq!(m.len(), 3);
    assert_eq!(m.get("data"), Some(&serde_json::Value::Null));
    let back = match decode_response(m) {
        Ok(b) => b,
        Err(_) => panic!("an encoded response decodes"),
    };
    assert_eq!(back.data, None);
    assert_eq!(back.extensions, ext);
    assert_eq!(back.errors, vec![err]);
}

#[test]
fn hello_world_over_http() {
    let body = operation_body("query { hello }", None, &serde_json::Map::new());
    assert_eq!(body, r#"{"operationName":null,"query":"query { hello }","variables":{}}"#);
    let r = match response_from_json(r#"{"data":{"hello":"world"}}"#) {
        Ok(r) => r,
        Err(_) => panic!("a well-formed response"),
    };
    let mut expected = serde_json::Map::new();
    expected.insert("hello".to_string(), serde_json::Value::from("world"));
    assert_eq!(r.data, Some(serde_json::Value::Object(expected)));
    assert!(r.errors.is_empty());
    assert!(r.extensions.is_empty());
}

#[test]
fn malformed_responses_are_refused() {
    assert!(response_from_json("[1]").is_err());
    assert!(response_from_json("not json").is_err());
    assert!(response_from_json(r#"{"data":1,"errors":{}}"#).is_err());
    assert!(response_from_json(r#"{"data":1,"errors":[1]}"#).is_err());
    assert!(response_from_json(r#"{"data":1,"extensions":[]}"#).is_err());
    match response_from_json(r#"{"data":null,"other":1}"#) {
        Ok(r) => assert_eq!(r.data, None),
        Err(_) => panic!("unknown keys are ignored"),
    }
}

#[test]
fn ws_messages_decode() {
    let m = match ws_message_from_json(r#"{"type":"next","id":"9","payload":{"data":{"n":1}}}"#) {
        Ok(m) => m,
        Err(_) => panic!("a next message"),
    };
    assert_eq!(m.message_type, "next");
    assert_eq!(m.id, "9");
    let p = match m.payload {
        Some(p) => p,
        None => panic!("next carries a payload"),
    };
    let mut expected = serde_json::Map::new();
    expected.insert("n".to_string(), serde_json::Value::from(1));
    assert_eq!(p.data, Some(serde_json::Value::Object(expected)));
    let c = match ws_message_from_json(r#"{"type":"complete","id":"9"}"#) {
        Ok(c) => c,
        Err(_) => panic!("a complete message"),
    };
    assert_eq!(c.message_type, "complete");
    assert!(c.payload.is_none());
    assert!(ws_message_from_json(r#"{"id":"9"}"#).is_err());
    assert!(ws_message_from_json(r#"{"type":"next","id":9}"#).is_err());
    assert!(ws_message_from_json(r#"{"type":"next","id":"9","payload":3}"#).is_err());
}

#[test]
fn decoded_ws_stream_delivers_in_order() {
    let texts = [
        r#"{"type":"next","id":"1","payload":{"data":1}}"#,
        r#"{"type":"next","id":"1","payload":{"data":2}}"#,
        r#"{"type":"complete","id":"1"}"#,
    ];
    let mut session = WsSession::new();
    assert_eq!(session.on_ack(AckEvent::Message), Ok(()));
    let mut delivered = Vec::new();
    for t in texts {
        let frame = match ws_message_from_json(t) {
            Ok(m) => InboundFrame::Message(m),
            Err(e) => InboundFrame::Malformed(e),
        };
        if let FrameAction::Deliver(p) = session.on_frame(frame) {
            delivered.push(p.data);
        }
    }
    assert_eq!(session.phase, WsPhase::Done);
    assert_eq!(delivered, vec![Some(serde_json::Value::from(1)), Some(serde_json::Value::from(2))]);
}

#[test]
fn signed_integer_forms() {
    match classify_variable_value("+7") {
        Ok(VariableValue::Number(n)) => assert_eq!(n, serde_json::Number::from(7)),
        _ => panic!("a plus sign is allowed"),
    }
    match classify_variable_value("-9223372036854775808") {
        Ok(VariableValue::Number(n)) => assert_eq!(n, serde_json::Number::from(i64::MIN)),
        _ => panic!("i64::MIN is a number"),
    }
    assert!(matches!(classify_variable_value("-"), Ok(VariableValue::Unclassified(_))));
    assert!(matches!(classify_variable_value("1_000"), Ok(VariableValue::Unclassified(_))));
}

#[test]
fn header_examples() {
    let (n, v) = match ClapHttpHeaderParser.parse_ref("Authorization=Bearer abc") {
        Ok(p) => p,
        Err(_) => panic!("a valid header"),
    };
    assert_eq!(n.as_str(), "authorization");
    assert_eq!(v.to_str().unwrap(), "Bearer abc");
    let (n, v) = match ClapHttpHeaderParser.parse_ref("x-a=b=c") {
        Ok(p) => p,
        Err(_) => panic!("a valid header"),
    };
    assert_eq!(n.as_str(), "x-a");
    assert_eq!(v.to_str().unwrap(), "b=c");
    assert!(matches!(parse_header_arg("=v"), Err(InvalidHeader::Name(_))));
    assert!(matches!(parse_header_arg("x=a\nb"), Err(InvalidHeader::Value(_))));
    assert!(matches!(parse_header_arg("x=a\u{7f}"), Err(InvalidHeader::Value(_))));
    assert!(parse_header_arg("x=a\tb").is_ok());
    assert!(parse_header_arg("x=caf\u{e9}").is_ok());
}

#[test]
fn variable_argument_examples() {
    match ClapKeyJsonValueParser.parse_ref("x=TRUE") {
        Ok((n, VariableValue::Unclassified(t))) => {
            assert_eq!(n, "x");
            assert_eq!(t, "TRUE");
        }
        _ => panic!("booleans are matched case-sensitively"),
    }
    match ClapKeyJsonValueParser.parse_ref("=5") {
        Ok((n, VariableValue::Number(v))) => {
            assert_eq!(n, "");
            assert_eq!(v, serde_json::Number::from(5));
        }
        _ => panic!("an empty name is accepted"),
    }
    match ClapKeyJsonValueParser.parse_ref("a=b=c") {
        Ok((n, VariableValue::Unclassified(t))) => {
            assert_eq!(n, "a");
            assert_eq!(t, "b=c");
        }
        _ => panic!("split at the first ="),
    }
    match ClapKeyJsonValueParser.parse_ref("s=\"42\"") {
        Ok((n, VariableValue::Text(t))) => {
            assert_eq!(n, "s");
            assert_eq!(t, "42");
        }
        _ => panic!("a quoted text stays text"),
    }
    match ClapKeyJsonValueParser.parse_ref("l=[1,") {
        Ok((_, VariableValue::Unclassified(t))) => assert_eq!(t, "[1,"),
        _ => panic!("an unclosed bracket is left as text"),
    }
    assert!(matches!(
        ClapKeyJsonValueParser.parse_ref("l=[1,]"),
        Err(InvalidVariable::MalformedJson(_))
    ));
    assert!(matches!(
        ClapKeyJsonValueParser.parse_ref("n=99999999999999999999"),
        Err(InvalidVariable::NumberOutOfRange)
    ));
    match ClapKeyJsonValueParser.parse_ref("x=") {
        Ok((n, VariableValue::Null)) => assert_eq!(n, "x"),
        _ => panic!("an empty value is null"),
    }
}

#[test]
fn subscription_id_has_uuid_v4_form() {
    let (id, _) = new_subscribe_message("subscription { tick }", None, &serde_json::Map::new());
    let chars: Vec<char> = id.chars().collect();
    assert_eq!(chars.len(), 36);
    for (i, c) in chars.iter().enumerate() {
        match i {
            8 | 13 | 18 | 23 => assert_eq!(*c, '-'),
            14 => assert_eq!(*c, '4'),
            19 => assert!(matches!(c, '8' | '9' | 'a' | 'b')),
            _ => assert!(c.is_ascii_digit() || ('a'..='f').contains(c)),
        }
    }
}

#[test]
fn query_text_is_escaped() {
    let body = operation_body("a\"b\\c\td\ne\u{1}f\u{8}\u{c}\r\u{7f}é/", None, &serde_json::Map::new());
    assert_eq!(
        body,
        "{\"operationName\":null,\"query\":\"a\\\"b\\\\c\\td\\ne\\u0001f\\b\\f\\r\u{7f}é/\",\"variables\":{}}"
    );
}

#[test]
fn header_name_length_and_characters() {
    let longest = format!("{}=v", "a".repeat(65535));
    assert!(parse_header_arg(&longest).is_ok());
    let too_long = format!("{}=v", "a".repeat(65536));
    assert!(matches!(parse_header_arg(&too_long), Err(InvalidHeader::Name(_))));
    assert!(parse_header_arg("A-b_c.d~!#$%&'*+^`|9=v").is_ok());
    assert!(matches!(parse_header_arg("x:y=v"), Err(InvalidHeader::Name(_))));
    assert!(matches!(parse_header_arg("caf\u{e9}=v"), Err(InvalidHeader::Name(_))));
}
