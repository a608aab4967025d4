//! The script-execution endpoint and the smoke-test operations, run against
//! the real script engine.

use adding_machine::{Arena, CodecError, ScriptError};

fn run_request(request: &str, capacity: u32) -> Result<String, ScriptError> {
    let mut arena = Arena::new(4096);
    let ptr = arena.allocate(capacity).unwrap();
    arena.write(ptr, request.as_bytes()).unwrap();
    let n = adding_machine::run_vrl(&mut arena, ptr, request.len() as u32)?;
    let bytes = arena.read(ptr, n).unwrap();
    Ok(String::from_utf8(bytes).unwrap())
}

#[test]
fn assignment_returns_success_envelope() {
    let response = run_request("{\"program\": \".x = 1\", \"event\": {}}", 512).unwrap();
    let value: serde_json::Value = serde_json::from_str(&response).unwrap();
    let result = value.get("result").unwrap();
    assert_eq!(result.get("x").unwrap().as_i64(), Some(1));
    assert_eq!(value.get("output").unwrap().as_i64(), Some(1));
}

#[test]
fn syntax_error_returns_diagnostic_envelope() {
    let response = run_request("{\"program\": \"invalid syntax {{{\", \"event\": {}}", 2048)
        .unwrap();
    let value: serde_json::Value = serde_json::from_str(&response).unwrap();
    let list = value.get("list").unwrap().as_array().unwrap();
    assert!(!list.is_empty());
    let msg = value.get("msg").unwrap().as_str().unwrap();
    assert!(msg.contains("invalid syntax"));
    assert!(value.get("msg_colorized").unwrap().as_str().is_some());
    assert!(value.get("output").is_none());
}

#[test]
fn abort_returns_diagnostic_with_empty_list() {
    let response = run_request("{\"program\": \"abort\", \"event\": {}}", 2048).unwrap();
    let value: serde_json::Value = serde_json::from_str(&response).unwrap();
    let list = value.get("list").unwrap().as_array().unwrap();
    assert!(list.is_empty());
    assert!(value.get("msg").unwrap().as_str().is_some());
}

#[test]
fn event_fields_survive_the_run() {
    let response = run_request(
        "{\"program\": \".x = 1\", \"event\": {\"kept\": \"yes\"}}",
        512,
    )
    .unwrap();
    let value: serde_json::Value = serde_json::from_str(&response).unwrap();
    let result = value.get("result").unwrap();
    assert_eq!(result.get("kept").unwrap().as_str(), Some("yes"));
    assert_eq!(result.get("x").unwrap().as_i64(), Some(1));
}

#[test]
fn malformed_request_is_rejected() {
    assert_eq!(run_request("this is not json", 512), Err(ScriptError::MalformedRequest));
    assert_eq!(run_request("{\"event\": {}}", 512), Err(ScriptError::MalformedRequest));
    assert_eq!(
        run_request("{\"program\": 7, \"event\": {}}", 512),
        Err(ScriptError::MalformedRequest)
    );
    assert_eq!(run_request("{\"program\": \".x = 1\"}", 512), Err(ScriptError::MalformedRequest));
}

#[test]
fn oversized_response_is_rejected() {
    let request =
        "{\"program\": \".x = \\\"AAAAAAAAAAAAAAAAAAAAAAAAAAAAAAAAAAAAAAAA\\\"\", \"event\": {}}";
    let response = run_request(request, request.len() as u32);
    assert_eq!(response, Err(ScriptError::ResponseTooLarge));
}

#[test]
fn run_vrl_checks_the_request_region() {
    let mut arena = Arena::new(64);
    let err = adding_machine::run_vrl(&mut arena, 0, 4);
    assert_eq!(err, Err(ScriptError::Codec(CodecError::NoSuchAllocation)));
    let ptr = arena.allocate(4).unwrap();
    arena.write(ptr, &[0xffu8, 0xfe, 0x00, 0x00]).unwrap();
    let err = adding_machine::run_vrl(&mut arena, ptr, 4);
    assert_eq!(err, Err(ScriptError::Codec(CodecError::InvalidUtf8)));
    let err = adding_machine::run_vrl(&mut arena, ptr, 9);
    assert_eq!(err, Err(ScriptError::Codec(CodecError::CapacityExceeded)));
}

#[test]
fn compile_runs_a_program_directly() {
    let event = vrl::value::Value::Object(vrl::value::ObjectMap::new());
    let input = adding_machine::Input::new(".x = 1", event);
    let result = adding_machine::compile(input);
    let success = match result {
        Ok(s) => s,
        Err(_) => panic!("expected a successful run"),
    };
    assert!(matches!(success.output, vrl::value::Value::Integer(1)));
}

#[test]
fn compile_reports_diagnostics() {
    let event = vrl::value::Value::Object(vrl::value::ObjectMap::new());
    let input = adding_machine::Input::new("invalid syntax {{{", event);
    let result = adding_machine::compile(input);
    let diagnostic = match result {
        Ok(_) => panic!("expected diagnostics"),
        Err(d) => d,
    };
    assert!(!diagnostic.list.is_empty());
    assert!(diagnostic.msg.contains("invalid syntax"));
}

#[test]
fn echo_string_returns_end_offset() {
    assert_eq!(adding_machine::echo_string(3, 4), 7);
}

#[test]
fn read_string_returns_length_unchanged() {
    let mut arena = Arena::new(64);
    let ptr = arena.allocate(16).unwrap();
    arena.write(ptr, "hello".as_bytes()).unwrap();
    assert_eq!(adding_machine::read_string(&arena, ptr, 5), Ok(5));
    arena.write(ptr, &[0xffu8]).unwrap();
    assert_eq!(adding_machine::read_string(&arena, ptr, 1), Err(CodecError::InvalidUtf8));
}

#[test]
fn return_string_embeds_the_input() {
    let mut arena = Arena::new(128);
    let ptr = arena.allocate(100).unwrap();
    arena.write(ptr, "World".as_bytes()).unwrap();
    let n = adding_machine::return_string(&mut arena, ptr, 5).unwrap();
    let text = String::from_utf8(arena.read(ptr, n).unwrap()).unwrap();
    assert_eq!(text, "Incoming: World\nThis string was written from adding-machine/src/lib.rs");
}

#[test]
fn envelope_text_exact_values() {
    let success = adding_machine::envelope::success_text("1", "{\"x\":1}");
    assert_eq!(success, "{\"output\":1,\"result\":{\"x\":1}}");
    let list = vec!["a\"b".to_string(), "c\nd".to_string()];
    let diagnostic = adding_machine::envelope::diagnostic_text(&list, "m\tsg", "\u{1}");
    assert_eq!(
        diagnostic,
        "{\"list\":[\"a\\\"b\",\"c\\nd\"],\"msg\":\"m\\tsg\",\"msg_colorized\":\"\\u0001\"}"
    );
}

#[test]
fn parse_request_extracts_program_and_event() {
    let input =
        adding_machine::parse_request("{\"program\": \".x = 1\", \"event\": {\"a\": 1}}").unwrap();
    assert_eq!(input.program, ".x = 1");
    assert!(matches!(input.event, vrl::value::Value::Object(_)));
    assert!(adding_machine::parse_request("not json").is_none());
    assert!(adding_machine::parse_request("{\"event\": {}}").is_none());
    assert!(adding_machine::parse_request("{\"program\": [], \"event\": {}}").is_none());
}

#[test]
fn input_new_keeps_its_fields() {
    let input = adding_machine::Input::new(".y = 2", vrl::value::Value::Null);
    assert_eq!(input.program, ".y = 2");
    assert!(matches!(input.event, vrl::value::Value::Null));
}

#[test]
fn builtin_functions_are_available() {
    let response =
        run_request("{\"program\": \".x = upcase(\\\"abc\\\")\", \"event\": {}}", 512).unwrap();
    let value: serde_json::Value = serde_json::from_str(&response).unwrap();
    let result = value.get("result").unwrap();
    assert_eq!(result.get("x").unwrap().as_str(), Some("ABC"));
    assert_eq!(value.get("output").unwrap().as_str(), Some("ABC"));
}
