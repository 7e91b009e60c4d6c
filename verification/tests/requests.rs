use std::cell::{Cell, OnceCell};

use bridge_call::error::Error;
use bridge_call::pipeline::{step, Action, Event, Request, State};

fn request(method: &str, path: &str, body: &str) -> Request {
    Request {
        config_path: "arc.json".to_string(),
        method: method.to_string(),
        path: path.to_string(),
        body: body.to_string(),
    }
}

fn text_of(buffer: &[u8]) -> String {
    String::from_utf8(buffer[..buffer.len() - 1].to_vec()).unwrap()
}

// Answers with method, path and body, joined by colons.
fn echo(_config: &[u8], method: &[u8], path: &[u8], body: &[u8]) -> Vec<u8> {
    let mut response = format!("{}:{}:{}", text_of(method), text_of(path), text_of(body)).into_bytes();
    response.push(0);
    response
}

struct Outcome {
    printed: Vec<String>,
    calls: Vec<[Vec<u8>; 4]>,
    loads: Vec<String>,
    result: Result<(), Error>,
}

// Drives one request to its end: performs each action and reports what came of it.
fn drive(
    request: Request,
    config: Option<&str>,
    bridge: &dyn Fn(&[u8], &[u8], &[u8], &[u8]) -> Vec<u8>,
) -> Outcome {
    let response: OnceCell<Vec<u8>> = OnceCell::new();
    let mut outcome = Outcome { printed: vec![], calls: vec![], loads: vec![], result: Ok(()) };
    let mut state = State::new(request);
    let steps = Cell::new(0);
    loop {
        steps.set(steps.get() + 1);
        assert!(steps.get() <= 6);
        let event = match state.action() {
            Action::LoadConfig(path) => {
                outcome.loads.push(path.to_string());
                match config {
                    Some(content) => Event::ConfigLoaded(content.to_string()),
                    None => Event::ConfigUnreadable,
                }
            }
            Action::Continue => Event::Continue,
            Action::Invoke(call) => {
                let (config, method, path, body) = call.arguments();
                outcome.calls.push([config.to_vec(), method.to_vec(), path.to_vec(), body.to_vec()]);
                assert!(response.set(bridge(config, method, path, body)).is_ok());
                Event::BridgeReturned(response.get().unwrap())
            }
            Action::Print(text) => {
                outcome.printed.push(text.to_string());
                Event::Printed
            }
            Action::Exit => {
                outcome.result = Ok(());
                return outcome;
            }
            Action::Abort(error) => {
                outcome.result = Err(error);
                return outcome;
            }
        };
        state = step(state, event);
    }
}

#[test]
fn end_to_end_with_a_bridge_that_echoes() {
    let outcome = drive(request("GET", "/x", "y"), Some("{}"), &echo);
    assert_eq!(outcome.result, Ok(()));
    assert_eq!(outcome.printed, vec!["GET:/x:y".to_string()]);
    assert_eq!(outcome.loads, vec!["arc.json".to_string()]);
    assert_eq!(outcome.calls.len(), 1);
}

#[test]
fn bridge_sees_config_method_path_body_in_this_order() {
    let outcome = drive(request("GET", "/x", "y"), Some("{}"), &echo);
    assert_eq!(
        outcome.calls,
        vec![[b"{}\0".to_vec(), b"GET\0".to_vec(), b"/x\0".to_vec(), b"y\0".to_vec()]]
    );
}

#[test]
fn bridge_sees_the_order_whatever_the_fields_hold() {
    let cases = [
        ("c", "m", "p", "b"),
        ("b", "p", "m", "c"),
        ("", "", "", ""),
        ("same", "same", "same", "same"),
        ("{\"a\":1}", "POST", "/", "caf\u{e9}"),
        ("body", "path", "method", "config"),
    ];
    for (config, method, path, body) in cases {
        let outcome = drive(request(method, path, body), Some(config), &echo);
        let mut expected = [
            config.as_bytes().to_vec(),
            method.as_bytes().to_vec(),
            path.as_bytes().to_vec(),
            body.as_bytes().to_vec(),
        ];
        for argument in expected.iter_mut() {
            argument.push(0);
        }
        assert_eq!(outcome.calls, vec![expected]);
        assert_eq!(outcome.result, Ok(()));
        assert_eq!(outcome.printed, vec![format!("{}:{}:{}", method, path, body)]);
    }
}

#[test]
fn empty_body_is_sent_as_the_sentinel_alone() {
    let outcome = drive(request("POST", "/", ""), Some("{}"), &echo);
    assert_eq!(outcome.result, Ok(()));
    assert_eq!(outcome.calls.len(), 1);
    assert_eq!(outcome.calls[0][3], vec![0u8]);
    assert_eq!(outcome.printed, vec!["POST:/:".to_string()]);
}

#[test]
fn unreadable_config_fails_with_io_and_calls_no_bridge() {
    let outcome = drive(request("GET", "/x", "y"), None, &echo);
    assert_eq!(outcome.result, Err(Error::Io));
    assert!(outcome.calls.is_empty());
    assert!(outcome.printed.is_empty());
}

#[test]
fn unreadable_config_fails_the_same_way_each_time() {
    for _ in 0..3 {
        let state = step(State::new(request("GET", "/x", "y")), Event::ConfigUnreadable);
        assert!(matches!(state, State::Failed(Error::Io)));
        assert!(matches!(state.action(), Action::Abort(Error::Io)));
    }
}

#[test]
fn sentinel_in_the_config_is_rejected_before_the_bridge() {
    let outcome = drive(request("GET", "/x", "y"), Some("{\0}"), &echo);
    assert_eq!(outcome.result, Err(Error::Encoding));
    assert!(outcome.calls.is_empty());
    assert!(outcome.printed.is_empty());
}

#[test]
fn sentinel_in_the_method_is_rejected_before_the_bridge() {
    let outcome = drive(request("GE\0T", "/x", "y"), Some("{}"), &echo);
    assert_eq!(outcome.result, Err(Error::Encoding));
    assert!(outcome.calls.is_empty());
    assert!(outcome.printed.is_empty());
}

#[test]
fn sentinel_in_the_path_is_rejected_before_the_bridge() {
    let outcome = drive(request("GET", "\0/x", "y"), Some("{}"), &echo);
    assert_eq!(outcome.result, Err(Error::Encoding));
    assert!(outcome.calls.is_empty());
    assert!(outcome.printed.is_empty());
}

#[test]
fn sentinel_in_the_body_is_rejected_before_the_bridge() {
    let outcome = drive(request("GET", "/x", "y\0"), Some("{}"), &echo);
    assert_eq!(outcome.result, Err(Error::Encoding));
    assert!(outcome.calls.is_empty());
    assert!(outcome.printed.is_empty());
}

#[test]
fn response_that_is_no_text_fails_after_one_call() {
    let garbled = |_: &[u8], _: &[u8], _: &[u8], _: &[u8]| vec![0xffu8, 0];
    let outcome = drive(request("GET", "/x", "y"), Some("{}"), &garbled);
    assert_eq!(outcome.result, Err(Error::Encoding));
    assert_eq!(outcome.calls.len(), 1);
    assert!(outcome.printed.is_empty());
}

#[test]
fn response_without_sentinel_fails_after_one_call() {
    let open_ended = |_: &[u8], _: &[u8], _: &[u8], _: &[u8]| b"abc".to_vec();
    let outcome = drive(request("GET", "/x", "y"), Some("{}"), &open_ended);
    assert_eq!(outcome.result, Err(Error::Encoding));
    assert_eq!(outcome.calls.len(), 1);
    assert!(outcome.printed.is_empty());
}

#[test]
fn error_text_of_the_bridge_is_printed_like_any_response() {
    let failing = |_: &[u8], _: &[u8], _: &[u8], _: &[u8]| b"error: no route\0".to_vec();
    let outcome = drive(request("GET", "/x", "y"), Some("{}"), &failing);
    assert_eq!(outcome.result, Ok(()));
    assert_eq!(outcome.printed, vec!["error: no route".to_string()]);
}

#[test]
fn states_follow_each_other_one_by_one() {
    let response = b"ok\0".to_vec();
    let state = State::new(request("GET", "/x", "y"));
    assert!(matches!(state, State::Idle(_)));
    assert!(matches!(state.action(), Action::LoadConfig("arc.json")));
    let state = step(state, Event::ConfigLoaded("{}".to_string()));
    assert!(matches!(state, State::Loaded(_)));
    assert!(matches!(state.action(), Action::Continue));
    let state = step(state, Event::Continue);
    assert!(matches!(state, State::Marshalled(_)));
    assert!(matches!(state.action(), Action::Invoke(_)));
    let state = step(state, Event::BridgeReturned(&response));
    assert!(matches!(state, State::Invoked(_)));
    assert!(matches!(state.action(), Action::Continue));
    let state = step(state, Event::Continue);
    assert!(matches!(state, State::Decoded(_)));
    assert!(matches!(state.action(), Action::Print("ok")));
    let state = step(state, Event::Printed);
    assert!(matches!(state, State::Done));
    assert!(matches!(state.action(), Action::Exit));
}

#[test]
fn loaded_state_holds_the_content_and_the_three_texts() {
    let state = step(State::new(request("GET", "/x", "y")), Event::ConfigLoaded("{}".to_string()));
    match state {
        State::Loaded(fields) => {
            assert_eq!(fields.config, "{}");
            assert_eq!(fields.method, "GET");
            assert_eq!(fields.path, "/x");
            assert_eq!(fields.body, "y");
        }
        other => panic!("{:?}", other),
    }
}

#[test]
fn event_out_of_turn_changes_nothing() {
    let response = b"ok\0".to_vec();
    let state = State::new(request("GET", "/x", "y"));
    let state = step(state, Event::Continue);
    let state = step(state, Event::Printed);
    let state = step(state, Event::BridgeReturned(&response));
    assert!(matches!(state, State::Idle(_)));
    let state = step(state, Event::ConfigLoaded("{}".to_string()));
    let state = step(state, Event::ConfigUnreadable);
    let state = step(state, Event::ConfigLoaded("other".to_string()));
    match &state {
        State::Loaded(fields) => assert_eq!(fields.config, "{}"),
        other => panic!("{:?}", other),
    }
    let state = step(state, Event::Continue);
    let state = step(state, Event::Continue);
    let state = step(state, Event::Printed);
    assert!(matches!(state, State::Marshalled(_)));
    let state = step(state, Event::BridgeReturned(&response));
    let state = step(state, Event::Printed);
    assert!(matches!(state, State::Invoked(_)));
    let state = step(state, Event::Continue);
    let state = step(state, Event::Continue);
    assert!(matches!(state, State::Decoded(_)));
}

#[test]
fn done_is_final() {
    let response = b"ok\0".to_vec();
    let mut state = State::new(request("GET", "/x", "y"));
    state = step(state, Event::ConfigLoaded("{}".to_string()));
    state = step(state, Event::Continue);
    state = step(state, Event::BridgeReturned(&response));
    state = step(state, Event::Continue);
    state = step(state, Event::Printed);
    assert!(matches!(state, State::Done));
    state = step(state, Event::ConfigLoaded("{}".to_string()));
    state = step(state, Event::ConfigUnreadable);
    state = step(state, Event::Continue);
    state = step(state, Event::BridgeReturned(&response));
    state = step(state, Event::Printed);
    assert!(matches!(state, State::Done));
}

#[test]
fn failed_is_final() {
    let response = b"ok\0".to_vec();
    let mut state = step(State::new(request("GET", "/x", "y")), Event::ConfigUnreadable);
    state = step(state, Event::ConfigLoaded("{}".to_string()));
    state = step(state, Event::Continue);
    state = step(state, Event::BridgeReturned(&response));
    state = step(state, Event::Continue);
    state = step(state, Event::Printed);
    assert!(matches!(state, State::Failed(Error::Io)));
    assert!(matches!(state.action(), Action::Abort(Error::Io)));
}
