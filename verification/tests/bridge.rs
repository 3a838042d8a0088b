use apw::bridge::{
    bridge_frame_text, browser_bridge_not_attached_message, hello_failure, inbound_event,
    parse_bridge_message, BridgeFrame, BridgeFromBrowserMessage, BridgeReaction,
    BridgeToBrowserMessage, BrowserBridge, BrowserEvent, HelloFailure, NativeEvent, Opening,
};
use apw::daemon::{
    answer_client, capabilities_probe_message, encode_answer, parse_helper_response_shape,
};
use apw::host::{HostEnvironment, HostOverrides};
use apw::json::{parse_json, JsonValue};
use apw::types::{RuntimeMode, Status};

fn json(text: &str) -> JsonValue {
    parse_json(text.as_bytes()).expect("JSON")
}

fn at(value: &JsonValue, path: &[&str]) -> JsonValue {
    path.iter()
        .fold(value.copy(), |inner, key| inner.get_or_null(key))
}

fn host() -> HostEnvironment {
    HostEnvironment {
        home: "/home/alice".to_string(),
        os: "linux".to_string(),
        arch: "x86_64".to_string(),
        on_macos: false,
        macos_major_version: None,
        bundle_exists: false,
        bundle_info: None,
        launch_agent_exists: false,
        launch_agent_loaded: false,
        helper_executable: false,
        socket_exists: false,
        overrides: HostOverrides::default(),
    }
}

fn browser() -> BrowserBridge {
    BrowserBridge::new("127.0.0.1".to_string(), 10_050, RuntimeMode::Browser)
}

fn native() -> BrowserBridge {
    BrowserBridge::new("127.0.0.1".to_string(), 10_000, RuntimeMode::Native)
}

fn hello(browser: &str, version: Option<&str>) -> BridgeFromBrowserMessage {
    BridgeFromBrowserMessage::Hello {
        browser: browser.to_string(),
        version: version.map(str::to_string),
    }
}

fn probe_bytes() -> Vec<u8> {
    capabilities_probe_message().to_text()
}

fn ask(bridge: &mut BrowserBridge) -> String {
    match bridge.enqueue_request(&host(), &probe_bytes()).unwrap() {
        BridgeToBrowserMessage::Request { request_id, .. } => request_id,
    }
}

fn reply(outcome: apw::error::Result<JsonValue>) -> JsonValue {
    let shaped = outcome.and_then(|payload| parse_helper_response_shape(&payload));
    json(&String::from_utf8(encode_answer(&answer_client(shaped))).unwrap())
}

fn response(
    request_id: &str,
    ok: bool,
    payload: Option<JsonValue>,
    code: Option<Status>,
    error: Option<&str>,
) -> BridgeFromBrowserMessage {
    BridgeFromBrowserMessage::Response {
        request_id: request_id.to_string(),
        ok,
        payload,
        code,
        error: error.map(str::to_string),
    }
}

fn status(status: &str, error: Option<&str>) -> BridgeFromBrowserMessage {
    BridgeFromBrowserMessage::Status {
        status: status.to_string(),
        error: error.map(str::to_string),
    }
}

#[test]
fn start_daemon_browser_reports_waiting_bridge_until_extension_attaches() {
    let mut bridge = browser();
    let input = bridge.persist_snapshot();
    assert_eq!(input.runtime_mode, Some(RuntimeMode::Browser));
    assert_eq!(input.bridge_status.as_deref(), Some("waiting"));

    let outcome = bridge.enqueue_request(&host(), &probe_bytes());
    let answer = reply(Err(outcome.unwrap_err()));
    assert_eq!(at(&answer, &["ok"]), JsonValue::Bool(false));
    assert_eq!(at(&answer, &["code"]), JsonValue::integer(103));
    assert!(at(&answer, &["error"])
        .as_str()
        .unwrap()
        .contains("bridge.status=attached"));
}

#[test]
fn start_daemon_browser_routes_requests_and_tracks_attach_disconnect() {
    let mut bridge = browser();
    match bridge.open_browser_connection(1, hello("chrome", Some("test")), "now".to_string()) {
        Opening::Attached(settled) => assert!(settled.request_ids.is_empty()),
        Opening::Refused { .. } => panic!("a greeting attaches"),
    }
    let attached = bridge.persist_snapshot();
    assert_eq!(attached.bridge_status.as_deref(), Some("attached"));
    assert_eq!(attached.bridge_browser.as_deref(), Some("chrome"));
    assert_eq!(attached.bridge_connected_at.as_deref(), Some("now"));

    let request = bridge.enqueue_request(&host(), &probe_bytes()).unwrap();
    let sent = request.to_value();
    assert_eq!(at(&sent, &["type"]), JsonValue::text("request"));
    assert_eq!(at(&sent, &["payload", "cmd"]), JsonValue::integer(14));
    let request_id = at(&sent, &["request_id"]).as_str().unwrap().clone();

    let payload = json("{\"ok\":true,\"code\":0,\"payload\":{\"status\":\"ok\"}}");
    let answer = response(&request_id, true, Some(payload), None, None);
    match bridge.browser_message(&host(), 1, answer) {
        BridgeReaction::Answer { request_id: id, response } => {
            assert_eq!(id, request_id);
            let envelope = reply(response);
            assert_eq!(at(&envelope, &["ok"]), JsonValue::Bool(true));
            assert_eq!(at(&envelope, &["code"]), JsonValue::integer(0));
            assert_eq!(at(&envelope, &["payload", "status"]), JsonValue::text("ok"));
        }
        _ => panic!("the request is answered"),
    }

    assert!(bridge.mark_disconnected(&host(), 1, None).is_some());
    let disconnected = bridge.persist_snapshot();
    assert_eq!(disconnected.bridge_status.as_deref(), Some("disconnected"));
    assert_eq!(disconnected.bridge_browser.as_deref(), Some("chrome"));
    assert!(disconnected.bridge_connected_at.is_none());
}

#[test]
fn start_daemon_browser_propagates_bridge_transport_errors() {
    let mut bridge = browser();
    bridge.open_browser_connection(1, hello("chrome", None), "now".to_string());
    assert_eq!(bridge.snapshot().browser.as_deref(), Some("chrome"));
    let request_id = ask(&mut bridge);
    let answer = response(
        &request_id,
        false,
        None,
        Some(Status::ProcessNotRunning),
        Some("Native host disconnected."),
    );
    match bridge.browser_message(&host(), 1, answer) {
        BridgeReaction::Answer { response, .. } => {
            let envelope = reply(response);
            assert_eq!(at(&envelope, &["ok"]), JsonValue::Bool(false));
            assert_eq!(at(&envelope, &["code"]), JsonValue::integer(103));
            assert_eq!(
                at(&envelope, &["error"]),
                JsonValue::text("Native host disconnected.")
            );
        }
        _ => panic!("the request is answered"),
    }
}

#[test]
fn requests_have_names_of_their_own() {
    let mut bridge = browser();
    bridge.attach(1, "chrome".to_string(), "now".to_string());
    assert_eq!(ask(&mut bridge), "bridge-1");
    assert_eq!(ask(&mut bridge), "bridge-2");
    let error = bridge.enqueue_request(&host(), b"{bad").unwrap_err();
    assert_eq!(error.code, Status::InvalidMessageFormat);
    assert_eq!(error.message, "Daemon received malformed client payload.");
    assert_eq!(ask(&mut bridge), "bridge-3");
}

#[test]
fn a_request_is_answered_once() {
    let mut bridge = browser();
    bridge.attach(1, "chrome".to_string(), "now".to_string());
    let first = ask(&mut bridge);
    let second = ask(&mut bridge);
    assert!(bridge.complete_response(&first));
    assert!(!bridge.complete_response(&first));
    assert!(!bridge.complete_response("bridge-99"));
    match bridge.browser_message(&host(), 1, response(&first, true, Some(json("{}")), None, None)) {
        BridgeReaction::Ignore => {}
        _ => panic!("the request no longer waits"),
    }
    assert!(bridge.complete_response(&second));
}

#[test]
fn a_new_connection_ends_the_requests_on_the_old_one() {
    let mut bridge = browser();
    bridge.attach(1, "chrome".to_string(), "now".to_string());
    let first = ask(&mut bridge);
    let second = ask(&mut bridge);
    let settled = bridge.attach(2, "chrome".to_string(), "later".to_string());
    assert_eq!(settled.request_ids, vec![first, second]);
    assert_eq!(settled.error.code, Status::ProcessNotRunning);
    assert_eq!(
        settled.error.message,
        "Browser bridge was replaced before pending requests completed."
    );
    // The old connection has no say any more.
    assert!(bridge.mark_error(1, "late".to_string()).is_none());
    assert!(bridge.mark_disconnected(&host(), 1, None).is_none());
    assert!(bridge.is_attached());
    assert_eq!(bridge.snapshot().connected_at.as_deref(), Some("later"));

    let mut host_bridge = native();
    host_bridge.attach(1, "host".to_string(), "now".to_string());
    let settled = host_bridge.attach(2, "host".to_string(), "now".to_string());
    assert_eq!(
        settled.error.message,
        "Native host was replaced before pending requests completed."
    );
}

#[test]
fn the_end_of_a_connection_ends_its_requests() {
    let mut bridge = browser();
    bridge.attach(1, "chrome".to_string(), "now".to_string());
    let waiting = ask(&mut bridge);
    let settled = bridge.mark_error(1, "boom".to_string()).unwrap();
    assert_eq!(settled.request_ids, vec![waiting]);
    assert_eq!(settled.error.message, "boom");
    let snapshot = bridge.snapshot();
    assert_eq!(snapshot.status, "error");
    assert_eq!(snapshot.last_error.as_deref(), Some("boom"));
    assert!(snapshot.connected_at.is_none());
    assert!(bridge.mark_error(1, "again".to_string()).is_none());
    let refused = bridge.enqueue_request(&host(), &probe_bytes()).unwrap_err();
    assert_eq!(
        refused.message,
        "Daemon is running in browser mode, but the chrome bridge reported an error: boom. Reload the APW Chrome bridge extension and wait for `apw status --json` to report `bridge.status=attached`."
    );

    bridge.attach(3, "chrome".to_string(), "now".to_string());
    assert_eq!(bridge.mark_status(3, "attached", None).unwrap().len(), 0);
    assert_eq!(bridge.snapshot().connected_at.as_deref(), Some("now"));
    assert_eq!(bridge.mark_status(3, "waiting", None).unwrap().len(), 0);
    assert!(!bridge.is_attached());
    assert!(bridge.mark_status(4, "attached", None).is_none());
}

#[test]
fn a_request_that_cannot_be_sent_no_longer_waits() {
    let mut bridge = browser();
    bridge.attach(1, "chrome".to_string(), "now".to_string());
    let request_id = ask(&mut bridge);
    let error = bridge.send_failed(&host(), &request_id);
    assert_eq!(error.code, Status::ProcessNotRunning);
    assert!(error.message.contains("the chrome bridge disconnected."));
    assert!(!bridge.complete_response(&request_id));
}

#[test]
fn a_browser_has_to_greet_first() {
    let mut bridge = browser();
    match bridge.open_browser_connection(1, status("attached", None), "now".to_string()) {
        Opening::Refused { settled, error } => {
            assert!(settled.is_none());
            assert_eq!(error.code, Status::ProtoInvalidResponse);
            assert_eq!(error.message, "Browser bridge must send a hello message first.");
        }
        Opening::Attached(_) => panic!("no greeting"),
    }
    assert!(!bridge.is_attached());
    assert_eq!(
        hello_failure(HelloFailure::TimedOut).message,
        "Browser bridge did not send an identity message in time."
    );
    assert_eq!(
        hello_failure(HelloFailure::Closed).message,
        "Browser bridge disconnected before sending an identity message."
    );
    assert_eq!(
        hello_failure(HelloFailure::Receive("reset".to_string())).message,
        "Browser bridge receive failed: reset"
    );
}

#[test]
fn the_native_host_goes_by_its_version() {
    let mut bridge = native();
    let (name, settled) = bridge
        .open_native_connection(1, hello("native", Some("2.0.0")), "now".to_string())
        .unwrap();
    assert_eq!(name, "2.0.0");
    assert!(settled.request_ids.is_empty());
    assert_eq!(bridge.snapshot().browser.as_deref(), Some("2.0.0"));
    let (name, _) = bridge
        .open_native_connection(2, hello("native", None), "now".to_string())
        .unwrap();
    assert_eq!(name, "native");
    assert!(bridge
        .open_native_connection(3, status("error", None), "now".to_string())
        .is_none());
}

#[test]
fn reports_of_a_browser_change_what_is_known_of_it() {
    let mut bridge = browser();
    bridge.attach(1, "chrome".to_string(), "now".to_string());
    match bridge.browser_message(&host(), 1, hello("other", None)) {
        BridgeReaction::Ignore => {}
        _ => panic!("a second greeting changes nothing"),
    }
    match bridge.browser_message(&host(), 1, status("attached", Some("ignored"))) {
        BridgeReaction::Refresh(input) => {
            assert_eq!(input.bridge_status.as_deref(), Some("attached"));
            assert_eq!(input.bridge_browser.as_deref(), Some("chrome"));
            assert!(input.bridge_last_error.is_none());
            assert!(!input.clear_auth);
        }
        _ => panic!("the configuration is refreshed"),
    }
    match bridge.browser_message(&host(), 1, status("other", None)) {
        BridgeReaction::Ignore => {}
        _ => panic!("an unknown status changes nothing"),
    }
    let request_id = ask(&mut bridge);
    match bridge.browser_message(&host(), 1, status("error", None)) {
        BridgeReaction::Settle(settled) => {
            assert_eq!(settled.request_ids, vec![request_id]);
            assert_eq!(
                settled.error.message,
                "Browser bridge reported an unknown error."
            );
        }
        _ => panic!("the requests end"),
    }
    match bridge.browser_message(&host(), 1, status("disconnected", None)) {
        BridgeReaction::Ignore => {}
        _ => panic!("the connection has ended before"),
    }
}

#[test]
fn answers_of_a_browser_come_to_results() {
    let outcome = |message: fn(&str) -> BridgeFromBrowserMessage| {
        let mut bridge = browser();
        bridge.attach(1, "chrome".to_string(), "now".to_string());
        let request_id = ask(&mut bridge);
        match bridge.browser_message(&host(), 1, message(&request_id)) {
            BridgeReaction::Answer { response, .. } => response,
            _ => panic!("the request is answered"),
        }
    };
    let missing = outcome(|id| response(id, true, None, None, None)).unwrap_err();
    assert_eq!(missing.code, Status::ProtoInvalidResponse);
    assert_eq!(
        missing.message,
        "Browser bridge response was missing helper payload."
    );
    let unknown = outcome(|id| response(id, false, None, None, None)).unwrap_err();
    assert_eq!(unknown.code, Status::GenericError);
    assert_eq!(unknown.message, "Browser bridge returned an unknown error.");
}

#[test]
fn answers_of_the_native_host_come_to_results() {
    let outcome = |message: fn(&str) -> BridgeFromBrowserMessage| {
        let mut bridge = native();
        bridge.attach(1, "host".to_string(), "now".to_string());
        let request_id = ask(&mut bridge);
        match bridge.native_message(&host(), 1, message(&request_id)) {
            (BridgeReaction::Answer { response, .. }, false) => response,
            _ => panic!("the request is answered"),
        }
    };
    let empty = outcome(|id| response(id, true, None, None, None)).unwrap();
    assert!(empty.is_null());
    let failed = outcome(|id| response(id, false, None, Some(Status::NoResults), None)).unwrap_err();
    assert_eq!(failed.code, Status::NoResults);
    assert_eq!(failed.message, "Native host request failed.");
}

#[test]
fn the_native_host_ends_its_connection_with_a_report() {
    let mut bridge = native();
    bridge.attach(1, "host".to_string(), "now".to_string());
    match bridge.native_message(&host(), 1, status("attached", None)) {
        (BridgeReaction::Ignore, false) => {}
        _ => panic!("nothing changes"),
    }
    match bridge.native_message(&host(), 1, status("error", Some("bad"))) {
        (BridgeReaction::Settle(settled), true) => assert_eq!(settled.error.message, "bad"),
        _ => panic!("the connection is over"),
    }
    bridge.attach(2, "host".to_string(), "now".to_string());
    match bridge.native_message(&host(), 2, status("disconnected", None)) {
        (BridgeReaction::Settle(settled), true) => {
            assert!(settled.error.message.starts_with(
                "Daemon is running in native mode, but the APW native host disconnected. "
            ));
            assert!(settled.error.message.contains("unsupported_platform"));
        }
        _ => panic!("the connection is over"),
    }
}

#[test]
fn late_and_lost_answers_are_told_apart() {
    assert_eq!(
        browser().response_timed_out().message,
        "Browser bridge response timed out."
    );
    assert_eq!(native().response_timed_out().code, Status::CommunicationTimeout);
    assert_eq!(
        native().response_timed_out().message,
        "Native host response timed out."
    );
    assert_eq!(
        browser().response_dropped().message,
        "Browser bridge disconnected before returning a response."
    );
    assert_eq!(
        native().response_dropped().message,
        "Native host disconnected before returning a response."
    );
    assert_eq!(native().response_dropped().code, Status::ProcessNotRunning);
}

#[test]
fn complaints_name_the_end_that_is_missing() {
    let message = |mode, status: &str, error: Option<&str>| {
        browser_bridge_not_attached_message(
            &host(),
            mode,
            &None,
            status,
            &error.map(str::to_string),
        )
    };
    assert_eq!(
        message(RuntimeMode::Browser, "waiting", None),
        "Daemon is running in browser mode, but no Chrome bridge is attached. Load the APW Chrome bridge extension and wait for `apw status --json` to report `bridge.status=attached`."
    );
    assert!(message(RuntimeMode::Native, "waiting", None).starts_with(
        "Daemon is running in native mode, but the APW native host is not attached. Run `apw host doctor`"
    ));
    assert!(message(RuntimeMode::Native, "error", Some("x")).starts_with(
        "Daemon is running in native mode, but the APW native host reported an error: x. Run "
    ));
    assert!(message(RuntimeMode::Native, "error", None)
        .contains("the APW native host is not attached."));
}

#[test]
fn frames_that_hold_no_text_are_refused() {
    let read = |text: String| match text.as_str() {
        "hi" => Some(hello("chrome", None)),
        _ => None,
    };
    match parse_bridge_message(BridgeFrame::Text("hi".to_string()), &read).unwrap() {
        BridgeFromBrowserMessage::Hello { browser, .. } => assert_eq!(browser, "chrome"),
        _ => panic!("a greeting"),
    }
    assert!(parse_bridge_message(BridgeFrame::Binary(b"hi".to_vec()), &read).is_ok());
    let error = |frame| parse_bridge_message(frame, &read).unwrap_err();
    assert_eq!(
        error(BridgeFrame::Text("ho".to_string())).message,
        "Browser bridge sent malformed JSON."
    );
    assert_eq!(
        error(BridgeFrame::Binary(vec![0xff, 0xfe])).message,
        "Browser bridge sent invalid UTF-8 payload."
    );
    let closed = error(BridgeFrame::Close);
    assert_eq!(closed.code, Status::ProcessNotRunning);
    assert_eq!(closed.message, "Browser bridge closed the connection.");
    assert_eq!(
        error(BridgeFrame::Control).message,
        "Browser bridge control frame cannot be decoded as JSON."
    );
    assert_eq!(
        error(BridgeFrame::Raw).message,
        "Browser bridge frame cannot be decoded as JSON."
    );
    assert_eq!(
        bridge_frame_text(BridgeFrame::Binary("gr\u{fc}n".as_bytes().to_vec())).unwrap(),
        "gr\u{fc}n"
    );
}

#[test]
fn a_request_to_the_browser_is_printed_in_the_order_of_its_members() {
    let message = BridgeToBrowserMessage::Request {
        request_id: "bridge-7".to_string(),
        payload: json("{\"cmd\":14,\"a\":1}"),
    };
    let text =
        "{\"type\":\"request\",\"request_id\":\"bridge-7\",\"payload\":{\"a\":1,\"cmd\":14}}";
    assert_eq!(message.to_text(), text);
    assert_eq!(message.to_bytes(), text.as_bytes());
}

fn attached_browser() -> (BrowserBridge, String) {
    let mut bridge = browser();
    bridge.open_browser_connection(1, hello("chrome", None), "now".to_string());
    let id = ask(&mut bridge);
    (bridge, id)
}

#[test]
fn what_happens_to_a_browser_decides_how_its_connection_ends() {
    let (mut bridge, _) = attached_browser();
    let (reaction, over) = bridge.browser_event(&host(), 1, BrowserEvent::OutboundEnded);
    assert!(matches!(reaction, BridgeReaction::Ignore) && matches!(over, Some(Ok(()))));
    for (event, message) in [
        (BrowserEvent::SendFailed("x".to_string()), "Browser bridge send failed: x"),
        (BrowserEvent::ReceiveFailed("x".to_string()), "Browser bridge receive failed: x"),
    ] {
        let (reaction, over) = bridge.browser_event(&host(), 1, event);
        assert!(matches!(reaction, BridgeReaction::Ignore));
        let error = over.unwrap().unwrap_err();
        assert_eq!((error.code, error.message.as_str()), (Status::ProcessNotRunning, message));
    }
    let garbage = inbound_event(BridgeFrame::Text("{".to_string()), &|_| None);
    let (reaction, over) = bridge.browser_event(&host(), 1, garbage);
    assert!(matches!(reaction, BridgeReaction::Ignore));
    assert_eq!(over.unwrap().unwrap_err().message, "Browser bridge sent malformed JSON.");
    assert!(bridge.is_attached());

    let (mut bridge, id) = attached_browser();
    let message = inbound_event(BridgeFrame::Text("{}".to_string()), &|_| {
        Some(response(&id, false, None, None, Some("no")))
    });
    let (reaction, over) = bridge.browser_event(&host(), 1, message);
    assert!(over.is_none());
    assert!(matches!(reaction, BridgeReaction::Answer { request_id, .. } if request_id == id));

    let (mut bridge, id) = attached_browser();
    let closed = inbound_event(BridgeFrame::Close, &|_| panic!("nothing is read"));
    let (reaction, over) = bridge.browser_event(&host(), 1, closed);
    assert!(matches!(over, Some(Ok(()))));
    match reaction {
        BridgeReaction::Settle(settled) => assert_eq!(settled.request_ids, [id]),
        _ => panic!("the request ends"),
    }
    assert_eq!(bridge.persist_snapshot().bridge_status.as_deref(), Some("disconnected"));
}

#[test]
fn what_happens_to_the_native_host_decides_how_its_connection_ends() {
    for (event, state, complaint) in [
        (NativeEvent::WriteFailed("w".to_string()), "disconnected", "w"),
        (NativeEvent::ReadFailed("r".to_string()), "disconnected", "r"),
        (
            NativeEvent::Malformed("m".to_string()),
            "error",
            "Malformed native host response: m",
        ),
    ] {
        let mut bridge = native();
        bridge.open_native_connection(1, hello("host", None), "now".to_string());
        let id = ask(&mut bridge);
        let (reaction, over) = bridge.native_event(&host(), 1, event);
        assert!(over);
        match reaction {
            BridgeReaction::Settle(settled) => assert_eq!(settled.request_ids, [id]),
            _ => panic!("the request ends"),
        }
        let written = bridge.persist_snapshot();
        assert_eq!(written.bridge_status.as_deref(), Some(state));
        assert_eq!(written.bridge_last_error.as_deref(), Some(complaint));
    }
    let mut bridge = native();
    bridge.open_native_connection(1, hello("host", None), "now".to_string());
    let (reaction, over) =
        bridge.native_event(&host(), 1, NativeEvent::Received(hello("host", None)));
    assert!(!over && matches!(reaction, BridgeReaction::Ignore));
}
