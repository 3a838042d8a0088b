use apw::daemon::{
    answer_client, capabilities_probe_message, check_request_size, conclude_launch,
    encode_answer, encode_frame, ensure_helper_stays_alive, explain_start_failure, frame_length,
    helper_read_failure, helper_termination_message, helper_write_failure, launch_command,
    launch_readiness, map_helper_io_error, map_request_failure, native_attach_failure,
    parse_helper_payload, parse_helper_response_shape, persist_browser_waiting,
    persist_native_waiting, persistence_for_launch, persistence_for_launch_error,
    persistence_for_service, plan_start, poll_helper, probe_helper_readiness,
    read_helper_frame, record_request_failure, resolve_probe_failure_message, resolve_uid,
    response_envelope, start_daemon, verify_native_host_peer, DaemonOptions, FailureStep, FramePeer, HelperIoFailure,
    HelperLaunchContext, HelperState, LaunchProbe, PollEnd, PollStep, ProbeStep, StartPlan,
    HELPER_LAUNCH_DISABLED, HELPER_LAUNCH_FAILED, HELPER_LAUNCH_OK, MAX_HELPER_PAYLOAD,
    PROCESS_STATUS_RETRY_LIMIT,
};
use apw::error::APWError;
use apw::host::{HostEnvironment, HostOverrides};
use apw::json::{parse_json, to_json, JsonValue};
use apw::manager::decode_response;
use apw::preflight::{
    backend_selection, configured_macos_major_version, current_macos_major_version,
    helper_preflight_failure_message, helper_preflight_status, inspect_manifest_preflight,
    is_absolute_unix_path, is_manifest, launch_strategy_labels, manifest_binary, read_manifest,
    resolve_runtime_mode, set_macos_major_override_for_tests, HelperBackend, ManifestFinding,
    PreflightEnvironment,
};
use apw::types::{ManifestConfig, RuntimeMode, Status};
use apw::utils::write_config;
use apw::utils::WriteConfigInput;
use rand::{thread_rng, Rng, RngCore};

const FIREFOX: &str =
    "/Library/Application Support/Mozilla/NativeMessagingHosts/com.apple.passwordmanager.json";

fn json(text: &str) -> JsonValue {
    parse_json(text.as_bytes()).expect("JSON")
}

fn at(value: &JsonValue, path: &[&str]) -> JsonValue {
    path.iter()
        .fold(value.copy(), |inner, key| inner.get_or_null(key))
}

fn host() -> HostEnvironment {
    HostEnvironment {
        home: "/home/alice".to_string(),
        os: "linux".to_string(),
        arch: "x86_64".to_string(),
        on_macos: false,
        macos_major_version: None,
        bundle_exists: false,
        bundle_info: None,
        launch_agent_exists: false,
        launch_agent_loaded: false,
        helper_executable: false,
        socket_exists: false,
        overrides: HostOverrides::default(),
    }
}

fn nothing_found() -> ManifestFinding {
    ManifestFinding {
        path: None,
        content: None,
        binary_executable: false,
    }
}

fn linux() -> PreflightEnvironment {
    PreflightEnvironment {
        on_macos: false,
        os: "linux".to_string(),
        arch: "x86_64".to_string(),
        macos_major_version: None,
        host: host(),
        manifest: nothing_found(),
    }
}

fn manifest_text() -> String {
    "{\"name\":\"com.apple.passwordmanager\",\"description\":\"Helper\",\"path\":\"/opt/helper\",\
     \"type\":\"stdio\",\"allowedOrigins\":[\"origin\"]}"
        .to_string()
}

fn macos(major: u32) -> PreflightEnvironment {
    PreflightEnvironment {
        on_macos: true,
        os: "macos".to_string(),
        arch: "aarch64".to_string(),
        macos_major_version: Some(major),
        host: HostEnvironment {
            on_macos: true,
            macos_major_version: Some(major),
            bundle_exists: true,
            launch_agent_exists: true,
            launch_agent_loaded: true,
            helper_executable: true,
            ..host()
        },
        manifest: ManifestFinding {
            path: Some(FIREFOX.to_string()),
            content: Some(manifest_text()),
            binary_executable: true,
        },
    }
}

fn manifest() -> ManifestConfig {
    ManifestConfig {
        name: "com.apple.passwordmanager".to_string(),
        description: "PasswordManagerBrowserExtensionHelper".to_string(),
        path: "/opt/helper".to_string(),
        type_: "stdio".to_string(),
        allowed_origins: vec!["test-origin".to_string()],
    }
}

fn daemon(mode: RuntimeMode, port: u16, dry_run: bool) -> DaemonOptions {
    DaemonOptions {
        port,
        host: "127.0.0.1".to_string(),
        runtime_mode: mode,
        dry_run,
    }
}

#[test]
fn is_manifest_accepts_allowed_extensions_key() {
    let text = "{\"name\":\"com.apple.passwordmanager\",\
        \"description\":\"PasswordManagerBrowserExtensionHelper\",\
        \"path\":\"/System/Cryptexes/App/System/Library/CoreServices/PasswordManagerBrowserExtensionHelper.app/Contents/MacOS/PasswordManagerBrowserExtensionHelper\",\
        \"type\":\"stdio\",\
        \"allowed_extensions\":[\"password-manager-firefox-extension@apple.com\"]}";
    assert!(is_manifest(&json(text)));
    let finding = ManifestFinding {
        path: Some(FIREFOX.to_string()),
        content: Some(text.to_string()),
        binary_executable: true,
    };
    let parsed = read_manifest(true, &finding).unwrap();
    assert_eq!(
        parsed.allowed_origins[0],
        "password-manager-firefox-extension@apple.com"
    );
}

#[test]
fn parse_helper_payload_rejects_non_object() {
    assert!(parse_helper_payload(b"[]").is_err());
    assert!(parse_helper_payload(b"\"string\"").is_err());
}

#[test]
fn parse_helper_payload_accepts_object_shape() {
    let value = json("{\"ok\":true}");
    assert!(parse_helper_payload(&to_json(&value)).is_ok());
}

#[test]
fn parse_helper_response_shape_legacy_passthrough() {
    let legacy = json("{\"status\":0,\"Entries\":[]}");
    let parsed = parse_helper_response_shape(&legacy).unwrap();
    assert_eq!(parsed.get("status"), Some(&JsonValue::integer(0)));
    assert_eq!(parsed.get("Entries"), Some(&JsonValue::Array(Vec::new())));
}

#[test]
fn parse_helper_response_shape_success_payload() {
    let response = json("{\"ok\":true,\"code\":0,\"payload\":{\"ok\":true}}");
    let parsed = parse_helper_response_shape(&response).unwrap();
    assert_eq!(parsed.get("ok"), Some(&JsonValue::Bool(true)));
}

#[test]
fn parse_helper_response_shape_error_payload() {
    let response = json("{\"ok\":false,\"code\":101,\"error\":\"Timed out\"}");
    let result = parse_helper_response_shape(&response).unwrap_err();
    assert_eq!(result.code, Status::CommunicationTimeout);
    assert_eq!(result.message, "Timed out");
}

#[test]
fn parse_helper_response_shape_unknown_status_maps_generic_error() {
    let response = json("{\"ok\":false,\"code\":9999,\"error\":\"\"}");
    let result = parse_helper_response_shape(&response).unwrap_err();
    assert_eq!(result.code, Status::GenericError);
}

#[test]
fn parse_helper_payload_rejects_invalid_json() {
    assert!(parse_helper_payload(b"{bad-json").is_err());
}

#[test]
fn parse_helper_payload_rejects_too_large_payload() {
    let oversized = vec![b'a'; MAX_HELPER_PAYLOAD + 1];
    assert!(parse_helper_payload(&oversized).is_err());
}

#[test]
fn persistence_for_launch_error_records_status_and_error() {
    let input = persistence_for_launch_error(
        "127.0.0.1",
        10_022,
        RuntimeMode::Auto,
        "auto",
        "helper crashed".to_string(),
    );

    assert_eq!(input.port, Some(10_022));
    assert_eq!(input.host, Some("127.0.0.1".to_string()));
    assert_eq!(input.runtime_mode, Some(RuntimeMode::Auto));
    assert_eq!(
        input.last_launch_status,
        Some(HELPER_LAUNCH_FAILED.to_string())
    );
    assert_eq!(input.last_launch_error, Some("helper crashed".to_string()));
    assert_eq!(input.last_launch_strategy, Some("auto".to_string()));
}

#[test]
fn backend_selection_prefers_direct_then_launchd() {
    let auto = backend_selection(RuntimeMode::Auto);
    assert_eq!(auto.len(), 2);
    assert_eq!(auto[0].strategy(), "direct");
    assert_eq!(auto[1].strategy(), "launchd_compatible");

    let direct = backend_selection(RuntimeMode::Direct);
    assert_eq!(direct.len(), 1);
    assert_eq!(direct[0].strategy(), "direct");

    let launchd = backend_selection(RuntimeMode::Launchd);
    assert_eq!(launchd.len(), 1);
    assert_eq!(launchd[0].strategy(), "launchd_compatible");

    let disabled = backend_selection(RuntimeMode::Disabled);
    assert!(disabled.is_empty());
}

#[test]
fn resolve_runtime_mode_auto_prefers_native_on_macos_26() {
    let mut major = None;
    set_macos_major_override_for_tests(&mut major, Some(26));
    let version = configured_macos_major_version(major, &None);
    assert_eq!(
        resolve_runtime_mode(RuntimeMode::Auto, version),
        RuntimeMode::Native
    );
    set_macos_major_override_for_tests(&mut major, None);
    assert_eq!(major, None);
}

#[test]
fn helper_preflight_resolves_auto_to_native_on_macos_26() {
    let mut env = linux();
    set_macos_major_override_for_tests(&mut env.macos_major_version, Some(26));
    let value = helper_preflight_status(&env, RuntimeMode::Auto);

    assert_eq!(value.get("configuredRuntimeMode"), Some(&JsonValue::text("auto")));
    assert_eq!(value.get("resolvedRuntimeMode"), Some(&JsonValue::text("native")));
    assert_eq!(
        value.get("launchStrategies"),
        Some(&JsonValue::Array(vec![JsonValue::text("native_host")]))
    );
}

#[test]
fn helper_preflight_reports_unsupported_platform_off_macos() {
    let value = helper_preflight_status(&linux(), RuntimeMode::Direct);

    assert_eq!(value.get("supported"), Some(&JsonValue::Bool(false)));
    assert_eq!(value.get("status"), Some(&JsonValue::text("unsupported_platform")));
    assert_eq!(
        value.get("error"),
        Some(&JsonValue::text("APW Helper manifest unsupported outside of macOS."))
    );
    assert_eq!(
        value.get("launchStrategies"),
        Some(&JsonValue::Array(vec![JsonValue::text("direct")]))
    );
}

#[test]
fn helper_preflight_failure_message_mentions_current_status() {
    let mut env = linux();
    set_macos_major_override_for_tests(&mut env.macos_major_version, Some(26));
    let message =
        helper_preflight_failure_message(&env, RuntimeMode::Auto, "Helper process is not running.");

    assert!(message.contains("Helper process is not running."));
    assert!(message.contains("daemon.preflight.status="));
}

#[test]
fn parse_helper_payload_fuzz_random_binary_inputs() {
    let mut rng = thread_rng();
    for _ in 0..512 {
        let len = (rng.next_u32() as usize) % (MAX_HELPER_PAYLOAD + 256);
        let mut raw = vec![0_u8; len];
        rng.fill_bytes(&mut raw);

        let parsed = parse_helper_payload(&raw);
        if let Ok(value) = parsed {
            assert!(value.is_object(), "payload should remain object-shaped");
        }
    }
}

#[test]
fn is_absolute_unix_path_validates_absolute_inputs() {
    assert!(is_absolute_unix_path("/bin/bash"));
    assert!(!is_absolute_unix_path("bin/bash"));
    assert!(is_absolute_unix_path("/tmp/../../etc/passwd"));
    assert!(!is_absolute_unix_path("/tmp/bad\0path"));
}

#[test]
fn is_manifest_rejects_malformed_fields() {
    let missing_path = json(
        "{\"name\":\"com.apple.passwordmanager\",\"description\":\"desc\",\"type\":\"stdio\",\
         \"allowed_extensions\":[\"abc\"]}",
    );
    assert!(!is_manifest(&missing_path));

    let wrong_origin = json(
        "{\"name\":\"com.apple.passwordmanager\",\"description\":\"desc\",\"path\":\"/bin/bash\",\
         \"type\":\"stdio\",\"allowedOrigins\":[\"bad\",1]}",
    );
    assert!(!is_manifest(&wrong_origin));

    let empty_strings = json(
        "{\"name\":\"\",\"description\":\"desc\",\"path\":\"/bin/bash\",\"type\":\"stdio\",\
         \"allowed_extensions\":[\"abc\"]}",
    );
    assert!(!is_manifest(&empty_strings));
}

#[test]
fn parse_helper_response_shape_errors_on_missing_payload() {
    let response = json("{\"ok\":true,\"code\":0}");
    let result = parse_helper_response_shape(&response).unwrap_err();
    assert_eq!(result.code, Status::ProtoInvalidResponse);
    assert_eq!(result.message, "Invalid helper payload.");
}

#[test]
fn read_manifest_fails_off_macos() {
    let result = read_manifest(false, &nothing_found());
    assert!(result.is_err());
    assert_eq!(result.unwrap_err().code, Status::GenericError);
}

#[test]
fn parse_helper_response_shape_fuzz_random_binary_shapes() {
    let mut rng = thread_rng();
    for _ in 0..2048 {
        let len = rng.gen_range(0..(MAX_HELPER_PAYLOAD + 256));
        let mut raw = vec![0_u8; len];
        rng.fill(raw.as_mut_slice());

        if let Some(payload) = parse_json(&raw) {
            let _ = parse_helper_response_shape(&payload);
            continue;
        }
        assert!(parse_helper_payload(&raw).is_err());
    }
}

/// Launches helpers as `answer` says: what the probe's frame is answered with, or how the process
/// ended before that.
fn probe(mode: RuntimeMode, answer: fn(HelperBackend) -> Result<Vec<u8>, (Option<i32>, Option<i32>)>) -> HelperLaunchContext {
    let mut probe = LaunchProbe::new(mode);
    loop {
        match probe.next_step() {
            ProbeStep::Finished(context) => return context,
            ProbeStep::Launch(backend) => {
                let (state, readiness) = match answer(backend) {
                    Ok(frame) => (HelperState::Running, probe_helper_readiness(&frame)),
                    Err((code, signal)) => (HelperState::Exited { code, signal }, Ok(())),
                };
                match launch_readiness(state, readiness) {
                    Ok(()) => return probe.succeeded(),
                    Err(error) => {
                        let message = resolve_probe_failure_message(PollEnd::Alive, error.message);
                        probe.note_failure(message);
                    }
                }
            }
        }
    }
}

#[test]
fn probe_helper_launch_succeeds_after_capabilities_probe() {
    let context = probe(RuntimeMode::Direct, |_| {
        Ok(b"{\"ok\":true,\"code\":0,\"payload\":{\"canFillOneTimeCodes\":true}}".to_vec())
    });
    assert_eq!(context.launch_status, HELPER_LAUNCH_OK);
    assert_eq!(context.launch_strategy, "direct");
    assert!(context.launch_error.is_none());
}

#[test]
fn probe_helper_launch_reports_exit_before_probe_reply() {
    let context = probe(RuntimeMode::Direct, |_| Err((Some(0), None)));
    assert_eq!(context.launch_status, HELPER_LAUNCH_FAILED);
    assert_eq!(context.launch_strategy, "direct");
    assert_eq!(
        context.launch_error,
        Some("Helper process exited with code 0.".to_string())
    );
}

#[test]
fn probe_helper_launch_rejects_malformed_probe_payload() {
    let context = probe(RuntimeMode::Direct, |_| Ok(b"not-json".to_vec()));
    assert_eq!(context.launch_status, HELPER_LAUNCH_FAILED);
    assert_eq!(context.launch_strategy, "direct");
    assert_eq!(
        context.launch_error,
        Some("Helper returned invalid JSON.".to_string())
    );
}

#[test]
fn probe_helper_launch_preserves_sigkill_probe_failure_message() {
    let context = probe(RuntimeMode::Direct, |_| Err((None, Some(9))));
    assert_eq!(context.launch_status, HELPER_LAUNCH_FAILED);
    assert_eq!(context.launch_strategy, "direct");
    assert_eq!(
        context.launch_error,
        Some("Helper process was terminated by SIGKILL (Code Signature Constraint Violation). Helper launch requires an approved browser/native host context on this OS and cannot be launched directly from this CLI today.".to_string())
    );
}

#[test]
fn the_ways_to_launch_are_tried_in_their_order() {
    let context = probe(RuntimeMode::Auto, |backend| match backend {
        HelperBackend::Direct => Err((Some(1), None)),
        HelperBackend::LaunchdCompatible => Ok(b"{}".to_vec()),
    });
    assert_eq!(context.launch_strategy, "launchd_compatible");
    assert_eq!(context.launch_status, HELPER_LAUNCH_OK);

    let failed = probe(RuntimeMode::Auto, |backend| match backend {
        HelperBackend::Direct => Err((Some(1), None)),
        HelperBackend::LaunchdCompatible => Err((None, None)),
    });
    assert_eq!(failed.launch_strategy, "launchd_compatible");
    assert_eq!(failed.launch_error, Some("Helper process is not running.".to_string()));

    let none = probe(RuntimeMode::Browser, |_| Ok(Vec::new()));
    assert_eq!(none.launch_strategy, "failed");
    assert_eq!(none.launch_error, Some("No launch backend available.".to_string()));

    let disabled = probe(RuntimeMode::Disabled, |_| Ok(Vec::new()));
    assert_eq!(disabled.launch_strategy, HELPER_LAUNCH_DISABLED);
    assert_eq!(disabled.launch_status, HELPER_LAUNCH_DISABLED);
    assert_eq!(
        disabled.launch_error,
        Some("Runtime mode disabled launch checks.".to_string())
    );
}

#[test]
fn a_probe_answer_has_to_hold_an_object() {
    assert!(probe_helper_readiness(b"{\"ok\":true,\"payload\":{}}").is_ok());
    let error = probe_helper_readiness(b"{\"ok\":true,\"payload\":1}").unwrap_err();
    assert_eq!(error.message, "Invalid helper capabilities payload.");
    let error = probe_helper_readiness(b"{\"ok\":false,\"code\":9}").unwrap_err();
    assert_eq!(error.code, Status::InvalidSession);
}

#[test]
fn a_frame_announces_the_length_of_its_payload() {
    let payload = vec![7_u8; 300];
    let frame = encode_frame(FramePeer::Helper, &payload).unwrap();
    assert_eq!(&frame[..4], &[44, 1, 0, 0]);
    assert_eq!(&frame[4..], payload.as_slice());
    let header = [frame[0], frame[1], frame[2], frame[3]];
    assert_eq!(frame_length(FramePeer::Helper, header).unwrap(), 300);

    let largest = vec![0_u8; MAX_HELPER_PAYLOAD];
    let frame = encode_frame(FramePeer::NativeHost, &largest).unwrap();
    let header = [frame[0], frame[1], frame[2], frame[3]];
    assert_eq!(
        frame_length(FramePeer::NativeHost, header).unwrap(),
        MAX_HELPER_PAYLOAD
    );
}

#[test]
fn frames_of_no_or_too_many_bytes_are_refused() {
    let oversized = vec![0_u8; MAX_HELPER_PAYLOAD + 1];
    let error = encode_frame(FramePeer::Helper, &oversized).unwrap_err();
    assert_eq!(error.code, Status::InvalidParam);
    assert_eq!(error.message, "Outgoing payload exceeds max size.");
    let error = encode_frame(FramePeer::NativeHost, &oversized).unwrap_err();
    assert_eq!(error.message, "Outgoing native host payload exceeds max size.");
    let error = frame_length(FramePeer::Helper, [0, 0, 0, 0]).unwrap_err();
    assert_eq!(error.code, Status::ProtoInvalidResponse);
    assert_eq!(error.message, "Invalid helper frame size.");
    let error = frame_length(FramePeer::NativeHost, [1, 64, 0, 0]).unwrap_err();
    assert_eq!(error.message, "Invalid native host frame size.");
    assert!(frame_length(FramePeer::Helper, [255, 255, 255, 255]).is_err());
}

#[test]
fn a_broken_pipe_means_that_the_helper_is_gone() {
    assert_eq!(
        map_helper_io_error(HelperIoFailure::BrokenPipe),
        Some(Status::ProcessNotRunning)
    );
    assert_eq!(map_helper_io_error(HelperIoFailure::Other), None);
    let gone = helper_write_failure(HelperIoFailure::UnexpectedEof, "eof");
    assert_eq!(gone.code, Status::ProcessNotRunning);
    assert_eq!(gone.message, "Helper process is not running.");
    let write = helper_write_failure(HelperIoFailure::Other, "full");
    assert_eq!(write.code, Status::GenericError);
    assert_eq!(write.message, "Failed writing to helper process: full");
    let read = helper_read_failure(HelperIoFailure::Other, "odd");
    assert_eq!(read.code, Status::ProtoInvalidResponse);
    assert_eq!(read.message, "Failed reading helper response: odd");
    assert_eq!(
        helper_read_failure(HelperIoFailure::BrokenPipe, "x").code,
        Status::ProcessNotRunning
    );
}

#[test]
fn the_end_of_the_helper_is_told() {
    assert_eq!(
        helper_termination_message(Some(-3), Some(9)),
        "Helper process exited with code -3."
    );
    assert_eq!(
        helper_termination_message(None, Some(15)),
        "Helper process terminated by signal 15."
    );
    assert_eq!(
        helper_termination_message(None, None),
        "Helper process is not running."
    );
}

#[test]
fn the_helper_is_looked_at_a_limited_number_of_times() {
    let mut retries = 0_u8;
    let mut looks = 1;
    let end = loop {
        match poll_helper(retries, HelperState::Running) {
            PollStep::Again(next) => {
                assert_eq!(next, retries + 1);
                retries = next;
                looks += 1;
            }
            PollStep::End(end) => break end,
        }
    };
    assert_eq!(looks, PROCESS_STATUS_RETRY_LIMIT as i32);
    assert!(ensure_helper_stays_alive(end).is_ok());

    let gone = poll_helper(3, HelperState::Exited { code: Some(1), signal: None });
    match gone {
        PollStep::End(PollEnd::Gone(message)) => {
            assert_eq!(message, "Helper process exited with code 1.");
            let error = ensure_helper_stays_alive(PollEnd::Gone(message)).unwrap_err();
            assert_eq!(error.code, Status::ProcessNotRunning);
        }
        _ => panic!("the helper has ended"),
    }
    match poll_helper(0, HelperState::CheckFailed("denied".to_string())) {
        PollStep::End(end) => assert_eq!(
            resolve_probe_failure_message(end, "fallback".to_string()),
            "Helper process check failed: denied"
        ),
        _ => panic!("the check has failed"),
    }
}

#[test]
fn the_helper_is_launched_for_the_user() {
    let env = Some(" 501\n".to_string());
    let reported = Some("20\n".to_string());
    assert_eq!(resolve_uid(&env, &reported), Some(501));
    assert_eq!(resolve_uid(&Some("root".to_string()), &reported), Some(20));
    assert_eq!(resolve_uid(&None, &None), None);
    assert_eq!(
        launch_command(HelperBackend::LaunchdCompatible, "/opt/helper", Some(501)),
        vec!["/bin/launchctl", "asuser", "501", "/opt/helper", "."]
    );
    assert_eq!(
        launch_command(HelperBackend::LaunchdCompatible, "/opt/helper", None),
        vec!["/opt/helper", "."]
    );
    assert_eq!(
        launch_command(HelperBackend::Direct, "/opt/helper", Some(501)),
        vec!["/opt/helper", "."]
    );
}

#[test]
fn start_daemon_routes_requests_end_to_end() {
    // The request goes to the helper in a frame; its answer goes to the client in an envelope.
    let request = capabilities_probe_message().to_text();
    assert!(check_request_size(request.len()).is_none());
    let frame = encode_frame(FramePeer::Helper, &request).unwrap();
    assert_eq!(&frame[4..], request.as_slice());
    let helper = b"{\"ok\":true,\"code\":0,\"payload\":{\"status\":\"ok\"}}";
    let response = json(
        &String::from_utf8(encode_answer(&answer_client(read_helper_frame(helper)))).unwrap(),
    );
    assert_eq!(at(&response, &["ok"]), JsonValue::Bool(true));
    assert_eq!(at(&response, &["code"]), JsonValue::integer(0));
    assert_eq!(at(&response, &["payload", "status"]), JsonValue::text("ok"));
}

#[test]
fn start_daemon_persists_process_not_running_after_helper_exit() {
    let failure = helper_read_failure(HelperIoFailure::UnexpectedEof, "eof");
    let state = HelperState::Exited { code: Some(0), signal: None };
    let error = match map_request_failure(failure, &state) {
        FailureStep::Report(error) => error,
        FailureStep::Resolve(_) => panic!("the helper has ended"),
    };
    let input =
        record_request_failure("127.0.0.1", 10_044, RuntimeMode::Direct, "direct", &error).unwrap();
    let response =
        json(&String::from_utf8(encode_answer(&answer_client(Err(error)))).unwrap());
    assert_eq!(at(&response, &["ok"]), JsonValue::Bool(false));
    assert_eq!(at(&response, &["code"]), JsonValue::integer(103));
    assert_eq!(
        at(&response, &["error"]),
        JsonValue::text("Helper process exited with code 0.")
    );
    let persisted = write_config(None, input, false, "2026-03-08T00:00:00Z").result.unwrap();
    assert_eq!(persisted.last_launch_status.as_deref(), Some("failed"));
    assert_eq!(
        persisted.last_launch_error.as_deref(),
        Some("Helper process exited with code 0.")
    );
    assert_eq!(persisted.last_launch_strategy.as_deref(), Some("direct"));
}

#[test]
fn start_daemon_dry_run_failure_preserves_existing_session_state() {
    let seeded = write_config(
        None,
        WriteConfigInput {
            username: Some("alice".to_string()),
            shared_key: Some(apw::bignum::BigUint::from_byte(1)),
            port: Some(10_012),
            host: Some("127.0.0.1".to_string()),
            allow_empty: false,
            ..WriteConfigInput::default()
        },
        false,
        "2026-03-08T00:00:00Z",
    )
    .result
    .unwrap();
    let context = probe(RuntimeMode::Direct, |_| Err((Some(0), None)));
    let conclusion =
        conclude_launch(&linux(), "127.0.0.1", 10_000, RuntimeMode::Direct, true, &context);
    let error = conclusion.serves.unwrap_err();
    assert_eq!(error.code, Status::ProcessNotRunning);
    assert!(error.message.contains("daemon.preflight.status="));

    let config = write_config(
        Some(seeded),
        conclusion.record.unwrap(),
        false,
        "2026-03-08T00:00:01Z",
    )
    .result
    .unwrap();
    assert_eq!(config.last_launch_status.as_deref(), Some(HELPER_LAUNCH_FAILED));
    assert_eq!(config.username, "alice");
    assert_eq!(config.shared_key, "AQ==");
    assert_eq!(config.last_launch_strategy.as_deref(), Some("direct"));
}

#[test]
fn a_launch_concludes_in_service_only_off_a_dry_run() {
    let worked = probe(RuntimeMode::Direct, |_| Ok(b"{}".to_vec()));
    let live = conclude_launch(&linux(), "h", 1, RuntimeMode::Direct, false, &worked);
    assert!(live.record.is_none());
    assert_eq!(live.serves.unwrap(), true);
    let dry = conclude_launch(&linux(), "h", 1, RuntimeMode::Direct, true, &worked);
    assert!(dry.record.is_some());
    assert_eq!(dry.serves.unwrap(), false);
    let unknown = HelperLaunchContext {
        launch_strategy: String::new(),
        launch_status: "failed".to_string(),
        launch_error: None,
    };
    let failed = conclude_launch(&linux(), "h", 1, RuntimeMode::Direct, false, &unknown);
    assert!(failed.record.is_some());
    assert!(failed
        .serves
        .unwrap_err()
        .message
        .starts_with("Helper process is not running. "));
    let default = HelperLaunchContext::default();
    assert_eq!(default.launch_status, "failed");
    assert_eq!(
        default.launch_error.as_deref(),
        Some("Helper launch metadata is not configured.")
    );
}

#[test]
fn what_is_written_says_whether_the_session_goes() {
    let worked = probe(RuntimeMode::Direct, |_| Ok(b"{}".to_vec()));
    let launch = persistence_for_launch("127.0.0.1", 10_001, &worked, RuntimeMode::Direct).unwrap();
    assert!(!launch.clear_auth && launch.allow_empty && launch.reset_bridge_metadata);
    assert_eq!(launch.last_launch_status.as_deref(), Some("ok"));
    let service = persistence_for_service("127.0.0.1", 10_001, &worked, RuntimeMode::Direct);
    assert!(service.clear_auth && !service.refresh_created_at);
    let native = persist_native_waiting("127.0.0.1", 10_000, RuntimeMode::Native);
    assert!(native.clear_auth && native.reset_launch_metadata);
    assert_eq!(native.bridge_status.as_deref(), Some("waiting"));
    assert_eq!(native.bridge_browser.as_deref(), Some("native"));
    assert!(persist_browser_waiting("h", 1, RuntimeMode::Browser, false).clear_auth);
    let dry = persist_browser_waiting("h", 1, RuntimeMode::Browser, true);
    assert!(!dry.clear_auth && dry.bridge_browser.is_none());
}

#[test]
fn the_service_forgets_the_session_on_record() {
    let seeded = write_config(
        None,
        WriteConfigInput {
            username: Some("alice".to_string()),
            shared_key: Some(apw::bignum::BigUint::from_byte(1)),
            ..WriteConfigInput::default()
        },
        false,
        "2026-03-08T00:00:00Z",
    )
    .result
    .unwrap();
    let input = persist_native_waiting("127.0.0.1", 10_000, RuntimeMode::Native);
    let config = write_config(Some(seeded), input, false, "2026-03-08T00:00:01Z").result.unwrap();
    assert_eq!(config.username, "");
    assert_eq!(config.shared_key, "");
    assert_eq!(config.runtime_mode, RuntimeMode::Native);
}

#[test]
fn the_daemon_starts_as_its_mode_says() {
    match start_daemon(&linux(), daemon(RuntimeMode::Browser, 0, true)).unwrap() {
        StartPlan::Browser { host, port, dry_run } => {
            assert_eq!(host, "127.0.0.1");
            assert_eq!(port, 0);
            assert!(dry_run);
        }
        _ => panic!("a browser is served"),
    }
    match start_daemon(&macos(26), daemon(RuntimeMode::Auto, 0, false)).unwrap() {
        StartPlan::Native { port, .. } => assert_eq!(port, 10_000),
        _ => panic!("the native host is served"),
    }
    match start_daemon(&macos(15), daemon(RuntimeMode::Auto, 0, false)).unwrap() {
        StartPlan::Helper { port, recorded_port, mode, manifest, .. } => {
            assert_eq!(port, 0);
            assert_eq!(recorded_port, 10_000);
            assert_eq!(mode, RuntimeMode::Auto);
            assert_eq!(manifest.path, "/opt/helper");
            assert_eq!(manifest.allowed_origins, vec!["origin"]);
        }
        _ => panic!("a helper is launched"),
    }
    let blank = DaemonOptions { host: " ".to_string(), ..daemon(RuntimeMode::Browser, 7, false) };
    match plan_start(&linux(), blank, None).unwrap() {
        StartPlan::Browser { host, port, .. } => {
            assert_eq!(host, "127.0.0.1");
            assert_eq!(port, 7);
        }
        _ => panic!("a browser is served"),
    }
    let standard = DaemonOptions::default();
    assert_eq!(standard.port, 0);
    assert_eq!(standard.host, "127.0.0.1");
    assert_eq!(standard.runtime_mode, RuntimeMode::Auto);
    assert!(!standard.dry_run);
}

#[test]
fn a_start_that_fails_says_what_to_do() {
    let error = start_daemon(&linux(), daemon(RuntimeMode::Direct, 0, false)).unwrap_err();
    assert_eq!(error.code, Status::GenericError);
    assert_eq!(
        error.message,
        "APW Helper manifest unsupported outside of macOS. APW is supported only on macOS. Current platform: linux/x86_64. Current `daemon.preflight.status=unsupported_platform`."
    );
    let error = start_daemon(&linux(), daemon(RuntimeMode::Native, 0, false)).unwrap_err();
    assert_eq!(error.code, Status::ProcessNotRunning);
    assert!(error.message.starts_with("APW native host is supported only on macOS. "));
    let mut unready = macos(26);
    unready.host.launch_agent_loaded = false;
    let error = start_daemon(&unready, daemon(RuntimeMode::Auto, 0, false)).unwrap_err();
    assert!(error.message.starts_with("APW native host is not installed or not ready. "));
    assert!(error.message.contains("launch_agent_unloaded"));
    let error = plan_start(&linux(), daemon(RuntimeMode::Direct, 0, false), None).unwrap_err();
    assert_eq!(error.code, Status::InvalidConfig);
    assert_eq!(
        error.message,
        "Missing helper manifest for non-browser runtime mode."
    );
    assert!(plan_start(&linux(), daemon(RuntimeMode::Launchd, 9, false), Some(manifest())).is_ok());
    assert!(native_attach_failure(&macos(26))
        .message
        .starts_with("APW native host did not attach before startup timed out. "));
}

#[test]
fn guidance_is_given_where_it_helps() {
    let plain = explain_start_failure(
        &linux(),
        RuntimeMode::Direct,
        APWError::new(Status::GenericError, "Failed to bind UDP socket: in use"),
    );
    assert_eq!(plain.message, "Failed to bind UDP socket: in use");
    let explained = explain_start_failure(
        &linux(),
        RuntimeMode::Direct,
        APWError::new(Status::GenericError, "the helper is odd"),
    );
    assert!(explained.message.starts_with("the helper is odd APW is supported"));
    let timeout = explain_start_failure(
        &linux(),
        RuntimeMode::Direct,
        APWError::new(Status::CommunicationTimeout, "late"),
    );
    assert!(timeout.message.ends_with("`daemon.preflight.status=unsupported_platform`."));
}

#[test]
fn a_request_that_is_too_long_is_refused() {
    let error = check_request_size(MAX_HELPER_PAYLOAD + 1).unwrap();
    assert_eq!(error.code, Status::InvalidParam);
    assert_eq!(error.message, "Request too large.");
    assert!(check_request_size(MAX_HELPER_PAYLOAD).is_none());
}

#[test]
fn the_client_reads_what_the_daemon_answers() {
    let payload = json("{\"PAKE\":\"AQ==\"}");
    let read = decode_response(&encode_answer(&answer_client(Ok(payload.copy())))).unwrap();
    assert_eq!(read, payload);
    for code in [1, 2, 3, 9, 100, 101, 102, 103, 104] {
        let status = Status::of_code(code).unwrap();
        let outcome = Err(APWError::new(status, "reason"));
        let error = decode_response(&encode_answer(&answer_client(outcome))).unwrap_err();
        assert_eq!(error.code, status);
        assert_eq!(error.message, "reason");
    }
    let silent = response_envelope(Status::NoResults, None, None);
    assert_eq!(silent.error.as_deref(), Some("No results found"));
}

#[test]
fn a_failed_request_is_mapped_by_the_state_of_the_helper() {
    let error = || APWError::new(Status::ProcessNotRunning, "gone");
    match map_request_failure(error(), &HelperState::Running) {
        FailureStep::Resolve(message) => assert_eq!(message, "gone"),
        _ => panic!("the process is to be looked at"),
    }
    match map_request_failure(error(), &HelperState::CheckFailed("x".to_string())) {
        FailureStep::Report(error) => assert_eq!(error.message, "gone"),
        _ => panic!("the error stands"),
    }
    let timeout = APWError::new(Status::CommunicationTimeout, "Command output timeout.");
    match map_request_failure(timeout, &HelperState::Running) {
        FailureStep::Report(error) => {
            assert_eq!(error.code, Status::CommunicationTimeout);
            assert!(record_request_failure("h", 1, RuntimeMode::Auto, "direct", &error).is_none());
        }
        _ => panic!("the error stands"),
    }
}

#[test]
fn manifests_are_inspected_step_by_step() {
    let word = |finding: &ManifestFinding| inspect_manifest_preflight(finding).1.word();
    assert_eq!(word(&nothing_found()), "manifest_missing");
    let found = |content: Option<&str>, executable: bool| ManifestFinding {
        path: Some(FIREFOX.to_string()),
        content: content.map(str::to_string),
        binary_executable: executable,
    };
    assert_eq!(word(&found(None, true)), "manifest_invalid");
    assert_eq!(word(&found(Some("{"), true)), "manifest_invalid");
    assert_eq!(word(&found(Some("{}"), true)), "manifest_invalid");
    let relative = manifest_text().replace("/opt/helper", "opt/helper");
    assert_eq!(word(&found(Some(&relative), true)), "manifest_invalid");
    let climbing = manifest_text().replace("/opt/helper", "/opt/../helper");
    assert_eq!(word(&found(Some(&climbing), true)), "manifest_invalid");
    assert_eq!(word(&found(Some(&manifest_text()), false)), "binary_not_executable");
    assert_eq!(word(&found(Some(&manifest_text()), true)), "ready");

    let error = read_manifest(true, &found(Some(&manifest_text()), false)).unwrap_err();
    assert_eq!(error.code, Status::ProcessNotRunning);
    let elsewhere = ManifestFinding {
        path: Some("/srv/helper.json".to_string()),
        ..found(Some(&manifest_text()), true)
    };
    let error = read_manifest(true, &elsewhere).unwrap_err();
    assert_eq!(error.message, "Unexpected helper binary path.");
}

#[test]
fn the_version_is_read_from_the_machine_unless_it_is_set() {
    let reported = Some("26.1.2\n".to_string());
    assert_eq!(current_macos_major_version(None, true, &reported), Some(26));
    assert_eq!(current_macos_major_version(None, false, &reported), None);
    assert_eq!(current_macos_major_version(Some(14), true, &reported), Some(14));
    assert_eq!(
        configured_macos_major_version(None, &Some(" 15 ".to_string())),
        Some(15)
    );
    assert_eq!(configured_macos_major_version(None, &Some("x".to_string())), None);
    assert_eq!(resolve_runtime_mode(RuntimeMode::Auto, Some(25)), RuntimeMode::Auto);
    assert_eq!(resolve_runtime_mode(RuntimeMode::Direct, Some(26)), RuntimeMode::Direct);
    assert_eq!(launch_strategy_labels(RuntimeMode::Browser), vec!["browser_bridge"]);
    assert!(launch_strategy_labels(RuntimeMode::Disabled).is_empty());
}

#[test]
fn the_binary_is_named_by_a_well_formed_manifest_alone() {
    assert_eq!(
        manifest_binary(&Some(manifest_text())),
        Some("/opt/helper".to_string())
    );
    assert_eq!(manifest_binary(&Some("{\"path\": \"/opt/helper\"}".to_string())), None);
    assert_eq!(manifest_binary(&Some("{".to_string())), None);
    assert_eq!(manifest_binary(&None), None);
}

#[test]
fn the_native_host_has_to_run_as_the_same_user() {
    assert!(verify_native_host_peer(501, 501).is_ok());
    let error = verify_native_host_peer(0, 501).unwrap_err();
    assert_eq!(error.code, Status::ProcessNotRunning);
    assert_eq!(error.message, "Native host peer UID mismatch.");
}

#[test]
fn an_answer_is_printed_in_the_order_of_its_members() {
    let text = |outcome| String::from_utf8(encode_answer(&answer_client(outcome))).unwrap();
    assert_eq!(
        text(Ok(json("{\"status\":\"ok\",\"at\":\"\u{e9}\"}"))),
        "{\"ok\":true,\"code\":0,\"payload\":{\"at\":\"\u{e9}\",\"status\":\"ok\"}}"
    );
    assert_eq!(
        text(Err(APWError::new(Status::InvalidParam, "no"))),
        "{\"ok\":false,\"code\":2,\"error\":\"no\"}"
    );
}
