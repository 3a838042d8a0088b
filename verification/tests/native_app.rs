use apw::json::{parse_json, to_json, JsonValue};
use apw::native_app::{
    build_request, check_direct, connect_step, default_credentials_payload, direct_arguments,
    ensure_default_credentials_file, ensure_runtime_dir, native_app_bundle_install_path,
    native_app_credentials_path, native_app_doctor, native_app_executable_in_bundle,
    native_app_install, native_app_install_dir, native_app_installed_report, native_app_launch,
    native_app_launched_report, native_app_login, native_app_prepare, native_app_runtime_dir,
    native_app_socket_path, native_app_status, native_app_status_path, packaged_app_candidates,
    packages_beside, parse_response, read_direct_response, read_socket_response,
    uuid_like_suffix, AppEnvironment, AppStep, CONNECT_RETRIES, ConnectStep, MAX_BROKER_BYTES,
};
use apw::types::Status;

fn json(text: &str) -> JsonValue {
    parse_json(text.as_bytes()).expect("JSON")
}

fn at(value: &JsonValue, path: &[&str]) -> JsonValue {
    path.iter()
        .fold(value.copy(), |inner, key| inner.get_or_null(key))
}

fn bare() -> AppEnvironment {
    AppEnvironment {
        home: "/home/alice".to_string(),
        bundle_exists: false,
        executable_exists: false,
        bundle_info: None,
        socket_running: false,
        status_file: None,
        live_status: None,
    }
}

#[test]
fn doctor_creates_default_credentials_file() {
    let payload = native_app_doctor(&bare());
    assert_eq!(
        at(&payload, &["frameworks", "authenticationServicesLinked"]),
        JsonValue::Bool(true)
    );
    assert_eq!(
        native_app_credentials_path("/home/alice"),
        "/home/alice/.apw/native-app/credentials.json"
    );
    assert_eq!(
        default_credentials_payload().get("domains"),
        Some(&JsonValue::Array(vec![JsonValue::text("example.com")]))
    );
}

#[test]
fn status_reports_uninstalled_bundle_by_default() {
    let payload = native_app_status(&bare());
    assert_eq!(at(&payload, &["installed"]), JsonValue::Bool(false));
    assert_eq!(at(&payload, &["service", "running"]), JsonValue::Bool(false));
}

#[test]
fn doctor_bootstraps_runtime_without_installed_bundle() {
    let payload = native_app_doctor(&bare());
    assert_eq!(at(&payload, &["installed"]), JsonValue::Bool(false));
    assert_eq!(at(&payload, &["releaseLine", "target"]), JsonValue::text("v2.0.0"));
    assert_eq!(at(&payload, &["releaseLine", "version"]), JsonValue::text("2.0.0"));
}

#[test]
fn direct_fallback_maps_malformed_response_to_proto_invalid_response() {
    let error = read_direct_response(b"not-json").unwrap_err();
    assert_eq!(error.code, Status::ProtoInvalidResponse);
    assert!(error
        .message
        .starts_with("Native app direct response is not valid JSON: expected ident"));
}

#[test]
fn answers_of_the_app_come_to_results() {
    let payload = json("{\"ok\":true,\"code\":0,\"payload\":{\"status\":\"approved\"}}");
    assert_eq!(
        at(&parse_response(&payload).unwrap(), &["status"]),
        JsonValue::text("approved")
    );
    let denied = parse_response(&json("{\"ok\":false,\"code\":9,\"error\":\"Denied.\"}")).unwrap_err();
    assert_eq!(denied.code, Status::InvalidSession);
    assert_eq!(denied.message, "Denied.");
    let silent = parse_response(&json("{\"ok\":false}")).unwrap_err();
    assert_eq!(silent.code, Status::GenericError);
    assert_eq!(silent.message, "Native app request failed.");
    let missing = parse_response(&json("{\"ok\":true}")).unwrap_err();
    assert_eq!(missing.message, "Native app response is missing its payload.");
    for malformed in ["{}", "{\"ok\":1}", "[]", "7"] {
        let error = parse_response(&json(malformed)).unwrap_err();
        assert_eq!(error.code, Status::ProtoInvalidResponse);
        assert_eq!(
            error.message,
            "Native app returned a malformed response envelope."
        );
    }
}

#[test]
fn answers_that_are_too_long_are_refused() {
    let long = vec![b' '; MAX_BROKER_BYTES + 1];
    assert_eq!(
        read_socket_response(&long).unwrap_err().message,
        "Native app response payload too large."
    );
    assert_eq!(
        read_direct_response(&long).unwrap_err().message,
        "Native app direct response payload too large."
    );
    assert!(read_socket_response(b"{")
        .unwrap_err()
        .message
        .starts_with("Native app returned invalid JSON: "));
}

#[test]
fn requests_carry_an_id_a_command_and_a_payload() {
    let bytes = build_request("abc", "login", json("{\"url\":\"https://example.com\"}")).unwrap();
    let request = parse_json(&bytes).unwrap();
    assert_eq!(at(&request, &["requestId"]), JsonValue::text("req-abc"));
    assert_eq!(at(&request, &["command"]), JsonValue::text("login"));
    assert_eq!(
        at(&request, &["payload", "url"]),
        JsonValue::text("https://example.com")
    );
    let long = JsonValue::text(&"x".repeat(MAX_BROKER_BYTES));
    assert_eq!(
        build_request("abc", "login", long).unwrap_err().message,
        "Native app request payload too large."
    );
    let suffix = uuid_like_suffix();
    assert_eq!(suffix.len(), 32);
    assert!(suffix.chars().all(|c| c.is_ascii_hexdigit()));
    assert!(suffix != uuid_like_suffix());
}

#[test]
fn the_executable_is_asked_where_the_socket_does_not_answer() {
    assert_eq!(connect_step(true, 0), ConnectStep::Connect);
    assert_eq!(connect_step(true, CONNECT_RETRIES - 1), ConnectStep::Connect);
    assert_eq!(connect_step(true, CONNECT_RETRIES), ConnectStep::Direct);
    assert_eq!(connect_step(false, 0), ConnectStep::Direct);
    assert!(check_direct(true).is_ok());
    let error = check_direct(false).unwrap_err();
    assert_eq!(error.code, Status::ProcessNotRunning);
    assert_eq!(
        error.message,
        "APW app service is not running. Run `apw app install` first."
    );
    let (command, payload) = native_app_login("https://example.com");
    assert_eq!(command, "login");
    let (request, name, bytes) = direct_arguments(&command, &payload);
    assert_eq!((request.as_str(), name.as_str()), ("request", "login"));
    assert_eq!(bytes, b"{\"url\":\"https://example.com\"}");
}

#[test]
fn a_launch_needs_an_installed_app() {
    let mut env = bare();
    let error = native_app_launch(&env).unwrap_err();
    assert_eq!(
        error.message,
        "APW app bundle is not installed. Run `apw app install` first."
    );
    env.bundle_exists = true;
    let error = native_app_launch(&env).unwrap_err();
    assert!(error.message.starts_with("APW app executable is missing from the installed bundle: "));
    env.executable_exists = true;
    assert!(native_app_launch(&env).unwrap().is_none());
    env.socket_running = true;
    let report = native_app_launch(&env).unwrap().unwrap();
    assert_eq!(at(&report, &["status"]), JsonValue::text("running"));
    let started = native_app_launched_report("/home/alice", false);
    assert_eq!(at(&started, &["status"]), JsonValue::text("starting"));
    let launched = native_app_launched_report("/home/alice", true);
    assert_eq!(at(&launched, &["status"]), JsonValue::text("launched"));
    assert_eq!(
        at(&launched, &["stderrLog"]),
        JsonValue::text("/home/alice/.apw/native-app/app.stderr.log")
    );
}

#[test]
fn the_files_of_the_app_hang_below_the_home_directory() {
    let home = "/home/alice";
    assert_eq!(native_app_runtime_dir(home), "/home/alice/.apw/native-app");
    assert_eq!(native_app_socket_path(home), "/home/alice/.apw/native-app/broker.sock");
    assert_eq!(native_app_status_path(home), "/home/alice/.apw/native-app/status.json");
    assert_eq!(native_app_install_dir(home), "/home/alice/.apw/native-app/installed");
    let bundle = native_app_bundle_install_path(home);
    assert_eq!(bundle, "/home/alice/.apw/native-app/installed/APW.app");
    assert_eq!(
        native_app_executable_in_bundle(&bundle),
        "/home/alice/.apw/native-app/installed/APW.app/Contents/MacOS/APW"
    );
}

#[test]
fn an_installation_is_reported_with_its_version() {
    let mut env = bare();
    env.bundle_exists = true;
    env.bundle_info = Some(
        "<key>CFBundleShortVersionString</key>\n<string> 2.0.0 </string>".to_string(),
    );
    let report = native_app_installed_report(&env);
    assert_eq!(at(&report, &["status"]), JsonValue::text("installed"));
    assert_eq!(at(&report, &["version"]), JsonValue::text("2.0.0"));
    assert_eq!(at(&report, &["doctor", "installed"]), JsonValue::Bool(true));
}

#[test]
fn the_app_is_installed_step_by_step() {
    let line = |step: &AppStep| match step {
        AppStep::EnsureApwDir(path, mode) => format!("apw {path} {mode:o}"),
        AppStep::EnsureRuntimeDir(path, mode) => format!("runtime {path} {mode:o}"),
        AppStep::EnsureCredentials(path, _, mode) => format!("credentials {path} {mode:o}"),
        AppStep::FindPackage => "find".to_string(),
        AppStep::EnsureInstallDir(path, mode) => format!("install {path} {mode:o}"),
        AppStep::ReplaceBundle(path, mode) => format!("replace {path} {mode:o}"),
    };
    let before = [
        "apw /home/alice/.apw 700",
        "runtime /home/alice/.apw/native-app 700",
        "credentials /home/alice/.apw/native-app/credentials.json 600",
    ];
    let dirs: Vec<String> = ensure_runtime_dir("/home/alice").iter().map(line).collect();
    assert_eq!(dirs, before[..2]);
    let prepared: Vec<String> = native_app_prepare("/home/alice").iter().map(line).collect();
    assert_eq!(prepared, before);
    let steps: Vec<String> = native_app_install("/home/alice").iter().map(line).collect();
    assert_eq!(
        steps,
        [
            before[0],
            before[1],
            before[2],
            "find",
            "install /home/alice/.apw/native-app/installed 700",
            "replace /home/alice/.apw/native-app/installed/APW.app 755",
            before[2],
            before[0],
            before[1],
            before[2],
        ]
    );
}

#[test]
fn the_bootstrap_credentials_are_laid_out_over_lines() {
    let AppStep::EnsureCredentials(_, content, _) = ensure_default_credentials_file("/home/alice")
    else {
        panic!("another step");
    };
    let read = parse_json(&content).unwrap();
    assert_eq!(to_json(&read), to_json(&default_credentials_payload()));
    let text = String::from_utf8(content).unwrap();
    assert!(text.starts_with("{\n  \""));
    assert!(text.contains("\n  \"demo\": true"));
    assert!(text.ends_with("\n}"));
}

#[test]
fn the_packaged_app_is_looked_for_beside_the_executable_at_last() {
    let beside = packages_beside("/opt/bin");
    assert_eq!(
        beside,
        ["/opt/bin/../libexec/APW.app", "/opt/bin/../../native-app/dist/APW.app"]
    );
    assert_eq!(
        packaged_app_candidates("/work", vec!["/opt/libexec/APW.app".to_string()]),
        [
            "/work/native-app/dist/APW.app",
            "/work/../native-app/dist/APW.app",
            "/work/../../native-app/dist/APW.app",
            "/opt/libexec/APW.app",
        ]
    );
}

fn installed() -> AppEnvironment {
    AppEnvironment {
        bundle_exists: true,
        executable_exists: true,
        bundle_info: Some(
            "<key>CFBundleShortVersionString</key>\n  <string>2.0.0</string>".to_string(),
        ),
        ..bare()
    }
}

const APPROVED: &str = "{\"ok\":true,\"code\":0,\"payload\":{\"status\":\"approved\",\
    \"url\":\"https://example.com\",\"domain\":\"example.com\",\
    \"username\":\"demo@example.com\",\"password\":\"apw-demo-password\",\
    \"transport\":\"TRANSPORT\",\"userMediated\":true},\"requestId\":\"oneshot\"}";

#[test]
fn app_install_copies_packaged_bundle_and_updates_status() {
    let steps = native_app_install("/home/alice");
    let bundle = native_app_bundle_install_path("/home/alice");
    assert!(steps
        .iter()
        .any(|step| matches!(step, AppStep::ReplaceBundle(path, 0o755) if *path == bundle)));
    assert_eq!(
        native_app_executable_in_bundle(&bundle),
        "/home/alice/.apw/native-app/installed/APW.app/Contents/MacOS/APW"
    );

    let payload = native_app_installed_report(&installed());
    assert_eq!(at(&payload, &["status"]), JsonValue::text("installed"));
    assert_eq!(at(&payload, &["version"]), JsonValue::text("2.0.0"));
    assert_eq!(at(&payload, &["doctor", "installed"]), JsonValue::Bool(true));

    let status = native_app_status(&installed());
    assert_eq!(at(&status, &["installed"]), JsonValue::Bool(true));
    assert_eq!(at(&status, &["bundleVersion"]), JsonValue::text("2.0.0"));
    assert_eq!(at(&status, &["service", "running"]), JsonValue::Bool(false));
}

#[test]
fn launch_status_and_login_work_over_socket() {
    for running in [true, false] {
        let launched = native_app_launched_report("/home/alice", running);
        let status = at(&launched, &["status"]);
        assert!(status == JsonValue::text("launched") || status == JsonValue::text("starting"));
    }

    assert_eq!(connect_step(true, 0), ConnectStep::Connect);
    let live = read_socket_response(
        b"{\"ok\":true,\"code\":0,\"payload\":{\"serviceStatus\":\"running\",\"transport\":\"unix_socket\"}}",
    )
    .unwrap();
    let env = AppEnvironment {
        socket_running: true,
        live_status: Some(live),
        ..installed()
    };
    let status = native_app_status(&env);
    assert_eq!(at(&status, &["service", "running"]), JsonValue::Bool(true));
    assert_eq!(
        at(&status, &["service", "live", "serviceStatus"]),
        JsonValue::text("running")
    );
    assert_eq!(
        at(&status, &["service", "live", "transport"]),
        JsonValue::text("unix_socket")
    );

    let (command, payload) = native_app_login("https://example.com");
    let request = json(
        &String::from_utf8(build_request("1", &command, payload).unwrap()).unwrap(),
    );
    assert_eq!(at(&request, &["command"]), JsonValue::text("login"));
    assert_eq!(at(&request, &["payload", "url"]), JsonValue::text("https://example.com"));
    let answer = APPROVED.replace("TRANSPORT", "unix_socket");
    let login = read_socket_response(answer.as_bytes()).unwrap();
    assert_eq!(at(&login, &["status"]), JsonValue::text("approved"));
    assert_eq!(at(&login, &["domain"]), JsonValue::text("example.com"));
    assert_eq!(at(&login, &["username"]), JsonValue::text("demo@example.com"));
    assert_eq!(at(&login, &["password"]), JsonValue::text("apw-demo-password"));
    assert_eq!(at(&login, &["transport"]), JsonValue::text("unix_socket"));
}

#[test]
fn login_works_via_direct_fallback_when_service_not_running() {
    assert_eq!(connect_step(false, 0), ConnectStep::Direct);
    check_direct(true).unwrap();
    let (command, payload) = native_app_login("https://example.com");
    let (verb, command, argument) = direct_arguments(&command, &payload);
    assert_eq!((verb.as_str(), command.as_str()), ("request", "login"));
    assert_eq!(argument, b"{\"url\":\"https://example.com\"}");
    let answer = APPROVED.replace("TRANSPORT", "direct_exec") + "\n";
    let login = read_direct_response(answer.as_bytes()).unwrap();
    assert_eq!(at(&login, &["transport"]), JsonValue::text("direct_exec"));
    assert_eq!(at(&login, &["userMediated"]), JsonValue::Bool(true));
}

#[test]
fn login_reports_operator_facing_failures() {
    assert_eq!(connect_step(false, 0), ConnectStep::Direct);
    let not_installed = check_direct(false).unwrap_err();
    assert_eq!(not_installed.code.code(), 103);
    assert!(not_installed.message.contains("Run `apw app install` first."));

    let unsupported = read_direct_response(
        b"{\"ok\":false,\"code\":3,\"error\":\"The APW v2 bootstrap app currently supports only https://example.com.\",\"requestId\":\"oneshot\"}\n",
    )
    .unwrap_err();
    assert_eq!(unsupported.code.code(), 3);
    assert!(unsupported.message.contains("supports only https://example.com"));

    let denied = read_direct_response(
        b"{\"ok\":false,\"code\":1,\"error\":\"User denied the APW login request.\",\"requestId\":\"oneshot\"}\n",
    )
    .unwrap_err();
    assert_eq!(denied.code.code(), 1);
    assert!(denied.message.contains("User denied"));
}
