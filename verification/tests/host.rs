use apw::host::{
    build_launch_agent_plist, choose_packaged_bundle, clear_native_host_test_overrides,
    ensure_native_host_runtime_dir, interpret_launchctl, launchctl_domain,
    launchctl_service_target,
    native_host_bundle_install_path, native_host_doctor, native_host_executable_in_bundle,
    native_host_failure_message, native_host_helper_path, native_host_install,
    native_host_install_dir, native_host_installed_report, native_host_launch_agent_path,
    native_host_preflight_state, native_host_preflight_status, native_host_run_dir,
    native_host_runtime_supported, native_host_socket_path, native_host_status_note,
    native_host_uninstall, native_host_uninstalled_report, packaged_host_candidates,
    read_bundle_version, set_native_host_preflight_overrides_for_tests, HostEnvironment,
    HostOverrides, HostState, HostStep,
};
use apw::json::JsonValue;
use apw::types::{RuntimeMode, Status};

const INFO: &str = "<?xml version=\"1.0\" encoding=\"UTF-8\"?>
<plist version=\"1.0\">
<dict>
  <key>CFBundleShortVersionString</key>
  <string>2.0.0</string>
</dict>
</plist>
";

fn at(value: &JsonValue, path: &[&str]) -> JsonValue {
    path.iter()
        .fold(value.copy(), |inner, key| inner.get_or_null(key))
}

fn bare() -> HostEnvironment {
    HostEnvironment {
        home: "/home/alice".to_string(),
        os: "linux".to_string(),
        arch: "x86_64".to_string(),
        on_macos: false,
        macos_major_version: None,
        bundle_exists: false,
        bundle_info: None,
        launch_agent_exists: false,
        launch_agent_loaded: false,
        helper_executable: false,
        socket_exists: false,
        overrides: HostOverrides::default(),
    }
}

#[test]
fn native_host_doctor_reports_unsupported_platform() {
    let mut env = bare();
    set_native_host_preflight_overrides_for_tests(&mut env.overrides, Some(false), None, None, None);

    let payload = native_host_doctor(&env).unwrap();
    assert_eq!(at(&payload, &["status"]), JsonValue::text("unsupported_platform"));
    assert_eq!(
        at(&payload, &["error"]),
        JsonValue::text("APW native host is supported only on macOS.")
    );
    assert_eq!(at(&payload, &["supported"]), JsonValue::Bool(false));
}

#[test]
fn native_host_install_copies_bundle_and_writes_launch_agent() {
    let mut env = bare();
    set_native_host_preflight_overrides_for_tests(
        &mut env.overrides,
        Some(true),
        Some(true),
        Some(true),
        Some(26),
    );
    let steps = native_host_install(&env, 501).unwrap();
    let bundle = native_host_bundle_install_path(&env.home);
    let agent = native_host_launch_agent_path(&env.home);
    let socket = native_host_socket_path(&env.home);
    assert!(steps
        .iter()
        .any(|step| matches!(step, HostStep::CopyBundle(path) if *path == bundle)));
    assert!(steps.iter().any(|step| matches!(
        step,
        HostStep::EnsureInstallDir(path, 0o700) if *path == native_host_install_dir(&env.home)
    )));
    let plist = steps
        .iter()
        .find_map(|step| match step {
            HostStep::WriteAgent(path, content, 0o644) if *path == agent => Some(content.clone()),
            _ => None,
        })
        .expect("the launch agent is written");
    assert!(plist.contains("--socket-path"));
    assert!(plist.contains(&socket));
    assert!(plist.contains("dev.omt.apw.nativehost"));
    let launchctl = |command: &str| {
        steps.iter().any(|step| match step {
            HostStep::Launchctl(args, _) => args.first().map(String::as_str) == Some(command),
            _ => false,
        })
    };
    assert!(launchctl("bootstrap"));
    assert!(launchctl("kickstart"));

    // Once the steps are done, the host is ready.
    env.bundle_exists = true;
    env.bundle_info = Some(INFO.to_string());
    env.launch_agent_exists = true;
    let preflight = native_host_preflight_status(&env, RuntimeMode::Native);
    let payload = native_host_installed_report(&env.home, preflight);
    assert_eq!(at(&payload, &["status"]), JsonValue::text("installed"));
    assert_eq!(at(&payload, &["preflight", "status"]), JsonValue::text("ready"));
    assert_eq!(
        at(&payload, &["preflight", "appBundle", "version"]),
        JsonValue::text("2.0.0")
    );
}

#[test]
fn native_host_uninstall_removes_installed_artifacts() {
    let mut env = bare();
    env.bundle_exists = true;
    env.launch_agent_exists = true;
    env.socket_exists = true;
    set_native_host_preflight_overrides_for_tests(&mut env.overrides, Some(true), None, None, None);
    let steps = native_host_uninstall(&env, 501).unwrap();
    let removes = |path: String| {
        steps
            .iter()
            .any(|step| matches!(step, HostStep::Remove(found) if *found == path))
    };
    assert!(removes(native_host_bundle_install_path(&env.home)));
    assert!(removes(native_host_launch_agent_path(&env.home)));
    assert!(removes(native_host_socket_path(&env.home)));
    assert!(steps.iter().any(|step| match step {
        HostStep::Launchctl(args, _) => args.first().map(String::as_str) == Some("bootout"),
        _ => false,
    }));
    let payload = native_host_uninstalled_report(&env.home);
    assert_eq!(at(&payload, &["status"]), JsonValue::text("uninstalled"));
}

#[test]
fn native_host_failure_message_guides_install_for_missing_bundle() {
    let mut env = bare();
    set_native_host_preflight_overrides_for_tests(&mut env.overrides, Some(true), None, None, None);
    let message = native_host_failure_message(&env, "Base failure.");
    assert!(message.contains("Run `apw host install`, then `apw host doctor`, then `apw start`."));
    assert!(message.contains("daemon.preflight.status=app_missing"));
    clear_native_host_test_overrides(&mut env.overrides);
    assert!(native_host_status_note(&env).contains("unsupported_platform"));
}

#[test]
fn the_first_thing_that_is_missing_is_reported() {
    let mut env = bare();
    assert_eq!(native_host_preflight_state(&env), HostState::UnsupportedPlatform);
    assert!(!native_host_runtime_supported(&env));
    env.on_macos = true;
    env.macos_major_version = Some(26);
    assert_eq!(native_host_preflight_state(&env), HostState::AppMissing);
    env.bundle_exists = true;
    assert_eq!(native_host_preflight_state(&env), HostState::LaunchAgentMissing);
    env.launch_agent_exists = true;
    assert_eq!(native_host_preflight_state(&env), HostState::LaunchAgentUnloaded);
    env.launch_agent_loaded = true;
    assert_eq!(native_host_preflight_state(&env), HostState::HelperMissing);
    env.helper_executable = true;
    assert_eq!(native_host_preflight_state(&env), HostState::Ready);
}

#[test]
fn nothing_is_installed_off_macos() {
    assert_eq!(
        native_host_install(&bare(), 1).unwrap_err().code,
        Status::ProcessNotRunning
    );
    assert!(native_host_uninstall(&bare(), 1).is_err());
}

#[test]
fn the_files_of_the_host_hang_below_the_home_directory() {
    let home = "/Users/alice";
    assert_eq!(native_host_run_dir(home), "/Users/alice/.apw/run");
    assert!(native_host_socket_path(home).starts_with("/Users/alice/.apw/run/"));
    assert!(native_host_bundle_install_path(home).starts_with(&native_host_install_dir(home)));
    assert!(native_host_launch_agent_path(home).starts_with("/Users/alice/Library/LaunchAgents/"));
    assert!(native_host_executable_in_bundle("/a.app").starts_with("/a.app/Contents/MacOS/"));
    assert!(native_host_helper_path().starts_with('/'));
    assert_eq!(launchctl_domain(501), "gui/501");
    assert!(launchctl_service_target(501).starts_with("gui/501/"));
}

#[test]
fn the_version_of_a_bundle_stands_behind_its_key() {
    assert_eq!(
        read_bundle_version(&Some(INFO.to_string())),
        Some("2.0.0".to_string())
    );
    assert_eq!(read_bundle_version(&Some("<plist></plist>".to_string())), None);
    assert_eq!(read_bundle_version(&None), None);
}

#[test]
fn packaged_bundles_are_searched_in_order() {
    let candidates = packaged_host_candidates("/opt/apw/bin", &Some("/work".to_string()));
    assert!(candidates.len() > 1);
    let mut exists = vec![false; candidates.len()];
    exists[1] = true;
    let choose = |exists: &Vec<bool>| {
        choose_packaged_bundle(&candidates, exists, Status::ProcessNotRunning, "No bundle.")
    };
    assert_eq!(choose(&exists).unwrap(), candidates[1]);
    exists[1] = false;
    let error = choose(&exists).unwrap_err();
    assert_eq!(error.code, Status::ProcessNotRunning);
    assert_eq!(error.message, "No bundle.");
}

#[test]
fn the_launch_agent_names_the_executable_and_the_socket() {
    let plist = build_launch_agent_plist("/Users/a", "/b.app", "/s.sock");
    assert!(plist.contains("<string>/s.sock</string>"));
    assert!(plist.contains(&native_host_executable_in_bundle("/b.app")));
}

#[test]
fn failures_of_launchctl_count_unless_they_may_happen() {
    assert_eq!(interpret_launchctl(true, " out\n", "err", false).unwrap(), "out");
    assert_eq!(interpret_launchctl(false, "", "boom\n", true).unwrap(), "boom");
    let error = interpret_launchctl(false, "out", " boom ", false).unwrap_err();
    assert_eq!(error.code, Status::ProcessNotRunning);
    assert_eq!(error.message, "boom");
    let error = interpret_launchctl(false, "out", "", false).unwrap_err();
    assert_eq!(error.message, "launchctl command failed.");
}

#[test]
fn the_directory_of_the_socket_is_for_the_user_alone() {
    let steps = ensure_native_host_runtime_dir("/home/alice");
    assert_eq!(steps.len(), 2);
    assert!(matches!(
        &steps[0],
        HostStep::EnsureApwDir(path, 0o700) if path == "/home/alice/.apw"
    ));
    assert!(matches!(
        &steps[1],
        HostStep::EnsureRunDir(path, 0o700) if path == "/home/alice/.apw/run"
    ));
}
