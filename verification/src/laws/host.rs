//! Where the native host is, how ready it and the helper are, and what is told of that.
use crate::error::{fails, Result};
use crate::host::{
    build_launch_agent_plist, bundle_path, choose_packaged_bundle, ensure_native_host_runtime_dir,
    executable_in, install_dir, install_steps, interpret_launchctl, launch_agent_path,
    launch_agents_dir, launchctl_domain, launchctl_service_target, native_host_bundle_install_path,
    native_host_doctor, native_host_failure_message, native_host_install, native_host_install_dir,
    native_host_installed_report, native_host_launch_agent_path, native_host_launch_agents_dir,
    native_host_preflight_state, native_host_preflight_status, native_host_run_dir,
    native_host_socket_path, native_host_status_note, native_host_uninstall,
    native_host_uninstalled_report, package_places, packaged_host_candidates, read_bundle_version,
    run_dir, run_dir_steps, socket_path, steps_model, uninstall_steps, HostEnvironment, HostState,
    HostStep, StepModel,
};
use crate::json::{Json, JsonValue};
use crate::laws::app::{directory, lemma_below, lemma_joined};
use crate::laws::basics::{lemma_decimal_reads, lemma_first_place};
use crate::laws::client::lemma_first_true;
use crate::laws::names::{
    lemma_installed_names, lemma_manifest_names, lemma_part_names, lemma_platform_names,
    lemma_preflight_names,
};
use crate::laws::status::told;
use crate::laws::words::mode_text;
use crate::preflight::{
    backend_selection, configured_macos_major_version, current_macos_major_version,
    helper_preflight_failure_message, helper_preflight_status, helper_preflight_status_note,
    inspect_manifest_preflight, is_absolute_unix_path, is_manifest, is_safe_manifest_path,
    launch_strategy_labels, law_failure_begins_with_its_cause, manifest_binary,
    manifest_search_paths, parse_major_version, read_manifest, resolve_runtime_mode, strategies,
    HelperBackend, ManifestFinding, ManifestState, PreflightEnvironment,
};
use crate::secrets::texts;
use crate::text::{
    begins_with, decimal, decimal_u64, first_at, occurs_at, occurs_in, opt_text, trimmed,
};
use crate::types::{ManifestConfig, RuntimeMode, Status};
use crate::utils::joined;
use vstd::prelude::*;
use vstd::utf8::encode_utf8;

verus! {

/// A path in its parts.
proof fn lemma_apw_dir_path()
    ensures
        "/.apw"@ == "/"@ + ".apw"@,
        directory("/.apw"@),
        directory(".apw"@),
{
    reveal_strlit("/");
    reveal_strlit(".apw");
    reveal_strlit("/.apw");
    assert("/.apw"@ =~= "/"@ + ".apw"@);
}

/// A path in its parts.
proof fn lemma_run_dir_path()
    ensures
        "/.apw/run"@ == "/.apw"@ + "/"@ + "run"@,
        directory("/.apw/run"@),
        directory("run"@),
{
    reveal_strlit("/");
    reveal_strlit("/.apw");
    reveal_strlit("run");
    reveal_strlit("/.apw/run");
    assert("/.apw/run"@ =~= "/.apw"@ + "/"@ + "run"@);
}

/// A path in its parts.
proof fn lemma_socket_path()
    ensures
        "/.apw/run/native-host.sock"@ == "/.apw/run"@ + "/"@ + "native-host.sock"@,
        directory("/.apw/run/native-host.sock"@),
        directory("native-host.sock"@),
{
    reveal_strlit("/");
    reveal_strlit("/.apw/run");
    reveal_strlit("native-host.sock");
    reveal_strlit("/.apw/run/native-host.sock");
    assert("/.apw/run/native-host.sock"@ =~= "/.apw/run"@ + "/"@ + "native-host.sock"@);
}

/// A path in its parts.
proof fn lemma_library_path()
    ensures
        "/Library"@ == "/"@ + "Library"@,
        directory("/Library"@),
        directory("Library"@),
{
    reveal_strlit("/");
    reveal_strlit("Library");
    reveal_strlit("/Library");
    assert("/Library"@ =~= "/"@ + "Library"@);
}

/// A path in its parts.
proof fn lemma_support_path()
    ensures
        "/Library/Application Support"@ == "/Library"@ + "/"@ + "Application Support"@,
        directory("/Library/Application Support"@),
        directory("Application Support"@),
{
    reveal_strlit("/");
    reveal_strlit("/Library");
    reveal_strlit("Application Support");
    reveal_strlit("/Library/Application Support");
    assert("/Library/Application Support"@ =~= "/Library"@ + "/"@ + "Application Support"@);
}

/// A path in its parts.
proof fn lemma_apw_support_path()
    ensures
        "/Library/Application Support/APW"@ == "/Library/Application Support"@ + "/"@ + "APW"@,
        directory("/Library/Application Support/APW"@),
        directory("APW"@),
{
    reveal_strlit("/");
    reveal_strlit("/Library/Application Support");
    reveal_strlit("APW");
    reveal_strlit("/Library/Application Support/APW");
    assert("/Library/Application Support/APW"@ =~= "/Library/Application Support"@ + "/"@ + "APW"@);
}

/// A path in its parts.
proof fn lemma_install_dir_path()
    ensures
        "/Library/Application Support/APW/NativeHost"@ == "/Library/Application Support/APW"@ + "/"@ + "NativeHost"@,
        directory("/Library/Application Support/APW/NativeHost"@),
        directory("NativeHost"@),
{
    reveal_strlit("/");
    reveal_strlit("/Library/Application Support/APW");
    reveal_strlit("NativeHost");
    reveal_strlit("/Library/Application Support/APW/NativeHost");
    assert("/Library/Application Support/APW/NativeHost"@ =~= "/Library/Application Support/APW"@ + "/"@ + "NativeHost"@);
}

/// A path in its parts.
proof fn lemma_bundle_path()
    ensures
        "/Library/Application Support/APW/NativeHost/APWNativeHost.app"@ == "/Library/Application Support/APW/NativeHost"@ + "/"@ + "APWNativeHost.app"@,
        directory("/Library/Application Support/APW/NativeHost/APWNativeHost.app"@),
        directory("APWNativeHost.app"@),
{
    reveal_strlit("/");
    reveal_strlit("/Library/Application Support/APW/NativeHost");
    reveal_strlit("APWNativeHost.app");
    reveal_strlit("/Library/Application Support/APW/NativeHost/APWNativeHost.app");
    assert("/Library/Application Support/APW/NativeHost/APWNativeHost.app"@ =~= "/Library/Application Support/APW/NativeHost"@ + "/"@ + "APWNativeHost.app"@);
}

/// A path in its parts.
proof fn lemma_contents_path()
    ensures
        "/Library/Application Support/APW/NativeHost/APWNativeHost.app/Contents"@ == "/Library/Application Support/APW/NativeHost/APWNativeHost.app"@ + "/"@ + "Contents"@,
        directory("/Library/Application Support/APW/NativeHost/APWNativeHost.app/Contents"@),
        directory("Contents"@),
{
    reveal_strlit("/");
    reveal_strlit("/Library/Application Support/APW/NativeHost/APWNativeHost.app");
    reveal_strlit("Contents");
    reveal_strlit("/Library/Application Support/APW/NativeHost/APWNativeHost.app/Contents");
    assert("/Library/Application Support/APW/NativeHost/APWNativeHost.app/Contents"@ =~= "/Library/Application Support/APW/NativeHost/APWNativeHost.app"@ + "/"@ + "Contents"@);
}

/// A path in its parts.
proof fn lemma_macos_path()
    ensures
        "/Library/Application Support/APW/NativeHost/APWNativeHost.app/Contents/MacOS"@ == "/Library/Application Support/APW/NativeHost/APWNativeHost.app/Contents"@ + "/"@ + "MacOS"@,
        directory("/Library/Application Support/APW/NativeHost/APWNativeHost.app/Contents/MacOS"@),
        directory("MacOS"@),
{
    reveal_strlit("/");
    reveal_strlit("/Library/Application Support/APW/NativeHost/APWNativeHost.app/Contents");
    reveal_strlit("MacOS");
    reveal_strlit("/Library/Application Support/APW/NativeHost/APWNativeHost.app/Contents/MacOS");
    assert("/Library/Application Support/APW/NativeHost/APWNativeHost.app/Contents/MacOS"@ =~= "/Library/Application Support/APW/NativeHost/APWNativeHost.app/Contents"@ + "/"@ + "MacOS"@);
}

/// A path in its parts.
proof fn lemma_executable_path()
    ensures
        "/Library/Application Support/APW/NativeHost/APWNativeHost.app/Contents/MacOS/APWNativeHost"@ == "/Library/Application Support/APW/NativeHost/APWNativeHost.app/Contents/MacOS"@ + "/"@ + "APWNativeHost"@,
        directory("/Library/Application Support/APW/NativeHost/APWNativeHost.app/Contents/MacOS/APWNativeHost"@),
        directory("APWNativeHost"@),
{
    reveal_strlit("/");
    reveal_strlit("/Library/Application Support/APW/NativeHost/APWNativeHost.app/Contents/MacOS");
    reveal_strlit("APWNativeHost");
    reveal_strlit("/Library/Application Support/APW/NativeHost/APWNativeHost.app/Contents/MacOS/APWNativeHost");
    assert("/Library/Application Support/APW/NativeHost/APWNativeHost.app/Contents/MacOS/APWNativeHost"@ =~= "/Library/Application Support/APW/NativeHost/APWNativeHost.app/Contents/MacOS"@ + "/"@ + "APWNativeHost"@);
}

/// A path in its parts.
proof fn lemma_agents_dir_path()
    ensures
        "/Library/LaunchAgents"@ == "/Library"@ + "/"@ + "LaunchAgents"@,
        directory("/Library/LaunchAgents"@),
        directory("LaunchAgents"@),
{
    reveal_strlit("/");
    reveal_strlit("/Library");
    reveal_strlit("LaunchAgents");
    reveal_strlit("/Library/LaunchAgents");
    assert("/Library/LaunchAgents"@ =~= "/Library"@ + "/"@ + "LaunchAgents"@);
}

/// A path in its parts.
proof fn lemma_agent_path()
    ensures
        "/Library/LaunchAgents/dev.omt.apw.nativehost.plist"@ == "/Library/LaunchAgents"@ + "/"@ + "dev.omt.apw.nativehost.plist"@,
        directory("/Library/LaunchAgents/dev.omt.apw.nativehost.plist"@),
        directory("dev.omt.apw.nativehost.plist"@),
{
    reveal_strlit("/");
    reveal_strlit("/Library/LaunchAgents");
    reveal_strlit("dev.omt.apw.nativehost.plist");
    reveal_strlit("/Library/LaunchAgents/dev.omt.apw.nativehost.plist");
    assert("/Library/LaunchAgents/dev.omt.apw.nativehost.plist"@ =~= "/Library/LaunchAgents"@ + "/"@ + "dev.omt.apw.nativehost.plist"@);
}

/// A path in its parts.
proof fn lemma_stdout_path()
    ensures
        "/Library/Application Support/APW/NativeHost/native-host.stdout.log"@ == "/Library/Application Support/APW/NativeHost"@ + "/"@ + "native-host.stdout.log"@,
        directory("/Library/Application Support/APW/NativeHost/native-host.stdout.log"@),
        directory("native-host.stdout.log"@),
{
    reveal_strlit("/");
    reveal_strlit("/Library/Application Support/APW/NativeHost");
    reveal_strlit("native-host.stdout.log");
    reveal_strlit("/Library/Application Support/APW/NativeHost/native-host.stdout.log");
    assert("/Library/Application Support/APW/NativeHost/native-host.stdout.log"@ =~= "/Library/Application Support/APW/NativeHost"@ + "/"@ + "native-host.stdout.log"@);
}

/// A path in its parts.
proof fn lemma_stderr_path()
    ensures
        "/Library/Application Support/APW/NativeHost/native-host.stderr.log"@ == "/Library/Application Support/APW/NativeHost"@ + "/"@ + "native-host.stderr.log"@,
        directory("/Library/Application Support/APW/NativeHost/native-host.stderr.log"@),
        directory("native-host.stderr.log"@),
{
    reveal_strlit("/");
    reveal_strlit("/Library/Application Support/APW/NativeHost");
    reveal_strlit("native-host.stderr.log");
    reveal_strlit("/Library/Application Support/APW/NativeHost/native-host.stderr.log");
    assert("/Library/Application Support/APW/NativeHost/native-host.stderr.log"@ =~= "/Library/Application Support/APW/NativeHost"@ + "/"@ + "native-host.stderr.log"@);
}

proof fn lemma_label()
    ensures
        "dev.omt.apw.nativehost"@ + ".plist"@ == "dev.omt.apw.nativehost.plist"@,
{
    reveal_strlit("dev.omt.apw.nativehost");
    reveal_strlit(".plist");
    reveal_strlit("dev.omt.apw.nativehost.plist");
    assert("dev.omt.apw.nativehost"@ + ".plist"@ =~= "dev.omt.apw.nativehost.plist"@);
}

/// The places of the native host below a home directory.
pub(crate) proof fn lemma_host_paths(home: Seq<char>)
    requires
        directory(home),
    ensures
        crate::host::apw_dir(home) == home + "/.apw"@,
        run_dir(home) == home + "/.apw/run"@,
        socket_path(home) == home + "/.apw/run/native-host.sock"@,
        install_dir(home) == home + "/Library/Application Support/APW/NativeHost"@,
        bundle_path(home) == home
            + "/Library/Application Support/APW/NativeHost/APWNativeHost.app"@,
        executable_in(bundle_path(home), "APWNativeHost"@) == home
            + "/Library/Application Support/APW/NativeHost/APWNativeHost.app/Contents/MacOS/APWNativeHost"@,
        launch_agents_dir(home) == home + "/Library/LaunchAgents"@,
        launch_agent_path(home) == home + "/Library/LaunchAgents/dev.omt.apw.nativehost.plist"@,
        joined(install_dir(home), "native-host.stdout.log"@) == home
            + "/Library/Application Support/APW/NativeHost/native-host.stdout.log"@,
        joined(install_dir(home), "native-host.stderr.log"@) == home
            + "/Library/Application Support/APW/NativeHost/native-host.stderr.log"@,
{
    lemma_label();
    lemma_apw_dir_path();
    lemma_below(home, Seq::empty(), ".apw"@);
    assert(home + Seq::<char>::empty() =~= home);
    assert(Seq::<char>::empty() + "/"@ + ".apw"@ =~= "/.apw"@);
    lemma_run_dir_path();
    lemma_below(home, "/.apw"@, "run"@);
    lemma_socket_path();
    lemma_below(home, "/.apw/run"@, "native-host.sock"@);
    lemma_library_path();
    lemma_below(home, Seq::empty(), "Library"@);
    assert(home + Seq::<char>::empty() =~= home);
    assert(Seq::<char>::empty() + "/"@ + "Library"@ =~= "/Library"@);
    lemma_support_path();
    lemma_below(home, "/Library"@, "Application Support"@);
    lemma_apw_support_path();
    lemma_below(home, "/Library/Application Support"@, "APW"@);
    lemma_install_dir_path();
    lemma_below(home, "/Library/Application Support/APW"@, "NativeHost"@);
    lemma_bundle_path();
    lemma_below(home, "/Library/Application Support/APW/NativeHost"@, "APWNativeHost.app"@);
    lemma_contents_path();
    lemma_below(home, "/Library/Application Support/APW/NativeHost/APWNativeHost.app"@, "Contents"@);
    lemma_macos_path();
    lemma_below(home, "/Library/Application Support/APW/NativeHost/APWNativeHost.app/Contents"@, "MacOS"@);
    lemma_executable_path();
    lemma_below(home, "/Library/Application Support/APW/NativeHost/APWNativeHost.app/Contents/MacOS"@, "APWNativeHost"@);
    lemma_agents_dir_path();
    lemma_below(home, "/Library"@, "LaunchAgents"@);
    lemma_agent_path();
    lemma_below(home, "/Library/LaunchAgents"@, "dev.omt.apw.nativehost.plist"@);
    lemma_stdout_path();
    lemma_below(home, "/Library/Application Support/APW/NativeHost"@, "native-host.stdout.log"@);
    lemma_stderr_path();
    lemma_below(home, "/Library/Application Support/APW/NativeHost"@, "native-host.stderr.log"@);
}

/// Installing the native host puts its bundle and its launch agent in their places below the home
/// directory and starts it for the user, in this order. Its directories are for the user alone.
pub proof fn law_host_install_steps(
    env: &HostEnvironment,
    uid: u32,
    domain: String,
    home: &str,
    bundle: &str,
    socket: &str,
    plist: String,
    r: Result<Vec<HostStep>>,
)
    ensures
        call_ensures(native_host_install, (env, uid), r) ==> (r is Ok <==> env.supported()),
        call_ensures(native_host_install, (env, uid), r) && r is Ok && directory(env.home@)
            && call_ensures(launchctl_domain, (uid,), domain) && home@ == env.home@ && bundle@
            == env.home@ + "/Library/Application Support/APW/NativeHost/APWNativeHost.app"@
            && socket@ == env.home@ + "/.apw/run/native-host.sock"@ && call_ensures(
            build_launch_agent_plist,
            (home, bundle, socket),
            plist,
        ) ==> {
            let steps = r->Ok_0@;
            let agent = env.home@ + "/Library/LaunchAgents/dev.omt.apw.nativehost.plist"@;
            &&& steps.len() == 10
            &&& steps[0]@ == StepModel::EnsureApwDir(env.home@ + "/.apw"@, 0o700)
            &&& steps[1]@ == StepModel::EnsureRunDir(env.home@ + "/.apw/run"@, 0o700)
            &&& steps[2]@ == StepModel::FindPackage
            &&& steps[3]@ == StepModel::EnsureInstallDir(
                env.home@ + "/Library/Application Support/APW/NativeHost"@,
                0o700,
            )
            &&& steps[4]@ == StepModel::EnsureAgentsDir(env.home@ + "/Library/LaunchAgents"@)
            &&& steps[5]@ == StepModel::CopyBundle(bundle@)
            &&& steps[6]@ == StepModel::WriteAgent(agent, plist@, 0o644)
            &&& steps[7]@ == StepModel::Launchctl(seq!["bootout"@, domain@, agent], true)
            &&& steps[8]@ == StepModel::Launchctl(seq!["bootstrap"@, domain@, agent], false)
            &&& steps[9]@ == StepModel::Launchctl(
                seq!["kickstart"@, "-k"@, domain@ + "/"@ + "dev.omt.apw.nativehost"@],
                true,
            )
        },
{
    if call_ensures(native_host_install, (env, uid), r) && r is Ok && directory(env.home@) {
        lemma_host_paths(env.home@);
        let models = steps_model(r->Ok_0@);
        assert(models == install_steps(env.home@, uid));
        assert(models.len() == 10);
        assert(models[0] == r->Ok_0@[0]@ && models[1] == r->Ok_0@[1]@ && models[2] == r->Ok_0@[2]@
            && models[3] == r->Ok_0@[3]@ && models[4] == r->Ok_0@[4]@);
        assert(models[5] == r->Ok_0@[5]@ && models[6] == r->Ok_0@[6]@ && models[7] == r->Ok_0@[7]@
            && models[8] == r->Ok_0@[8]@ && models[9] == r->Ok_0@[9]@);
    }
}

/// Removing the native host stops it for the user and removes its launch agent, its bundle and its
/// socket.
pub proof fn law_host_uninstall_steps(
    env: &HostEnvironment,
    uid: u32,
    domain: String,
    r: Result<Vec<HostStep>>,
)
    ensures
        call_ensures(native_host_uninstall, (env, uid), r) ==> (r is Ok <==> env.supported()),
        call_ensures(native_host_uninstall, (env, uid), r) && r is Ok && directory(env.home@)
            && call_ensures(launchctl_domain, (uid,), domain) ==> {
            let steps = r->Ok_0@;
            let agent = env.home@ + "/Library/LaunchAgents/dev.omt.apw.nativehost.plist"@;
            &&& steps.len() == 4
            &&& steps[0]@ == StepModel::Launchctl(seq!["bootout"@, domain@, agent], true)
            &&& steps[1]@ == StepModel::Remove(agent)
            &&& steps[2]@ == StepModel::Remove(
                env.home@ + "/Library/Application Support/APW/NativeHost/APWNativeHost.app"@,
            )
            &&& steps[3]@ == StepModel::Remove(env.home@ + "/.apw/run/native-host.sock"@)
        },
{
    if call_ensures(native_host_uninstall, (env, uid), r) && r is Ok && directory(env.home@) {
        lemma_host_paths(env.home@);
        let models = steps_model(r->Ok_0@);
        assert(models == uninstall_steps(env.home@, uid));
        assert(models.len() == 4);
        assert(models[0] == r->Ok_0@[0]@ && models[1] == r->Ok_0@[1]@ && models[2] == r->Ok_0@[2]@
            && models[3] == r->Ok_0@[3]@);
    }
}

/// The domain of a user's services is by the user's number.
pub proof fn law_domain_is_by_number(uid: u32, number: String, r: String)
    ensures
        call_ensures(launchctl_domain, (uid,), r) && call_ensures(
            decimal_u64,
            (uid as u64,),
            number,
        ) ==> r@ == "gui/"@ + number@,
{
}

/// The launch agent runs the bundle's executable with the socket behind `--socket-path` and Apple's
/// helper behind `--helper-path`.
pub proof fn law_agent_runs_the_host(home: &str, bundle: &str, socket: &str, r: String)
    ensures
        call_ensures(build_launch_agent_plist, (home, bundle, socket), r) ==> {
            &&& occurs_in(
                r@,
                executable_in(bundle@, "APWNativeHost"@)
                    + "</string>\n    <string>--socket-path</string>\n    <string>"@ + socket@
                    + "</string>\n    <string>--helper-path</string>\n    <string>"@
                    + "/System/Cryptexes/App/System/Library/CoreServices/PasswordManagerBrowserExtensionHelper.app/Contents/MacOS/PasswordManagerBrowserExtensionHelper"@,
            )
        },
{
    if call_ensures(build_launch_agent_plist, (home, bundle, socket), r) {
        let front = crate::host::PLIST_HEAD@ + crate::host::NATIVE_HOST_LABEL@
            + crate::host::PLIST_PROGRAM@;
        let middle = executable_in(bundle@, "APWNativeHost"@)
            + "</string>\n    <string>--socket-path</string>\n    <string>"@ + socket@
            + "</string>\n    <string>--helper-path</string>\n    <string>"@
            + "/System/Cryptexes/App/System/Library/CoreServices/PasswordManagerBrowserExtensionHelper.app/Contents/MacOS/PasswordManagerBrowserExtensionHelper"@;
        let back = crate::host::PLIST_OUT@ + joined(
            install_dir(home@),
            "native-host.stdout.log"@,
        ) + crate::host::PLIST_ERR@ + joined(install_dir(home@), "native-host.stderr.log"@)
            + crate::host::PLIST_END@;
        assert(r@ =~= front + middle + back);
        assert(r@.subrange(front.len() as int, (front.len() + middle.len()) as int) =~= middle);
        assert(occurs_at(r@, middle, front.len() as int));
    }
}

/// The first thing that is missing is what keeps the native host from being ready, and it is ready
/// exactly where nothing is.
pub proof fn law_first_missing_thing(env: &HostEnvironment, r: HostState)
    ensures
        call_ensures(native_host_preflight_state, (env,), r) ==> {
            &&& r == HostState::UnsupportedPlatform <==> !env.supported()
            &&& r == HostState::AppMissing <==> env.supported() && !env.bundle_exists
            &&& r == HostState::LaunchAgentMissing <==> env.supported() && env.bundle_exists
                && !env.launch_agent_exists
            &&& r == HostState::LaunchAgentUnloaded <==> env.supported() && env.bundle_exists
                && env.launch_agent_exists && !env.agent_loaded()
            &&& r == HostState::HelperMissing <==> env.supported() && env.bundle_exists
                && env.launch_agent_exists && env.agent_loaded() && !env.helper_ready()
            &&& r == HostState::Ready <==> env.supported() && env.bundle_exists
                && env.launch_agent_exists && env.agent_loaded() && env.helper_ready()
        },
{
}

/// What is found on the machine counts, unless an override stands in its place.
pub proof fn law_overrides_stand_in(env: HostEnvironment)
    ensures
        env.overrides.supported_platform is None ==> env.supported() == env.on_macos,
        env.overrides.launch_agent_loaded is None ==> env.agent_loaded() == env.launch_agent_loaded,
        env.overrides.helper_executable is None ==> env.helper_ready() == env.helper_executable,
        env.overrides.supported_platform matches Some(value) ==> env.supported() == value,
        env.overrides.launch_agent_loaded matches Some(value) ==> env.agent_loaded() == value,
        env.overrides.helper_executable matches Some(value) ==> env.helper_ready() == value,
{
}

/// A small number, or null where there is none.
pub open spec fn told_number(n: Option<u32>) -> Json {
    match n {
        Some(n) => Json::Int(n as int),
        None => Json::Null,
    }
}

/// The report on the native host tells what is on the machine: the platform, the state and the
/// complaint about it, and where the socket, the launch agent, the bundle and the helper are.
pub proof fn law_host_report_tells_what_is_there(
    env: &HostEnvironment,
    mode: RuntimeMode,
    state: HostState,
    word: &'static str,
    complaint: Option<String>,
    version: Option<String>,
    r: JsonValue,
    doctor: Result<JsonValue>,
)
    ensures
        call_ensures(native_host_preflight_status, (env, mode), r) && call_ensures(
            native_host_preflight_state,
            (env,),
            state,
        ) && call_ensures(HostState::word, (state,), word) && call_ensures(
            HostState::error,
            (state,),
            complaint,
        ) && call_ensures(read_bundle_version, (&env.bundle_info,), version) && directory(env.home@)
            ==> host_told(r@, *env, mode, state, word@, complaint, version),
        call_ensures(native_host_doctor, (env,), doctor) && call_ensures(
            native_host_preflight_state,
            (env,),
            state,
        ) && call_ensures(HostState::word, (state,), word) && call_ensures(
            HostState::error,
            (state,),
            complaint,
        ) && call_ensures(read_bundle_version, (&env.bundle_info,), version) && directory(env.home@)
            ==> doctor is Ok && host_told(
            doctor->Ok_0@,
            *env,
            RuntimeMode::Native,
            state,
            word@,
            complaint,
            version,
        ),
{
    if directory(env.home@) {
        lemma_host_paths(env.home@);
    }
    lemma_preflight_names();
    lemma_platform_names();
    lemma_part_names();
}

/// Whether a report tells what is there of the native host.
pub open spec fn host_told(
    report: Json,
    env: HostEnvironment,
    mode: RuntimeMode,
    state: HostState,
    word: Seq<char>,
    complaint: Option<String>,
    version: Option<String>,
) -> bool {
    let home = env.home@;
    let platform = report.get("platform"@)->0;
    let agent = report.get("launchAgent"@)->0;
    let bundle = report.get("appBundle"@)->0;
    let helper = report.get("helper"@)->0;
    &&& report.get("supported"@) == Some(Json::Bool(env.supported()))
    &&& platform.get("os"@) == Some(Json::Str(env.os@))
    &&& platform.get("arch"@) == Some(Json::Str(env.arch@))
    &&& env.supported() && env.overrides.macos_major_version is None ==> platform.get(
        "macosMajorVersion"@,
    ) == Some(told_number(env.macos_major_version))
    &&& report.get("configuredRuntimeMode"@) == Some(Json::Str(mode_text(mode)))
    &&& report.get("resolvedRuntimeMode"@) == Some(Json::Str("native"@))
    &&& report.get("launchStrategies"@) == Some(Json::Arr(seq![Json::Str("native_host"@)]))
    &&& report.get("status"@) == Some(Json::Str(word))
    &&& report.get("error"@) == Some(told(complaint))
    &&& report.get("socketPath"@) == Some(Json::Str(home + "/.apw/run/native-host.sock"@))
    &&& report.get("socketExists"@) == Some(Json::Bool(env.socket_exists))
    &&& agent.get("loaded"@) == Some(Json::Bool(env.agent_loaded()))
    &&& agent.get("path"@) == Some(
        Json::Str(home + "/Library/LaunchAgents/dev.omt.apw.nativehost.plist"@),
    )
    &&& bundle.get("path"@) == Some(
        Json::Str(home + "/Library/Application Support/APW/NativeHost/APWNativeHost.app"@),
    )
    &&& bundle.get("version"@) == Some(
        if state == HostState::UnsupportedPlatform {
            Json::Null
        } else {
            told(version)
        },
    )
    &&& helper.get("executable"@) == Some(Json::Bool(env.helper_ready()))
    &&& helper.get("path"@) == Some(
        Json::Str(
            "/System/Cryptexes/App/System/Library/CoreServices/PasswordManagerBrowserExtensionHelper.app/Contents/MacOS/PasswordManagerBrowserExtensionHelper"@,
        ),
    )
}

/// The word for a state and the complaint about it tell which it is; only of a native host that is
/// ready there is no complaint.
pub proof fn law_state_is_told(state: HostState, word: &'static str, complaint: Option<String>)
    ensures
        call_ensures(HostState::word, (state,), word) ==> word@ == match state {
            HostState::UnsupportedPlatform => "unsupported_platform"@,
            HostState::AppMissing => "app_missing"@,
            HostState::LaunchAgentMissing => "launch_agent_missing"@,
            HostState::LaunchAgentUnloaded => "launch_agent_unloaded"@,
            HostState::HelperMissing => "helper_missing"@,
            HostState::Ready => "ready"@,
        },
        call_ensures(HostState::error, (state,), complaint) ==> (complaint is None <==> state
            == HostState::Ready),
{
}

/// The reports on an installation and on a removal name the files of the native host.
pub proof fn law_host_reports_name_the_files(
    home: &str,
    preflight: JsonValue,
    installed: JsonValue,
    removed: JsonValue,
)
    ensures
        directory(home@) && call_ensures(
            native_host_installed_report,
            (home, preflight),
            installed,
        ) ==> {
            &&& installed@.get("status"@) == Some(Json::Str("installed"@))
            &&& installed@.get("preflight"@) == Some(preflight@)
            &&& names_files(installed@.get("paths"@)->0, home@)
        },
        directory(home@) && call_ensures(native_host_uninstalled_report, (home,), removed) ==> {
            &&& removed@.get("status"@) == Some(Json::Str("uninstalled"@))
            &&& names_files(removed@.get("paths"@)->0, home@)
        },
{
    if directory(home@) {
        lemma_host_paths(home@);
    }
    lemma_installed_names();
    lemma_part_names();
}

/// Whether a value names the files of the native host.
pub open spec fn names_files(paths: Json, home: Seq<char>) -> bool {
    &&& paths.get("bundle"@) == Some(
        Json::Str(home + "/Library/Application Support/APW/NativeHost/APWNativeHost.app"@),
    )
    &&& paths.get("launchAgent"@) == Some(
        Json::Str(home + "/Library/LaunchAgents/dev.omt.apw.nativehost.plist"@),
    )
    &&& paths.get("socket"@) == Some(Json::Str(home + "/.apw/run/native-host.sock"@))
}

/// Of the places where a package may be, the first that exists is used; where none does, that is the
/// given complaint.
pub proof fn law_first_package_is_used(
    candidates: &Vec<String>,
    exists: &Vec<bool>,
    code: Status,
    complaint: &str,
    r: Result<String>,
)
    ensures
        call_ensures(choose_packaged_bundle, (candidates, exists, code, complaint), r)
            && candidates@.len() == exists@.len() ==> {
            &&& forall|i: int|
                0 <= i < exists@.len() && #[trigger] exists@[i] && (forall|j: int|
                    0 <= j < i ==> !#[trigger] exists@[j]) ==> r is Ok && r->Ok_0@
                    == candidates@[i]@
            &&& (forall|i: int| 0 <= i < exists@.len() ==> !#[trigger] exists@[i]) ==> fails(
                r,
                code,
                complaint@,
            )
        },
{
    lemma_first_true(exists@);
}

/// The automatic mode is the native one from macOS 26 on; every other mode is itself.
pub proof fn law_automatic_mode(mode: RuntimeMode, major: Option<u32>, r: RuntimeMode)
    ensures
        call_ensures(resolve_runtime_mode, (mode, major), r) ==> {
            &&& mode != RuntimeMode::Auto ==> r == mode
            &&& mode == RuntimeMode::Auto && major is Some && major->0 >= 26 ==> r
                == RuntimeMode::Native
            &&& mode == RuntimeMode::Auto && (major is None || major->0 < 26) ==> r
                == RuntimeMode::Auto
        },
{
}

/// The report on the helper in a mode other than the native one tells the platform, the mode and
/// the ways to launch, how ready the helper is, and what was found of its manifest.
pub proof fn law_preflight_report_tells_what_is_there(
    env: &PreflightEnvironment,
    mode: RuntimeMode,
    resolved: RuntimeMode,
    inspected: (JsonValue, ManifestState),
    word: &'static str,
    complaint: Option<String>,
    native: JsonValue,
    r: JsonValue,
)
    ensures
        call_ensures(helper_preflight_status, (env, mode), r) && call_ensures(
            resolve_runtime_mode,
            (mode, env.macos_major_version),
            resolved,
        ) ==> {
            &&& resolved == RuntimeMode::Native && call_ensures(
                native_host_preflight_status,
                (&env.host, mode),
                native,
            ) ==> r@ == native@
            &&& resolved != RuntimeMode::Native ==> {
                let platform = r@.get("platform"@)->0;
                &&& r@.get("supported"@) == Some(Json::Bool(env.on_macos))
                &&& platform.get("os"@) == Some(Json::Str(env.os@))
                &&& platform.get("arch"@) == Some(Json::Str(env.arch@))
                &&& platform.get("macosMajorVersion"@) == Some(told_number(env.macos_major_version))
                &&& r@.get("configuredRuntimeMode"@) == Some(Json::Str(mode_text(mode)))
                &&& r@.get("resolvedRuntimeMode"@) == Some(Json::Str(mode_text(resolved)))
                &&& resolved == RuntimeMode::Disabled ==> r@.get("status"@) == Some(
                    Json::Str("disabled"@),
                )
                &&& resolved != RuntimeMode::Disabled && !env.on_macos ==> r@.get("status"@) == Some(
                    Json::Str("unsupported_platform"@),
                )
                &&& resolved == RuntimeMode::Browser && env.on_macos ==> r@.get("status"@) == Some(
                    Json::Str("browser_bridge"@),
                )
                &&& env.on_macos && (resolved == RuntimeMode::Auto || resolved
                    == RuntimeMode::Direct || resolved == RuntimeMode::Launchd) && call_ensures(
                    inspect_manifest_preflight,
                    (&env.manifest,),
                    inspected,
                ) && call_ensures(ManifestState::word, (inspected.1,), word) && call_ensures(
                    ManifestState::error,
                    (inspected.1,),
                    complaint,
                ) ==> {
                    &&& r@.get("manifest"@) == Some(inspected.0@)
                    &&& r@.get("status"@) == Some(Json::Str(word@))
                    &&& r@.get("error"@) == Some(told(complaint))
                }
            }
        },
{
    lemma_preflight_names();
    lemma_platform_names();
}

/// What is found of the manifest is told: where it is, and the binary that it names, and whether
/// that can be executed. It is ready exactly where it could be read and names a binary at an
/// absolute path that can be executed.
pub proof fn law_manifest_report_tells_what_is_there(
    finding: &ManifestFinding,
    r: (JsonValue, ManifestState),
)
    ensures
        call_ensures(inspect_manifest_preflight, (finding,), r) ==> {
            let report = r.0@;
            let value = crate::json::json_parsed(encode_utf8(finding.content->0@))->0;
            &&& report.get("found"@) == Some(Json::Bool(finding.path is Some))
            &&& report.get("path"@) == Some(told(finding.path))
            &&& finding.path is None <==> r.1 == ManifestState::Missing
            &&& r.1 == ManifestState::Ready ==> {
                &&& finding.content is Some && finding.binary_executable
                &&& value.get("path"@) matches Some(Json::Str(path)) && path.len() > 0 && path[0]
                    == '/'
                &&& report.get("valid"@) == Some(Json::Bool(true))
                &&& report.get("binaryPath"@) == value.get("path"@)
                &&& report.get("binaryExecutable"@) == Some(Json::Bool(true))
            }
            &&& r.1 == ManifestState::BinaryNotExecutable ==> {
                &&& !finding.binary_executable
                &&& report.get("binaryPath"@) == value.get("path"@)
                &&& report.get("binaryExecutable"@) == Some(Json::Bool(false))
            }
        },
{
    lemma_manifest_names();
}

/// A manifest is read as it is written: its name, its description, its type and the binary that it
/// names.
pub proof fn law_manifest_is_read_as_written(
    on_macos: bool,
    finding: &ManifestFinding,
    r: Result<ManifestConfig>,
)
    ensures
        call_ensures(read_manifest, (on_macos, finding), r) && r is Ok ==> {
            let value = crate::json::json_parsed(encode_utf8(finding.content->0@))->0;
            &&& on_macos && finding.path is Some && finding.content is Some
            &&& finding.binary_executable
            &&& value.get("name"@) == Some(Json::Str(r->Ok_0.name@))
            &&& value.get("description"@) == Some(Json::Str(r->Ok_0.description@))
            &&& value.get("path"@) == Some(Json::Str(r->Ok_0.path@))
            &&& value.get("type"@) == Some(Json::Str(r->Ok_0.type_@))
            &&& r->Ok_0.path@.len() > 0 && r->Ok_0.path@[0] == '/'
            &&& !occurs_in(r->Ok_0.path@, ".."@)
        },
{
}

/// A failure is told with its cause in front and what to do behind it.
pub proof fn law_failure_messages_begin_with_the_cause(
    env: &PreflightEnvironment,
    host: &HostEnvironment,
    mode: RuntimeMode,
    cause: &str,
    of_helper: String,
    of_host: String,
)
    ensures
        call_ensures(helper_preflight_failure_message, (env, mode, cause), of_helper)
            ==> begins_with(of_helper@, cause@) && of_helper@.len() > cause@.len(),
        call_ensures(native_host_failure_message, (host, cause), of_host) ==> begins_with(
            of_host@,
            cause@,
        ) && of_host@.len() > cause@.len(),
{
    law_failure_begins_with_its_cause(*env, mode, cause@);
    reveal_strlit(" ");
    if call_ensures(native_host_failure_message, (host, cause), of_host) {
        assert(of_host@.subrange(0, cause@.len() as int) =~= cause@);
    }
}

/// Everything of the native host is below the home directory.
pub proof fn law_host_is_below_the_home_directory(home: &str, r: String)
    ensures
        directory(home@) ==> {
            &&& call_ensures(native_host_run_dir, (home,), r) ==> r@ == home@ + "/.apw/run"@
            &&& call_ensures(native_host_socket_path, (home,), r) ==> r@ == home@
                + "/.apw/run/native-host.sock"@
            &&& call_ensures(native_host_install_dir, (home,), r) ==> r@ == home@
                + "/Library/Application Support/APW/NativeHost"@
            &&& call_ensures(native_host_bundle_install_path, (home,), r) ==> r@ == home@
                + "/Library/Application Support/APW/NativeHost/APWNativeHost.app"@
            &&& call_ensures(native_host_launch_agents_dir, (home,), r) ==> r@ == home@
                + "/Library/LaunchAgents"@
            &&& call_ensures(native_host_launch_agent_path, (home,), r) ==> r@ == home@
                + "/Library/LaunchAgents/dev.omt.apw.nativehost.plist"@
        },
{
    if directory(home@) {
        lemma_host_paths(home@);
    }
}

/// The directories of the native host's socket are made for the user alone.
pub proof fn law_host_directories(home: &str, r: Vec<HostStep>)
    ensures
        call_ensures(ensure_native_host_runtime_dir, (home,), r) && directory(home@) ==> {
            &&& r@.len() == 2
            &&& r@[0]@ == StepModel::EnsureApwDir(home@ + "/.apw"@, 0o700)
            &&& r@[1]@ == StepModel::EnsureRunDir(home@ + "/.apw/run"@, 0o700)
        },
{
    if call_ensures(ensure_native_host_runtime_dir, (home,), r) && directory(home@) {
        lemma_host_paths(home@);
        let models = steps_model(r@);
        assert(models == run_dir_steps(home@));
        assert(models.len() == 2);
        assert(models[0] == r@[0]@ && models[1] == r@[1]@);
    }
}

/// The service of the native host is named by its label in the user's domain.
pub proof fn law_service_is_in_the_domain(uid: u32, domain: String, r: String)
    ensures
        call_ensures(launchctl_service_target, (uid,), r) && call_ensures(
            launchctl_domain,
            (uid,),
            domain,
        ) ==> r@ == domain@ + "/"@ + "dev.omt.apw.nativehost"@,
{
}

/// The note on the native host names its state.
pub proof fn law_note_names_the_state(
    env: &HostEnvironment,
    state: HostState,
    word: &'static str,
    note: String,
)
    ensures
        call_ensures(native_host_status_note, (env,), note) && call_ensures(
            native_host_preflight_state,
            (env,),
            state,
        ) && call_ensures(HostState::word, (state,), word) ==> occurs_in(note@, word@ + "`."@),
{
    if call_ensures(native_host_status_note, (env,), note) && call_ensures(
        native_host_preflight_state,
        (env,),
        state,
    ) && call_ensures(HostState::word, (state,), word) {
        let front =
            "Run `apw host doctor` or `apw status --json` and inspect `daemon.preflight`; current `daemon.preflight.status="@;
        let back = word@ + "`."@;
        assert(note@ =~= front + back);
        assert(note@.subrange(front.len() as int, (front.len() + back.len()) as int) =~= back);
        assert(occurs_at(note@, back, front.len() as int));
    }
}

/// The packaged native host is looked for beside the executable, and at last below the working
/// directory.
pub proof fn law_packaged_host_is_looked_for(
    executable_dir: &str,
    working_dir: &Option<String>,
    r: Vec<String>,
)
    ensures
        call_ensures(packaged_host_candidates, (executable_dir, working_dir), r) && directory(
            executable_dir@,
        ) && (working_dir matches Some(dir) ==> directory(dir@)) ==> {
            &&& r@.len() == if working_dir is Some {
                4int
            } else {
                3
            }
            &&& r@[0]@ == executable_dir@ + "/../libexec/APWNativeHost.app"@
            &&& r@[1]@ == executable_dir@ + "/../../libexec/APWNativeHost.app"@
            &&& r@[2]@ == executable_dir@ + "/../../../native-host/dist/APWNativeHost.app"@
            &&& working_dir matches Some(dir) ==> r@[3]@ == dir@
                + "/native-host/dist/APWNativeHost.app"@
        },
{
    if call_ensures(packaged_host_candidates, (executable_dir, working_dir), r) && directory(
        executable_dir@,
    ) && (working_dir matches Some(dir) ==> directory(dir@)) {
        lemma_package_places(executable_dir@);
        if working_dir is Some {
            lemma_package_places(working_dir->0@);
        }
        let places = texts(r@);
        assert(places == package_places(executable_dir@, opt_text(*working_dir)));
        assert(places.len() == r@.len());
        assert(places[0] == r@[0]@ && places[1] == r@[1]@ && places[2] == r@[2]@);
        if working_dir is Some {
            assert(places[3] == r@[3]@);
        }
    }
}

proof fn lemma_package_places(base: Seq<char>)
    requires
        directory(base),
    ensures
        joined(joined(base, "../libexec"@), "APWNativeHost.app"@) == base
            + "/../libexec/APWNativeHost.app"@,
        joined(joined(base, "../../libexec"@), "APWNativeHost.app"@) == base
            + "/../../libexec/APWNativeHost.app"@,
        joined(joined(base, "../../../native-host/dist"@), "APWNativeHost.app"@) == base
            + "/../../../native-host/dist/APWNativeHost.app"@,
        joined(joined(base, "native-host/dist"@), "APWNativeHost.app"@) == base
            + "/native-host/dist/APWNativeHost.app"@,
{
    reveal_strlit("/");
    reveal_strlit("APWNativeHost.app");
    reveal_strlit("../libexec");
    reveal_strlit("../../libexec");
    reveal_strlit("../../../native-host/dist");
    reveal_strlit("native-host/dist");
    reveal_strlit("/../libexec/APWNativeHost.app");
    reveal_strlit("/../../libexec/APWNativeHost.app");
    reveal_strlit("/../../../native-host/dist/APWNativeHost.app");
    reveal_strlit("/native-host/dist/APWNativeHost.app");
    lemma_joined(base, "../libexec"@);
    lemma_joined(base, "../../libexec"@);
    lemma_joined(base, "../../../native-host/dist"@);
    lemma_joined(base, "native-host/dist"@);
    lemma_joined(joined(base, "../libexec"@), "APWNativeHost.app"@);
    lemma_joined(joined(base, "../../libexec"@), "APWNativeHost.app"@);
    lemma_joined(joined(base, "../../../native-host/dist"@), "APWNativeHost.app"@);
    lemma_joined(joined(base, "native-host/dist"@), "APWNativeHost.app"@);
    assert(joined(joined(base, "../libexec"@), "APWNativeHost.app"@) =~= base
        + "/../libexec/APWNativeHost.app"@);
    assert(joined(joined(base, "../../libexec"@), "APWNativeHost.app"@) =~= base
        + "/../../libexec/APWNativeHost.app"@);
    assert(joined(joined(base, "../../../native-host/dist"@), "APWNativeHost.app"@) =~= base
        + "/../../../native-host/dist/APWNativeHost.app"@);
    assert(joined(joined(base, "native-host/dist"@), "APWNativeHost.app"@) =~= base
        + "/native-host/dist/APWNativeHost.app"@);
}

/// The version of a bundle is the text between the tags of the first string behind the version key
/// of its property list.
pub proof fn law_version_is_behind_its_key(content: String, r: Option<String>)
    ensures
        call_ensures(read_bundle_version, (&Some(content),), r) && r is Some ==> exists|
            front: Seq<char>,
            gap: Seq<char>,
            raw: Seq<char>,
            back: Seq<char>,
        |
            content@ == #[trigger] (front + "<key>CFBundleShortVersionString</key>"@ + gap
                + "<string>"@ + raw + "</string>"@ + back) && r->0@ == trimmed(raw),
        call_ensures(read_bundle_version, (&None::<String>,), r) ==> r is None,
{
    if call_ensures(read_bundle_version, (&Some(content),), r) && r is Some {
        let key = "<key>CFBundleShortVersionString</key>"@;
        let open = "<string>"@;
        let close = "</string>"@;
        let s = content@;
        lemma_first_place(s, key, 0);
        let at = first_at(s, key, 0)->0;
        let front = s.subrange(0, at);
        let rest = s.subrange(at + key.len(), s.len() as int);
        lemma_first_place(rest, open, 0);
        let second = first_at(rest, open, 0)->0;
        let gap = rest.subrange(0, second);
        let tail = rest.subrange(second + open.len(), rest.len() as int);
        lemma_first_place(tail, close, 0);
        let third = first_at(tail, close, 0)->0;
        let raw = tail.subrange(0, third);
        let back = tail.subrange(third + close.len(), tail.len() as int);
        assert(tail =~= raw + close + back);
        assert(rest =~= gap + open + tail);
        assert(s =~= front + key + rest);
        assert(s =~= front + key + gap + open + raw + close + back);
    }
}

/// Whether a path is one at which the manifest may be is whether it is one of the two at which it is
/// looked for.
pub proof fn law_manifest_paths(path: &str, safe: bool, searched: Vec<String>, nowhere: Vec<String>)
    ensures
        call_ensures(is_safe_manifest_path, (path,), safe) && call_ensures(
            manifest_search_paths,
            (true,),
            searched,
        ) ==> (safe <==> texts(searched@).contains(path@)),
        call_ensures(manifest_search_paths, (false,), nowhere) ==> nowhere@.len() == 0,
{
    if call_ensures(manifest_search_paths, (true,), searched) {
        let paths = texts(searched@);
        assert(paths.len() == 2);
        assert(paths[0] == crate::preflight::FIREFOX_MANIFEST@);
        assert(paths[1] == crate::preflight::CHROME_MANIFEST@);
    }
    assert(texts(nowhere@).len() == nowhere@.len());
}

/// A path is absolute where it begins with a slash and has no null character in it.
pub proof fn law_absolute_path(path: &str, r: bool)
    ensures
        call_ensures(is_absolute_unix_path, (path,), r) ==> (r <==> path@.len() > 0 && path@[0]
            == '/' && !path@.contains('\0')),
{
}

/// The ways to launch the helper in a mode are named by their words.
pub proof fn law_strategies_of_a_mode(mode: RuntimeMode, r: Vec<String>, ways: Vec<HelperBackend>)
    ensures
        call_ensures(launch_strategy_labels, (mode,), r) ==> texts(r@) == match mode {
            RuntimeMode::Native => seq!["native_host"@],
            RuntimeMode::Browser => seq!["browser_bridge"@],
            RuntimeMode::Direct => seq!["direct"@],
            RuntimeMode::Launchd => seq!["launchd_compatible"@],
            RuntimeMode::Auto => seq!["direct"@, "launchd_compatible"@],
            RuntimeMode::Disabled => Seq::empty(),
        },
        call_ensures(backend_selection, (mode,), ways) ==> {
            &&& mode == RuntimeMode::Auto ==> ways@ == seq![
                HelperBackend::Direct,
                HelperBackend::LaunchdCompatible,
            ]
            &&& mode == RuntimeMode::Direct ==> ways@ == seq![HelperBackend::Direct]
            &&& mode == RuntimeMode::Launchd ==> ways@ == seq![HelperBackend::LaunchdCompatible]
            &&& mode == RuntimeMode::Native || mode == RuntimeMode::Browser || mode
                == RuntimeMode::Disabled ==> ways@.len() == 0
        },
{
    if call_ensures(launch_strategy_labels, (mode,), r) {
        assert(texts(r@) == strategies(mode));
        match mode {
            RuntimeMode::Direct => {
                assert(strategies(mode) =~= seq!["direct"@]);
            },
            RuntimeMode::Launchd => {
                assert(strategies(mode) =~= seq!["launchd_compatible"@]);
            },
            RuntimeMode::Auto => {
                assert(strategies(mode) =~= seq!["direct"@, "launchd_compatible"@]);
            },
            _ => {},
        }
    }
}

/// The binary that is to be looked at is the one that the manifest names.
pub proof fn law_binary_is_named_by_the_manifest(content: String, r: Option<String>)
    ensures
        call_ensures(manifest_binary, (&Some(content),), r) && r is Some ==> (
        crate::json::json_parsed(encode_utf8(content@)) matches Some(value) && value.get("path"@)
            == Some(Json::Str(r->0@))),
{
}

/// The major version is the number in front of the first dot of a version.
pub proof fn law_major_version(text: &str, n: u64, rest: Seq<char>, r: Option<u32>)
    ensures
        call_ensures(parse_major_version, (text,), r) && n <= u32::MAX && (trimmed(text@) == decimal(
            n as nat,
        ) || trimmed(text@) == decimal(n as nat) + "."@ + rest) ==> r == Some(n as u32),
{
    reveal_strlit(".");
    lemma_decimal_reads(n as nat);
    let digits = decimal(n as nat);
    let version = trimmed(text@);
    lemma_first_place(version, "."@, 0);
    if version == digits {
        if let Some(at) = first_at(version, "."@, 0) {
            assert(version.subrange(at, at + 1)[0] == version[at]);
            assert(crate::text::is_digit(version[at]));
        }
    } else if version == digits + "."@ + rest {
        assert(version.subrange(digits.len() as int, digits.len() as int + 1) =~= "."@);
        assert(occurs_at(version, "."@, digits.len() as int));
        let at = first_at(version, "."@, 0)->0;
        if at < digits.len() {
            assert(version.subrange(at, at + 1)[0] == version[at]);
            assert(version[at] == digits[at]);
            assert(crate::text::is_digit(version[at]));
        }
        assert(version.subrange(0, at) =~= digits);
    }
}

/// A version that is set goes before the number in the environment, and that one before what the
/// system reports, which counts on macOS alone.
pub proof fn law_set_version_goes_first(
    set: Option<u32>,
    variable: &Option<String>,
    configured: Option<u32>,
    on_macos: bool,
    reported: &Option<String>,
    r: Option<u32>,
)
    ensures
        call_ensures(configured_macos_major_version, (set, variable), configured) ==> {
            &&& set is Some ==> configured == set
            &&& set is None && variable is None ==> configured is None
            &&& set is None && variable is Some ==> forall|n: u32| #[trigger]
                decimal(n as nat) == trimmed(variable->0@) ==> configured == Some(n)
        },
        call_ensures(current_macos_major_version, (configured, on_macos, reported), r) ==> {
            &&& configured is Some ==> r == configured
            &&& configured is None && (!on_macos || reported is None) ==> r is None
            &&& configured is None && on_macos && reported is Some ==> forall|n: u32| #[trigger]
                decimal(n as nat) == trimmed(reported->0@) ==> r == Some(n)
        },
{
    if variable is Some {
        assert forall|n: u32| #[trigger] decimal(n as nat) == trimmed(variable->0@) implies
            crate::text::small_number_of(trimmed(variable->0@)) == Some(n) by {
            lemma_decimal_reads(n as nat);
        }
    }
    if reported is Some {
        reveal_strlit(".");
        assert forall|n: u32| #[trigger] decimal(n as nat) == trimmed(reported->0@) implies
            crate::preflight::major_of(reported->0@) == Some(n) by {
            lemma_decimal_reads(n as nat);
            let version = trimmed(reported->0@);
            lemma_first_place(version, "."@, 0);
            if let Some(at) = first_at(version, "."@, 0) {
                assert(version.subrange(at, at + 1)[0] == version[at]);
                assert(crate::text::is_digit(version[at]));
            }
        }
    }
}

/// The note on the helper names how ready it is, in the word that the report gives.
pub proof fn law_note_names_how_ready_the_helper_is(
    env: &PreflightEnvironment,
    mode: RuntimeMode,
    report: JsonValue,
    note: String,
    word: Seq<char>,
)
    ensures
        call_ensures(helper_preflight_status_note, (env, mode), note) && call_ensures(
            helper_preflight_status,
            (env, mode),
            report,
        ) && report@.get("status"@) == Some(Json::Str(word)) && mode != RuntimeMode::Native && mode
            != RuntimeMode::Auto ==> occurs_in(note@, word + "`."@),
{
    if call_ensures(helper_preflight_status_note, (env, mode), note) && call_ensures(
        helper_preflight_status,
        (env, mode),
        report,
    ) && report@.get("status"@) == Some(Json::Str(word)) && mode != RuntimeMode::Native && mode
        != RuntimeMode::Auto {
        lemma_preflight_names();
        let front =
            "Run `apw status --json` and inspect `daemon.preflight`; current `daemon.preflight.status="@;
        let back = word + "`."@;
        assert(note@ =~= front + back);
        assert(note@.subrange(front.len() as int, (front.len() + back.len()) as int) =~= back);
        assert(occurs_at(note@, back, front.len() as int));
    }
}

/// Whether a member of an object is text that is not empty.
pub open spec fn has_text(value: Json, name: Seq<char>) -> bool {
    value.get(name) matches Some(Json::Str(text)) && text.len() > 0
}

/// A manifest has a name, a description, a path and a type.
pub proof fn law_manifest_is_filled_in(value: &JsonValue, r: bool)
    ensures
        call_ensures(is_manifest, (value,), r) && r ==> has_text(value@, "name"@) && has_text(
            value@,
            "description"@,
        ) && has_text(value@, "path"@) && has_text(value@, "type"@),
{
}

/// What `launchctl` printed comes out where it succeeded or may fail, and its complaint is the error
/// where it did not.
pub proof fn law_launchctl_is_heard(
    success: bool,
    stdout: &str,
    stderr: &str,
    allow_failure: bool,
    r: Result<String>,
)
    ensures
        call_ensures(interpret_launchctl, (success, stdout, stderr, allow_failure), r) ==> {
            &&& r is Ok <==> success || allow_failure
            &&& r is Ok && trimmed(stdout@).len() > 0 ==> r->Ok_0@ == trimmed(stdout@)
            &&& r is Ok && trimmed(stdout@).len() == 0 ==> r->Ok_0@ == trimmed(stderr@)
            &&& r is Err ==> r->Err_0.code == Status::ProcessNotRunning && (trimmed(stderr@).len()
                > 0 ==> r->Err_0.message@ == trimmed(stderr@))
        },
{
}

} // verus!
