//! What installing, launching and asking the APW app comes to.
use crate::error::{fails, Result};
use crate::host::{bundle_version, executable_in, read_bundle_version};
use crate::json::{json_parsed, plain, Json, JsonValue};
use crate::laws::names::{
    lemma_app_names, lemma_credential_names, lemma_doctor_names, lemma_launch_names,
    lemma_request_names, lemma_service_names,
};
use crate::laws::status::told;
use crate::native_app::{
    app_install_steps, app_package_places, app_report, app_steps_model, build_request, check_direct,
    default_credentials, default_credentials_payload, direct_arguments, doctor_report, doctor_steps,
    ensure_default_credentials_file, native_app_bundle_install_path, native_app_credentials_path,
    native_app_doctor, native_app_executable_in_bundle, native_app_install, native_app_install_dir,
    native_app_installed_report, native_app_launch, native_app_launched_report, native_app_login,
    native_app_prepare, native_app_runtime_dir, native_app_socket_path, native_app_status,
    native_app_status_path, packaged_app_candidates, packages_beside, parse_response, places_beside,
    read_direct_response, read_socket_response, AppEnvironment, AppStep, AppStepModel,
};
use crate::secrets::texts;
use crate::text::opt_text;
use crate::types::Status;
use crate::utils::joined;
use vstd::prelude::*;

verus! {

/// Whether a path can have components put behind it with a slash between.
pub open spec fn directory(path: Seq<char>) -> bool {
    path.len() > 0 && path[path.len() - 1] != '/'
}

pub(crate) proof fn lemma_joined(base: Seq<char>, name: Seq<char>)
    requires
        directory(base),
        directory(name),
    ensures
        joined(base, name) == base + "/"@ + name,
        directory(joined(base, name)),
{
    reveal_strlit("/");
}

/// A component below a directory below the home directory.
pub(crate) proof fn lemma_below(home: Seq<char>, front: Seq<char>, name: Seq<char>)
    requires
        directory(home),
        directory(name),
        front.len() > 0 ==> directory(front),
    ensures
        joined(home + front, name) == home + (front + "/"@ + name),
        directory(home + (front + "/"@ + name)),
{
    let base = home + front;
    assert(directory(base));
    lemma_joined(base, name);
    assert(base + "/"@ + name =~= home + (front + "/"@ + name));
}

/// A path in its parts.
proof fn lemma_apw_path()
    ensures
        "/.apw"@ == "/"@ + ".apw"@,
        directory("/.apw"@),
        directory(".apw"@),
{
    reveal_strlit("/");
    reveal_strlit(".apw");
    reveal_strlit("/.apw");
    assert("/.apw"@ =~= "/"@ + ".apw"@);
}

/// A path in its parts.
proof fn lemma_native_app_path()
    ensures
        "/.apw/native-app"@ == "/.apw"@ + "/"@ + "native-app"@,
        directory("/.apw/native-app"@),
        directory("native-app"@),
{
    reveal_strlit("/");
    reveal_strlit("/.apw");
    reveal_strlit("native-app");
    reveal_strlit("/.apw/native-app");
    assert("/.apw/native-app"@ =~= "/.apw"@ + "/"@ + "native-app"@);
}

/// A path in its parts.
proof fn lemma_credentials_path()
    ensures
        "/.apw/native-app/credentials.json"@ == "/.apw/native-app"@ + "/"@ + "credentials.json"@,
        directory("/.apw/native-app/credentials.json"@),
        directory("credentials.json"@),
{
    reveal_strlit("/");
    reveal_strlit("/.apw/native-app");
    reveal_strlit("credentials.json");
    reveal_strlit("/.apw/native-app/credentials.json");
    assert("/.apw/native-app/credentials.json"@ =~= "/.apw/native-app"@ + "/"@ + "credentials.json"@);
}

/// A path in its parts.
proof fn lemma_socket_path()
    ensures
        "/.apw/native-app/broker.sock"@ == "/.apw/native-app"@ + "/"@ + "broker.sock"@,
        directory("/.apw/native-app/broker.sock"@),
        directory("broker.sock"@),
{
    reveal_strlit("/");
    reveal_strlit("/.apw/native-app");
    reveal_strlit("broker.sock");
    reveal_strlit("/.apw/native-app/broker.sock");
    assert("/.apw/native-app/broker.sock"@ =~= "/.apw/native-app"@ + "/"@ + "broker.sock"@);
}

/// A path in its parts.
proof fn lemma_status_file_path()
    ensures
        "/.apw/native-app/status.json"@ == "/.apw/native-app"@ + "/"@ + "status.json"@,
        directory("/.apw/native-app/status.json"@),
        directory("status.json"@),
{
    reveal_strlit("/");
    reveal_strlit("/.apw/native-app");
    reveal_strlit("status.json");
    reveal_strlit("/.apw/native-app/status.json");
    assert("/.apw/native-app/status.json"@ =~= "/.apw/native-app"@ + "/"@ + "status.json"@);
}

/// A path in its parts.
proof fn lemma_stdout_path()
    ensures
        "/.apw/native-app/app.stdout.log"@ == "/.apw/native-app"@ + "/"@ + "app.stdout.log"@,
        directory("/.apw/native-app/app.stdout.log"@),
        directory("app.stdout.log"@),
{
    reveal_strlit("/");
    reveal_strlit("/.apw/native-app");
    reveal_strlit("app.stdout.log");
    reveal_strlit("/.apw/native-app/app.stdout.log");
    assert("/.apw/native-app/app.stdout.log"@ =~= "/.apw/native-app"@ + "/"@ + "app.stdout.log"@);
}

/// A path in its parts.
proof fn lemma_stderr_path()
    ensures
        "/.apw/native-app/app.stderr.log"@ == "/.apw/native-app"@ + "/"@ + "app.stderr.log"@,
        directory("/.apw/native-app/app.stderr.log"@),
        directory("app.stderr.log"@),
{
    reveal_strlit("/");
    reveal_strlit("/.apw/native-app");
    reveal_strlit("app.stderr.log");
    reveal_strlit("/.apw/native-app/app.stderr.log");
    assert("/.apw/native-app/app.stderr.log"@ =~= "/.apw/native-app"@ + "/"@ + "app.stderr.log"@);
}

/// A path in its parts.
proof fn lemma_installed_path()
    ensures
        "/.apw/native-app/installed"@ == "/.apw/native-app"@ + "/"@ + "installed"@,
        directory("/.apw/native-app/installed"@),
        directory("installed"@),
{
    reveal_strlit("/");
    reveal_strlit("/.apw/native-app");
    reveal_strlit("installed");
    reveal_strlit("/.apw/native-app/installed");
    assert("/.apw/native-app/installed"@ =~= "/.apw/native-app"@ + "/"@ + "installed"@);
}

/// A path in its parts.
proof fn lemma_bundle_path()
    ensures
        "/.apw/native-app/installed/APW.app"@ == "/.apw/native-app/installed"@ + "/"@ + "APW.app"@,
        directory("/.apw/native-app/installed/APW.app"@),
        directory("APW.app"@),
{
    reveal_strlit("/");
    reveal_strlit("/.apw/native-app/installed");
    reveal_strlit("APW.app");
    reveal_strlit("/.apw/native-app/installed/APW.app");
    assert("/.apw/native-app/installed/APW.app"@ =~= "/.apw/native-app/installed"@ + "/"@ + "APW.app"@);
}

/// A path in its parts.
proof fn lemma_contents_path()
    ensures
        "/.apw/native-app/installed/APW.app/Contents"@ == "/.apw/native-app/installed/APW.app"@ + "/"@ + "Contents"@,
        directory("/.apw/native-app/installed/APW.app/Contents"@),
        directory("Contents"@),
{
    reveal_strlit("/");
    reveal_strlit("/.apw/native-app/installed/APW.app");
    reveal_strlit("Contents");
    reveal_strlit("/.apw/native-app/installed/APW.app/Contents");
    assert("/.apw/native-app/installed/APW.app/Contents"@ =~= "/.apw/native-app/installed/APW.app"@ + "/"@ + "Contents"@);
}

/// A path in its parts.
proof fn lemma_macos_path()
    ensures
        "/.apw/native-app/installed/APW.app/Contents/MacOS"@ == "/.apw/native-app/installed/APW.app/Contents"@ + "/"@ + "MacOS"@,
        directory("/.apw/native-app/installed/APW.app/Contents/MacOS"@),
        directory("MacOS"@),
{
    reveal_strlit("/");
    reveal_strlit("/.apw/native-app/installed/APW.app/Contents");
    reveal_strlit("MacOS");
    reveal_strlit("/.apw/native-app/installed/APW.app/Contents/MacOS");
    assert("/.apw/native-app/installed/APW.app/Contents/MacOS"@ =~= "/.apw/native-app/installed/APW.app/Contents"@ + "/"@ + "MacOS"@);
}

/// A path in its parts.
proof fn lemma_executable_path()
    ensures
        "/.apw/native-app/installed/APW.app/Contents/MacOS/APW"@ == "/.apw/native-app/installed/APW.app/Contents/MacOS"@ + "/"@ + "APW"@,
        directory("/.apw/native-app/installed/APW.app/Contents/MacOS/APW"@),
        directory("APW"@),
{
    reveal_strlit("/");
    reveal_strlit("/.apw/native-app/installed/APW.app/Contents/MacOS");
    reveal_strlit("APW");
    reveal_strlit("/.apw/native-app/installed/APW.app/Contents/MacOS/APW");
    assert("/.apw/native-app/installed/APW.app/Contents/MacOS/APW"@ =~= "/.apw/native-app/installed/APW.app/Contents/MacOS"@ + "/"@ + "APW"@);
}

proof fn lemma_app_paths(home: Seq<char>)
    requires
        directory(home),
    ensures
        joined(home, ".apw"@) == home + "/.apw"@,
        joined(joined(home, ".apw"@), "native-app"@) == home + "/.apw/native-app"@,
        joined(joined(joined(home, ".apw"@), "native-app"@), "credentials.json"@) == home
            + "/.apw/native-app/credentials.json"@,
        joined(joined(joined(home, ".apw"@), "native-app"@), "broker.sock"@) == home
            + "/.apw/native-app/broker.sock"@,
        joined(joined(joined(home, ".apw"@), "native-app"@), "status.json"@) == home
            + "/.apw/native-app/status.json"@,
        joined(joined(joined(home, ".apw"@), "native-app"@), "app.stdout.log"@) == home
            + "/.apw/native-app/app.stdout.log"@,
        joined(joined(joined(home, ".apw"@), "native-app"@), "app.stderr.log"@) == home
            + "/.apw/native-app/app.stderr.log"@,
        joined(joined(joined(home, ".apw"@), "native-app"@), "installed"@) == home
            + "/.apw/native-app/installed"@,
        joined(
            joined(joined(joined(home, ".apw"@), "native-app"@), "installed"@),
            "APW.app"@,
        ) == home + "/.apw/native-app/installed/APW.app"@,
{
    lemma_apw_path();
    lemma_below(home, Seq::empty(), ".apw"@);
    assert(home + Seq::<char>::empty() =~= home);
    assert(Seq::<char>::empty() + "/"@ + ".apw"@ =~= "/.apw"@);
    lemma_native_app_path();
    lemma_below(home, "/.apw"@, "native-app"@);
    lemma_credentials_path();
    lemma_below(home, "/.apw/native-app"@, "credentials.json"@);
    lemma_socket_path();
    lemma_below(home, "/.apw/native-app"@, "broker.sock"@);
    lemma_status_file_path();
    lemma_below(home, "/.apw/native-app"@, "status.json"@);
    lemma_stdout_path();
    lemma_below(home, "/.apw/native-app"@, "app.stdout.log"@);
    lemma_stderr_path();
    lemma_below(home, "/.apw/native-app"@, "app.stderr.log"@);
    lemma_installed_path();
    lemma_below(home, "/.apw/native-app"@, "installed"@);
    lemma_bundle_path();
    lemma_below(home, "/.apw/native-app/installed"@, "APW.app"@);
}

/// Whether a value is the bootstrap credentials: one account, for the one supported domain.
pub open spec fn bootstrap(value: Json) -> bool {
    &&& value.get("demo"@) == Some(Json::Bool(true))
    &&& value.get("domains"@) == Some(Json::Arr(seq![Json::Str("example.com"@)]))
    &&& value.get("credentials"@) matches Some(Json::Arr(entries)) && {
        &&& entries.len() == 1
        &&& entries[0].get("domain"@) == Some(Json::Str("example.com"@))
        &&& entries[0].get("url"@) == Some(Json::Str("https://example.com"@))
        &&& entries[0].get("username"@) == Some(Json::Str("demo@example.com"@))
        &&& entries[0].get("password"@) == Some(Json::Str("apw-demo-password"@))
    }
}

proof fn lemma_bootstrap()
    ensures
        bootstrap(default_credentials()),
{
    lemma_credential_names();
}

/// The bootstrap credentials are one account with its user name under `username` and its password
/// under `password`.
pub proof fn law_bootstrap_credentials(r: JsonValue)
    ensures
        call_ensures(default_credentials_payload, (), r) ==> bootstrap(r@),
{
    lemma_bootstrap();
}

/// Installing the app, wherever the home directory is: the directories and the credentials are made
/// for the user alone, the package is found before the installed bundle is replaced, and whatever
/// is written as credentials reads as the bootstrap credentials.
pub proof fn law_install_puts_the_app_in_place(home: &str, r: Vec<AppStep>)
    ensures
        call_ensures(native_app_install, (home,), r) && directory(home@) ==> {
            &&& r@.len() == 10
            &&& r@[0]@ == AppStepModel::EnsureApwDir(home@ + "/.apw"@, 0o700)
            &&& r@[1]@ == AppStepModel::EnsureRuntimeDir(home@ + "/.apw/native-app"@, 0o700)
            &&& r@[2] is EnsureCredentials
            &&& r@[3] is FindPackage
            &&& r@[4]@ == AppStepModel::EnsureInstallDir(
                home@ + "/.apw/native-app/installed"@,
                0o700,
            )
            &&& r@[5]@ == AppStepModel::ReplaceBundle(
                home@ + "/.apw/native-app/installed/APW.app"@,
                0o755,
            )
            &&& forall|i: int|
                0 <= i < r@.len() ==> ((#[trigger] r@[i]) matches AppStep::EnsureCredentials(
                    path,
                    content,
                    mode,
                ) ==> {
                    &&& path@ == home@ + "/.apw/native-app/credentials.json"@
                    &&& mode == 0o600
                    &&& json_parsed(content@) matches Some(value) && bootstrap(value)
                })
        },
{
    if call_ensures(native_app_install, (home,), r) && directory(home@) {
        lemma_app_paths(home@);
        lemma_bootstrap();
        let models = app_steps_model(r@);
        assert(models == app_install_steps(home@));
        assert(models.len() == 10);
        assert forall|i: int| 0 <= i < r@.len() implies models[i] == (#[trigger] r@[i])@ by {}
        assert(models[0] == r@[0]@ && models[1] == r@[1]@ && models[2] == r@[2]@ && models[3]
            == r@[3]@ && models[4] == r@[4]@ && models[5] == r@[5]@);
        let writes = AppStepModel::EnsureCredentials(
            home@ + "/.apw/native-app/credentials.json"@,
            crate::json::json_pretty_text(default_credentials()),
            0o600,
        );
        assert(models[2] == writes);
        assert(models[6] == writes);
        assert(models[9] == writes);
        assert(models[3] == AppStepModel::FindPackage);
        assert(models[7] == AppStepModel::EnsureApwDir(home@ + "/.apw"@, 0o700));
        assert(models[8] == AppStepModel::EnsureRuntimeDir(home@ + "/.apw/native-app"@, 0o700));
        assert forall|i: int| 0 <= i < r@.len() && (#[trigger] r@[i]) is EnsureCredentials implies
            models[i] == writes by {
            assert(models[i] == r@[i]@);
        }
    }
}

/// Before the doctor reports, the runtime directory and the credentials are there, for the user
/// alone.
pub proof fn law_doctor_sees_to_the_credentials(home: &str, r: Vec<AppStep>)
    ensures
        call_ensures(native_app_prepare, (home,), r) && directory(home@) ==> {
            &&& r@.len() == 3
            &&& r@[0]@ == AppStepModel::EnsureApwDir(home@ + "/.apw"@, 0o700)
            &&& r@[1]@ == AppStepModel::EnsureRuntimeDir(home@ + "/.apw/native-app"@, 0o700)
            &&& r@[2] matches AppStep::EnsureCredentials(path, content, mode) && {
                &&& path@ == home@ + "/.apw/native-app/credentials.json"@
                &&& mode == 0o600
                &&& json_parsed(content@) matches Some(value) && bootstrap(value)
            }
        },
{
    if call_ensures(native_app_prepare, (home,), r) && directory(home@) {
        lemma_app_paths(home@);
        lemma_bootstrap();
        let models = app_steps_model(r@);
        assert(models == doctor_steps(home@));
        assert(models.len() == 3);
        assert(models[0] == r@[0]@ && models[1] == r@[1]@ && models[2] == r@[2]@);
    }
}

/// The report on the app tells what is on the machine: where the bundle, its executable, the socket
/// and the credentials are below the home directory, whether they are there, the version of the
/// bundle, and what the service says.
pub proof fn law_app_report_tells_what_is_there(
    env: &AppEnvironment,
    version: Option<String>,
    r: JsonValue,
)
    ensures
        call_ensures(native_app_status, (env,), r) && call_ensures(
            read_bundle_version,
            (&env.bundle_info,),
            version,
        ) && directory(env.home@) ==> app_told(r@, *env, version),
{
    if directory(env.home@) {
        lemma_app_told(*env, version);
    }
}

/// The doctor's report has the whole report on the app in it, and what to do.
pub proof fn law_doctor_reports_the_app(
    env: &AppEnvironment,
    version: Option<String>,
    r: JsonValue,
)
    ensures
        call_ensures(native_app_doctor, (env,), r) && call_ensures(
            read_bundle_version,
            (&env.bundle_info,),
            version,
        ) && directory(env.home@) ==> {
            &&& app_told(r@, *env, version)
            &&& r@.get("releaseLine"@)->0.get("target"@) == Some(Json::Str("v2.0.0"@))
            &&& r@.get("releaseLine"@)->0.get("version"@) == Some(Json::Str("2.0.0"@))
            &&& r@.get("frameworks"@)->0.get("authenticationServicesLinked"@) == Some(
                Json::Bool(true),
            )
            &&& r@.get("frameworks"@)->0.get("associatedDomainsConfigured"@) == Some(
                Json::Arr(seq![Json::Str("example.com"@)]),
            )
            &&& r@.get("guidance"@) matches Some(Json::Arr(lines)) && lines.len() == 4
        },
{
    if directory(env.home@) {
        lemma_app_told(*env, version);
        lemma_app_names();
        lemma_doctor_names();
    }
}

/// The report on an installation has the version and the place of the bundle, and the doctor's
/// report.
pub proof fn law_install_report(
    env: &AppEnvironment,
    version: Option<String>,
    doctor: JsonValue,
    r: JsonValue,
)
    ensures
        call_ensures(native_app_installed_report, (env,), r) && call_ensures(
            read_bundle_version,
            (&env.bundle_info,),
            version,
        ) && call_ensures(native_app_doctor, (env,), doctor) && directory(env.home@) ==> {
            &&& r@.get("status"@) == Some(Json::Str("installed"@))
            &&& r@.get("version"@) == Some(told(version))
            &&& r@.get("bundlePath"@) == Some(
                Json::Str(env.home@ + "/.apw/native-app/installed/APW.app"@),
            )
            &&& r@.get("doctor"@) == Some(doctor@)
        },
{
    if directory(env.home@) {
        lemma_app_paths(env.home@);
        lemma_launch_names();
    }
}

/// The app is started only where it is installed and does not run yet. Where it runs, the report
/// says so; where it is not installed or its executable is missing, that is the error.
pub proof fn law_launch_starts_only_what_is_installed(
    env: &AppEnvironment,
    r: Result<Option<JsonValue>>,
)
    ensures
        call_ensures(native_app_launch, (env,), r) ==> {
            &&& r is Ok <==> env.bundle_exists && env.executable_exists
            &&& r matches Err(error) ==> error.code == Status::ProcessNotRunning
            &&& r matches Ok(report) ==> (report is Some <==> env.socket_running)
            &&& r matches Ok(Some(report)) ==> report@.get("status"@) == Some(
                Json::Str("running"@),
            ) && (directory(env.home@) ==> {
                &&& report@.get("bundlePath"@) == Some(
                    Json::Str(env.home@ + "/.apw/native-app/installed/APW.app"@),
                )
                &&& report@.get("socketPath"@) == Some(
                    Json::Str(env.home@ + "/.apw/native-app/broker.sock"@),
                )
            })
        },
{
    if directory(env.home@) {
        lemma_app_paths(env.home@);
    }
    lemma_launch_names();
}

/// After a start the report says whether the socket answers yet, and where the socket and the logs
/// are.
pub proof fn law_launch_report(home: &str, running: bool, r: JsonValue)
    ensures
        call_ensures(native_app_launched_report, (home, running), r) && directory(home@) ==> {
            &&& r@.get("status"@) == Some(
                Json::Str(
                    if running {
                        "launched"@
                    } else {
                        "starting"@
                    },
                ),
            )
            &&& r@.get("bundlePath"@) == Some(
                Json::Str(home@ + "/.apw/native-app/installed/APW.app"@),
            )
            &&& r@.get("socketPath"@) == Some(Json::Str(home@ + "/.apw/native-app/broker.sock"@))
            &&& r@.get("stdoutLog"@) == Some(Json::Str(home@ + "/.apw/native-app/app.stdout.log"@))
            &&& r@.get("stderrLog"@) == Some(Json::Str(home@ + "/.apw/native-app/app.stderr.log"@))
        },
{
    if directory(home@) {
        lemma_app_paths(home@);
    }
    lemma_launch_names();
}

/// Whether a report tells what is there of the app.
pub open spec fn app_told(report: Json, env: AppEnvironment, version: Option<String>) -> bool {
    let home = env.home@;
    let service = report.get("service"@)->0;
    &&& report.get("bundlePath"@) == Some(
        Json::Str(home + "/.apw/native-app/installed/APW.app"@),
    )
    &&& report.get("installed"@) == Some(Json::Bool(env.bundle_exists))
    &&& report.get("executablePath"@) == Some(
        Json::Str(home + "/.apw/native-app/installed/APW.app/Contents/MacOS/APW"@),
    )
    &&& report.get("executableExists"@) == Some(Json::Bool(env.executable_exists))
    &&& report.get("bundleVersion"@) == Some(told(version))
    &&& report.get("socketPath"@) == Some(Json::Str(home + "/.apw/native-app/broker.sock"@))
    &&& report.get("credentialsPath"@) == Some(
        Json::Str(home + "/.apw/native-app/credentials.json"@),
    )
    &&& report.get("service"@) is Some
    &&& service.get("running"@) == Some(Json::Bool(env.socket_running))
    &&& service.get("statusFile"@) == Some(Json::Str(home + "/.apw/native-app/status.json"@))
    &&& service.get("lastKnown"@) == Some(
        match env.status_file {
            Some(value) => value@,
            None => Json::Null,
        },
    )
    &&& service.get("live"@) == Some(
        match env.live_status {
            Some(value) => value@,
            None => Json::Null,
        },
    )
    &&& service.get("transport"@) == Some(Json::Str("unix_socket"@))
    &&& service.get("transportContract"@) == Some(Json::Str("typed_json_envelope"@))
}

proof fn lemma_app_executable(home: Seq<char>)
    requires
        directory(home),
    ensures
        executable_in(home + "/.apw/native-app/installed/APW.app"@, "APW"@) == home
            + "/.apw/native-app/installed/APW.app/Contents/MacOS/APW"@,
{
    lemma_bundle_path();
    lemma_contents_path();
    lemma_below(home, "/.apw/native-app/installed/APW.app"@, "Contents"@);
    lemma_macos_path();
    lemma_below(home, "/.apw/native-app/installed/APW.app/Contents"@, "MacOS"@);
    lemma_executable_path();
    lemma_below(home, "/.apw/native-app/installed/APW.app/Contents/MacOS"@, "APW"@);
}

proof fn lemma_app_told(env: AppEnvironment, version: Option<String>)
    requires
        directory(env.home@),
    ensures
        opt_text(version) == bundle_version(env.bundle_info) ==> {
            &&& app_told(Json::Obj(app_report(env)), env, version)
            &&& app_told(doctor_report(env), env, version)
        },
{
    lemma_app_paths(env.home@);
    lemma_app_executable(env.home@);
    lemma_app_names();
    lemma_service_names();
}

/// A request to the app reads as its command and its payload, under the given id.
pub proof fn law_app_request_reads_back(
    id: &str,
    command: &str,
    payload: JsonValue,
    r: Result<Vec<u8>>,
)
    ensures
        call_ensures(build_request, (id, command, payload), r) && r is Ok ==> {
            &&& r->Ok_0@.len() <= 16 * 1024
            &&& plain(payload@, 99) ==> (json_parsed(r->Ok_0@) matches Some(request) && {
                &&& request.get("command"@) == Some(Json::Str(command@))
                &&& request.get("payload"@) == Some(payload@)
                &&& request.get("requestId"@) == Some(Json::Str("req-"@ + id@))
            })
        },
{
    lemma_request_names();
}

/// Logging in at a site asks the app for that site, over the socket and directly: what the app reads
/// is the command `login` with the given URL under `url`.
pub proof fn law_login_asks_for_the_site(
    url: &str,
    asked: (String, JsonValue),
    id: &str,
    command: &str,
    over_socket: Result<Vec<u8>>,
    directly: (String, String, Vec<u8>),
)
    ensures
        call_ensures(native_app_login, (url,), asked) && command@ == asked.0@ ==> {
            &&& asked.0@ == "login"@
            &&& asked.1@.get("url"@) == Some(Json::Str(url@))
            &&& call_ensures(build_request, (id, command, asked.1), over_socket) && over_socket is Ok
                ==> (json_parsed(over_socket->Ok_0@) matches Some(request) && request.get(
                "command"@,
            ) == Some(Json::Str("login"@)) && request.get("payload"@)->0.get("url"@) == Some(
                Json::Str(url@),
            ))
            &&& call_ensures(direct_arguments, (command, &asked.1), directly) ==> {
                &&& directly.0@ == "request"@
                &&& directly.1@ == "login"@
                &&& json_parsed(directly.2@) matches Some(payload) && payload.get("url"@) == Some(
                    Json::Str(url@),
                )
            }
        },
{
    lemma_request_names();
    if call_ensures(native_app_login, (url,), asked) && command@ == asked.0@ {
        reveal_with_fuel(plain, 3);
        let members = asked.1@->Obj_0;
        assert forall|k: Seq<char>| members.dom().contains(k) implies #[trigger] members[k]
            == Json::Str(url@) by {
            assert(k == "url"@);
        }
        assert(plain(asked.1@, 99));
        assert(plain(asked.1@, 100));
    }
}

/// What the app answers is what comes out: the payload of a success, the status and the message of a
/// failure.
pub proof fn law_app_answer_comes_out(
    answer: &JsonValue,
    code: Status,
    number: i32,
    bytes: &[u8],
    parsed: Result<JsonValue>,
    over_socket: Result<JsonValue>,
    directly: Result<JsonValue>,
)
    ensures
        call_ensures(parse_response, (answer,), parsed) ==> app_answers(answer@, parsed),
        json_parsed(bytes@) == Some(answer@) && bytes@.len() <= 16 * 1024 ==> {
            &&& call_ensures(read_socket_response, (bytes,), over_socket) ==> app_answers(
                answer@,
                over_socket,
            )
            &&& call_ensures(read_direct_response, (bytes,), directly) ==> app_answers(
                answer@,
                directly,
            )
        },
{
    assert forall|status: Status, n: i32| #[trigger] call_ensures(Status::code, (status,), n)
        implies crate::types::status_of_json(Json::Int(n as int)) == Some(status) by {
        crate::types::law_status_code_round_trip(status, n as i64);
    }
}

/// Whether an outcome is what an answer of the app says.
pub open spec fn app_answers(answer: Json, r: Result<JsonValue>) -> bool {
    &&& answer.get("ok"@) == Some(Json::Bool(true)) && answer.get("payload"@) is Some ==> r is Ok
        && Some(r->Ok_0@) == answer.get("payload"@)
    &&& r is Ok ==> answer.get("ok"@) == Some(Json::Bool(true)) && answer.get("payload"@) == Some(
        r->Ok_0@,
    )
    &&& answer.get("ok"@) == Some(Json::Bool(false)) && answer.get("error"@) is Some ==> (
    answer.get("error"@)->0 matches Json::Str(text) ==> forall|status: Status, n: i32| #[trigger]
        call_ensures(Status::code, (status,), n) && answer.get("code"@) == Some(Json::Int(n as int))
            ==> fails(r, status, text))
}

/// Everything of the app is below the home directory.
pub proof fn law_app_is_below_the_home_directory(home: &str, bundle: &str, r: String)
    ensures
        directory(home@) ==> {
            &&& call_ensures(native_app_runtime_dir, (home,), r) ==> r@ == home@
                + "/.apw/native-app"@
            &&& call_ensures(native_app_socket_path, (home,), r) ==> r@ == home@
                + "/.apw/native-app/broker.sock"@
            &&& call_ensures(native_app_status_path, (home,), r) ==> r@ == home@
                + "/.apw/native-app/status.json"@
            &&& call_ensures(native_app_credentials_path, (home,), r) ==> r@ == home@
                + "/.apw/native-app/credentials.json"@
            &&& call_ensures(native_app_install_dir, (home,), r) ==> r@ == home@
                + "/.apw/native-app/installed"@
            &&& call_ensures(native_app_bundle_install_path, (home,), r) ==> r@ == home@
                + "/.apw/native-app/installed/APW.app"@
        },
        directory(bundle@) && call_ensures(native_app_executable_in_bundle, (bundle,), r) ==> r@
            == bundle@ + "/Contents/MacOS/APW"@,
{
    if directory(home@) {
        lemma_app_paths(home@);
    }
    if directory(bundle@) {
        lemma_executable_below(bundle@);
    }
}

proof fn lemma_executable_below(bundle: Seq<char>)
    requires
        directory(bundle),
    ensures
        executable_in(bundle, "APW"@) == bundle + "/Contents/MacOS/APW"@,
{
    reveal_strlit("/");
    reveal_strlit("Contents");
    reveal_strlit("MacOS");
    reveal_strlit("APW");
    reveal_strlit("/Contents/MacOS/APW");
    lemma_joined(bundle, "Contents"@);
    lemma_joined(joined(bundle, "Contents"@), "MacOS"@);
    lemma_joined(joined(joined(bundle, "Contents"@), "MacOS"@), "APW"@);
    assert(executable_in(bundle, "APW"@) =~= bundle + "/Contents/MacOS/APW"@);
}

/// The step that sees to the credentials writes the bootstrap credentials, for the user alone, at
/// their place.
pub proof fn law_credentials_step(home: &str, r: AppStep)
    ensures
        call_ensures(ensure_default_credentials_file, (home,), r) && directory(home@) ==> (
        r matches AppStep::EnsureCredentials(path, content, mode) && {
            &&& path@ == home@ + "/.apw/native-app/credentials.json"@
            &&& mode == 0o600
            &&& json_parsed(content@) matches Some(value) && bootstrap(value)
        }),
{
    if directory(home@) {
        lemma_app_paths(home@);
        lemma_bootstrap();
    }
}

/// The packaged app is looked for below the working directory and above it, and then in the places
/// beside the executable, in the order in which they are given.
pub proof fn law_package_is_looked_for(
    working_dir: &str,
    beside: Vec<String>,
    r: Vec<String>,
    executable_dir: &str,
    near: Vec<String>,
)
    ensures
        call_ensures(packaged_app_candidates, (working_dir, beside), r) && directory(working_dir@)
            ==> {
            &&& r@.len() == 3 + beside@.len()
            &&& r@[0]@ == working_dir@ + "/native-app/dist/APW.app"@
            &&& r@[1]@ == working_dir@ + "/../native-app/dist/APW.app"@
            &&& r@[2]@ == working_dir@ + "/../../native-app/dist/APW.app"@
            &&& forall|i: int| 0 <= i < beside@.len() ==> (#[trigger] beside@[i])@ == r@[3 + i]@
        },
        call_ensures(packages_beside, (executable_dir,), near) && directory(executable_dir@) ==> {
            &&& near@.len() == 2
            &&& near@[0]@ == executable_dir@ + "/../libexec/APW.app"@
            &&& near@[1]@ == executable_dir@ + "/../../native-app/dist/APW.app"@
        },
{
    if call_ensures(packaged_app_candidates, (working_dir, beside), r) && directory(working_dir@) {
        lemma_dist_places(working_dir@);
        let places = texts(r@);
        assert(places == app_package_places(working_dir@, texts(beside@)));
        assert(places.len() == 3 + beside@.len());
        assert(places[0] == r@[0]@ && places[1] == r@[1]@ && places[2] == r@[2]@);
        assert forall|i: int| 0 <= i < beside@.len() implies (#[trigger] beside@[i])@ == r@[3 + i]@ by {
            assert(texts(beside@)[i] == beside@[i]@);
            assert(places[3 + i] == r@[3 + i]@);
        }
    }
    if call_ensures(packages_beside, (executable_dir,), near) && directory(executable_dir@) {
        lemma_beside_places(executable_dir@);
        let places = texts(near@);
        assert(places == places_beside(executable_dir@));
        assert(places.len() == 2);
        assert(places[0] == near@[0]@ && places[1] == near@[1]@);
    }
}

proof fn lemma_dist_places(base: Seq<char>)
    requires
        directory(base),
    ensures
        joined(joined(joined(base, "native-app"@), "dist"@), "APW.app"@) == base
            + "/native-app/dist/APW.app"@,
        joined(joined(joined(base, "../native-app"@), "dist"@), "APW.app"@) == base
            + "/../native-app/dist/APW.app"@,
        joined(joined(joined(base, "../../native-app"@), "dist"@), "APW.app"@) == base
            + "/../../native-app/dist/APW.app"@,
{
    reveal_strlit("/");
    reveal_strlit("dist");
    reveal_strlit("APW.app");
    reveal_strlit("native-app");
    reveal_strlit("../native-app");
    reveal_strlit("../../native-app");
    reveal_strlit("/native-app/dist/APW.app");
    reveal_strlit("/../native-app/dist/APW.app");
    reveal_strlit("/../../native-app/dist/APW.app");
    lemma_joined(base, "native-app"@);
    lemma_joined(base, "../native-app"@);
    lemma_joined(base, "../../native-app"@);
    lemma_joined(joined(base, "native-app"@), "dist"@);
    lemma_joined(joined(base, "../native-app"@), "dist"@);
    lemma_joined(joined(base, "../../native-app"@), "dist"@);
    lemma_joined(joined(joined(base, "native-app"@), "dist"@), "APW.app"@);
    lemma_joined(joined(joined(base, "../native-app"@), "dist"@), "APW.app"@);
    lemma_joined(joined(joined(base, "../../native-app"@), "dist"@), "APW.app"@);
    assert(joined(joined(joined(base, "native-app"@), "dist"@), "APW.app"@) =~= base
        + "/native-app/dist/APW.app"@);
    assert(joined(joined(joined(base, "../native-app"@), "dist"@), "APW.app"@) =~= base
        + "/../native-app/dist/APW.app"@);
    assert(joined(joined(joined(base, "../../native-app"@), "dist"@), "APW.app"@) =~= base
        + "/../../native-app/dist/APW.app"@);
}

proof fn lemma_beside_places(base: Seq<char>)
    requires
        directory(base),
    ensures
        joined(joined(base, "../libexec"@), "APW.app"@) == base + "/../libexec/APW.app"@,
        joined(joined(base, "../../native-app/dist"@), "APW.app"@) == base
            + "/../../native-app/dist/APW.app"@,
{
    reveal_strlit("/");
    reveal_strlit("APW.app");
    reveal_strlit("../libexec");
    reveal_strlit("../../native-app/dist");
    reveal_strlit("/../libexec/APW.app");
    reveal_strlit("/../../native-app/dist/APW.app");
    lemma_joined(base, "../libexec"@);
    lemma_joined(base, "../../native-app/dist"@);
    lemma_joined(joined(base, "../libexec"@), "APW.app"@);
    lemma_joined(joined(base, "../../native-app/dist"@), "APW.app"@);
    assert(joined(joined(base, "../libexec"@), "APW.app"@) =~= base + "/../libexec/APW.app"@);
    assert(joined(joined(base, "../../native-app/dist"@), "APW.app"@) =~= base
        + "/../../native-app/dist/APW.app"@);
}

/// The executable is asked directly only where the app is installed.
pub proof fn law_direct_request_needs_the_app(bundle_exists: bool, r: Result<()>)
    ensures
        call_ensures(check_direct, (bundle_exists,), r) ==> {
            &&& r is Ok <==> bundle_exists
            &&& r is Err ==> r->Err_0.code == Status::ProcessNotRunning
        },
{
}

} // verus!
