//! The native host: where it is installed, whether it is ready, and what to tell the operator.
//! What is found on the machine is the caller's to find out.
use crate::error::{fails, APWError, Result};
use crate::json::{text_or_null, Json, JsonValue};
use crate::text::{
    after_first, before_first, cat, cat3, decimal, decimal_u64, opt_text, owned, text_after,
    text_before, trim, trimmed,
};
use crate::types::{mode_word, RuntimeMode, Status};
use crate::utils::{find_first, first_true, join_path, joined};
use vstd::prelude::*;

verus! {

pub const NATIVE_HOST_LABEL: &'static str = "dev.omt.apw.nativehost";

pub const NATIVE_HOST_BUNDLE_NAME: &'static str = "APWNativeHost.app";

pub const NATIVE_HOST_EXECUTABLE_NAME: &'static str = "APWNativeHost";

pub const HELPER_BINARY_PATH: &'static str =
    "/System/Cryptexes/App/System/Library/CoreServices/PasswordManagerBrowserExtensionHelper.app/Contents/MacOS/PasswordManagerBrowserExtensionHelper";

/// The file mode of the directories of the native host.
pub const NATIVE_HOST_DIR_MODE: u32 = 0o700;

/// The file mode of the launch agent.
pub const LAUNCH_AGENT_MODE: u32 = 0o644;

pub const UNSUPPORTED_HOST: &'static str = "APW native host is supported only on macOS.";

/// Answers that take the place of what is found on the machine.
#[derive(Debug, Clone, Copy, PartialEq, Eq, Structural)]
pub struct HostOverrides {
    pub supported_platform: Option<bool>,
    pub launch_agent_loaded: Option<bool>,
    pub helper_executable: Option<bool>,
    pub macos_major_version: Option<u32>,
}

/// What is found on the machine.
#[derive(Debug)]
pub struct HostEnvironment {
    pub home: String,
    pub os: String,
    pub arch: String,
    pub on_macos: bool,
    pub macos_major_version: Option<u32>,
    pub bundle_exists: bool,
    pub bundle_info: Option<String>,
    pub launch_agent_exists: bool,
    pub launch_agent_loaded: bool,
    pub helper_executable: bool,
    pub socket_exists: bool,
    pub overrides: HostOverrides,
}

/// No overrides.
pub open spec fn no_overrides() -> HostOverrides {
    HostOverrides {
        supported_platform: None,
        launch_agent_loaded: None,
        helper_executable: None,
        macos_major_version: None,
    }
}

impl Default for HostOverrides {
    fn default() -> (r: HostOverrides)
        ensures
            r == no_overrides(),
    {
        HostOverrides {
            supported_platform: None,
            launch_agent_loaded: None,
            helper_executable: None,
            macos_major_version: None,
        }
    }
}

/// Sets the overrides.
pub fn set_native_host_preflight_overrides_for_tests(
    overrides: &mut HostOverrides,
    supported_platform: Option<bool>,
    launch_agent_loaded: Option<bool>,
    helper_executable: Option<bool>,
    macos_major_version: Option<u32>,
)
    ensures
        *final(overrides) == (HostOverrides {
            supported_platform,
            launch_agent_loaded,
            helper_executable,
            macos_major_version,
        }),
{
    *overrides =
    HostOverrides { supported_platform, launch_agent_loaded, helper_executable, macos_major_version };
}

/// Lifts the overrides.
pub fn clear_native_host_test_overrides(overrides: &mut HostOverrides)
    ensures
        *final(overrides) == no_overrides(),
{
    *overrides = HostOverrides::default();
}

impl HostEnvironment {
    /// Whether the platform is supported.
    pub open spec fn supported(self) -> bool {
        match self.overrides.supported_platform {
            Some(value) => value,
            None => self.on_macos,
        }
    }

    /// Whether the launch agent is loaded.
    pub open spec fn agent_loaded(self) -> bool {
        match self.overrides.launch_agent_loaded {
            Some(value) => value,
            None => self.launch_agent_loaded,
        }
    }

    /// Whether the helper can be executed.
    pub open spec fn helper_ready(self) -> bool {
        match self.overrides.helper_executable {
            Some(value) => value,
            None => self.helper_executable,
        }
    }

    /// The major version of macOS.
    pub open spec fn major_version(self) -> Option<u32> {
        match self.overrides.macos_major_version {
            Some(value) => Some(value),
            None => if self.supported() {
                self.macos_major_version
            } else {
                None
            },
        }
    }
}

/// Whether the platform is supported.
pub fn native_host_supported_platform(env: &HostEnvironment) -> (r: bool)
    ensures
        r == env.supported(),
{
    match env.overrides.supported_platform {
        Some(value) => value,
        None => env.on_macos,
    }
}

/// Whether the native host can run here.
pub fn native_host_runtime_supported(env: &HostEnvironment) -> (r: bool)
    ensures
        r == env.supported(),
{
    native_host_supported_platform(env)
}

fn launch_agent_loaded(env: &HostEnvironment) -> (r: bool)
    ensures
        r == env.agent_loaded(),
{
    match env.overrides.launch_agent_loaded {
        Some(value) => value,
        None => env.launch_agent_loaded,
    }
}

fn helper_executable(env: &HostEnvironment) -> (r: bool)
    ensures
        r == env.helper_ready(),
{
    match env.overrides.helper_executable {
        Some(value) => value,
        None => env.helper_executable,
    }
}

fn native_host_macos_major_version(env: &HostEnvironment) -> (r: Option<u32>)
    ensures
        r == env.major_version(),
{
    match env.overrides.macos_major_version {
        Some(value) => Some(value),
        None => if native_host_supported_platform(env) {
            env.macos_major_version
        } else {
            None
        },
    }
}

/// The directory of everything that is kept for the user.
pub open spec fn apw_dir(home: Seq<char>) -> Seq<char> {
    joined(home, ".apw"@)
}

/// The directory of the native host's socket.
pub open spec fn run_dir(home: Seq<char>) -> Seq<char> {
    joined(apw_dir(home), "run"@)
}

/// The native host's socket.
pub open spec fn socket_path(home: Seq<char>) -> Seq<char> {
    joined(run_dir(home), "native-host.sock"@)
}

/// The directory in which the native host is installed.
pub open spec fn install_dir(home: Seq<char>) -> Seq<char> {
    joined(
        joined(joined(joined(home, "Library"@), "Application Support"@), "APW"@),
        "NativeHost"@,
    )
}

/// The installed application bundle.
pub open spec fn bundle_path(home: Seq<char>) -> Seq<char> {
    joined(install_dir(home), NATIVE_HOST_BUNDLE_NAME@)
}

/// The directory of the user's launch agents.
pub open spec fn launch_agents_dir(home: Seq<char>) -> Seq<char> {
    joined(joined(home, "Library"@), "LaunchAgents"@)
}

/// The launch agent of the native host.
pub open spec fn launch_agent_path(home: Seq<char>) -> Seq<char> {
    joined(launch_agents_dir(home), NATIVE_HOST_LABEL@ + ".plist"@)
}

/// The executable of an application bundle.
pub open spec fn executable_in(bundle: Seq<char>, name: Seq<char>) -> Seq<char> {
    joined(joined(joined(bundle, "Contents"@), "MacOS"@), name)
}

/// The directory of the native host's socket.
pub fn native_host_run_dir(home: &str) -> (r: String)
    ensures
        r@ == run_dir(home@),
{
    join_path(join_path(home, ".apw").as_str(), "run")
}

/// The native host's socket.
pub fn native_host_socket_path(home: &str) -> (r: String)
    ensures
        r@ == socket_path(home@),
{
    join_path(native_host_run_dir(home).as_str(), "native-host.sock")
}

/// The directory in which the native host is installed.
pub fn native_host_install_dir(home: &str) -> (r: String)
    ensures
        r@ == install_dir(home@),
{
    let library = join_path(home, "Library");
    let support = join_path(library.as_str(), "Application Support");
    let apw = join_path(support.as_str(), "APW");
    join_path(apw.as_str(), "NativeHost")
}

/// The installed application bundle.
pub fn native_host_bundle_install_path(home: &str) -> (r: String)
    ensures
        r@ == bundle_path(home@),
{
    join_path(native_host_install_dir(home).as_str(), NATIVE_HOST_BUNDLE_NAME)
}

/// The directory of the user's launch agents.
pub fn native_host_launch_agents_dir(home: &str) -> (r: String)
    ensures
        r@ == launch_agents_dir(home@),
{
    join_path(join_path(home, "Library").as_str(), "LaunchAgents")
}

/// The launch agent of the native host.
pub fn native_host_launch_agent_path(home: &str) -> (r: String)
    ensures
        r@ == launch_agent_path(home@),
{
    let name = cat(NATIVE_HOST_LABEL, ".plist");
    join_path(native_host_launch_agents_dir(home).as_str(), name.as_str())
}

/// Apple's helper.
pub fn native_host_helper_path() -> (r: String)
    ensures
        r@ == HELPER_BINARY_PATH@,
{
    owned(HELPER_BINARY_PATH)
}

/// The executable of the native host's bundle.
pub fn native_host_executable_in_bundle(bundle: &str) -> (r: String)
    ensures
        r@ == executable_in(bundle@, NATIVE_HOST_EXECUTABLE_NAME@),
{
    let contents = join_path(bundle, "Contents");
    let macos = join_path(contents.as_str(), "MacOS");
    join_path(macos.as_str(), NATIVE_HOST_EXECUTABLE_NAME)
}

/// The domain of a user's graphical session.
pub open spec fn domain_of(uid: u32) -> Seq<char> {
    "gui/"@ + decimal(uid as nat)
}

/// The domain of a user's graphical session.
pub fn launchctl_domain(uid: u32) -> (r: String)
    ensures
        r@ == domain_of(uid),
{
    cat("gui/", decimal_u64(uid as u64).as_str())
}

/// The native host's service in a user's session.
pub open spec fn service_of(uid: u32) -> Seq<char> {
    domain_of(uid) + "/"@ + NATIVE_HOST_LABEL@
}

/// The native host's service in a user's session.
pub fn launchctl_service_target(uid: u32) -> (r: String)
    ensures
        r@ == service_of(uid),
{
    cat3(launchctl_domain(uid).as_str(), "/", NATIVE_HOST_LABEL)
}

/// What a run of `launchctl` gave: what it printed if it succeeded or may fail, else its
/// complaint. Both texts are without surrounding white space.
pub fn interpret_launchctl(success: bool, stdout: &str, stderr: &str, allow_failure: bool) -> (r:
    Result<String>)
    ensures
        if success || allow_failure {
            r is Ok && r->Ok_0@ == if trimmed(stdout@).len() == 0 {
                trimmed(stderr@)
            } else {
                trimmed(stdout@)
            }
        } else {
            fails(
                r,
                Status::ProcessNotRunning,
                if trimmed(stderr@).len() == 0 {
                    "launchctl command failed."@
                } else {
                    trimmed(stderr@)
                },
            )
        },
{
    let out = trim(stdout);
    let err = trim(stderr);
    if success || allow_failure {
        if out.as_str().is_empty() {
            Ok(err)
        } else {
            Ok(out)
        }
    } else if err.as_str().is_empty() {
        Err(APWError::new(Status::ProcessNotRunning, "launchctl command failed."))
    } else {
        Err(APWError { code: Status::ProcessNotRunning, message: err })
    }
}

/// The version in a bundle's property list: the first string behind the version key.
pub open spec fn version_in(content: Seq<char>) -> Option<Seq<char>> {
    match after_first(content, "<key>CFBundleShortVersionString</key>"@) {
        Some(rest) => match after_first(rest, "<string>"@) {
            Some(rest) => match before_first(rest, "</string>"@) {
                Some(version) => Some(trimmed(version)),
                None => None,
            },
            None => None,
        },
        None => None,
    }
}

/// The version of a bundle whose property list could be read.
pub open spec fn bundle_version(info: Option<String>) -> Option<Seq<char>> {
    match info {
        Some(content) => version_in(content@),
        None => None,
    }
}

/// The version in a bundle's property list, where it could be read.
pub fn read_bundle_version(info: &Option<String>) -> (r: Option<String>)
    ensures
        opt_text(r) == bundle_version(*info),
{
    let content = match info {
        Some(content) => content,
        None => {
            return None;
        },
    };
    let rest = match text_after(content.as_str(), "<key>CFBundleShortVersionString</key>") {
        Some(rest) => rest,
        None => {
            return None;
        },
    };
    let rest = match text_after(rest.as_str(), "<string>") {
        Some(rest) => rest,
        None => {
            return None;
        },
    };
    match text_before(rest.as_str(), "</string>") {
        Some(version) => Some(trim(version.as_str())),
        None => None,
    }
}

/// The property list of the launch agent.
pub open spec fn launch_agent_plist(
    home: Seq<char>,
    bundle: Seq<char>,
    socket: Seq<char>,
) -> Seq<char> {
    PLIST_HEAD@ + NATIVE_HOST_LABEL@ + PLIST_PROGRAM@ + executable_in(
        bundle,
        NATIVE_HOST_EXECUTABLE_NAME@,
    ) + PLIST_SOCKET@ + socket + PLIST_HELPER@ + HELPER_BINARY_PATH@ + PLIST_OUT@ + joined(
        install_dir(home),
        "native-host.stdout.log"@,
    ) + PLIST_ERR@ + joined(install_dir(home), "native-host.stderr.log"@) + PLIST_END@
}

pub const PLIST_HEAD: &'static str = "<?xml version=\"1.0\" encoding=\"UTF-8\"?>\n<!DOCTYPE plist PUBLIC \"-//Apple//DTD PLIST 1.0//EN\" \"http://www.apple.com/DTDs/PropertyList-1.0.dtd\">\n<plist version=\"1.0\">\n<dict>\n  <key>Label</key>\n  <string>";

pub const PLIST_PROGRAM: &'static str =
    "</string>\n  <key>ProgramArguments</key>\n  <array>\n    <string>";

pub const PLIST_SOCKET: &'static str =
    "</string>\n    <string>--socket-path</string>\n    <string>";

pub const PLIST_HELPER: &'static str =
    "</string>\n    <string>--helper-path</string>\n    <string>";

pub const PLIST_OUT: &'static str = "</string>\n  </array>\n  <key>KeepAlive</key>\n  <true/>\n  <key>RunAtLoad</key>\n  <true/>\n  <key>ProcessType</key>\n  <string>Background</string>\n  <key>StandardOutPath</key>\n  <string>";

pub const PLIST_ERR: &'static str =
    "</string>\n  <key>StandardErrorPath</key>\n  <string>";

pub const PLIST_END: &'static str = "</string>\n</dict>\n</plist>\n";

/// The property list of the launch agent.
pub fn build_launch_agent_plist(home: &str, bundle: &str, socket: &str) -> (r: String)
    ensures
        r@ == launch_agent_plist(home@, bundle@, socket@),
{
    let dir = native_host_install_dir(home);
    let out_log = join_path(dir.as_str(), "native-host.stdout.log");
    let err_log = join_path(dir.as_str(), "native-host.stderr.log");
    let executable = native_host_executable_in_bundle(bundle);
    let text = cat3(PLIST_HEAD, NATIVE_HOST_LABEL, PLIST_PROGRAM);
    let text = cat3(text.as_str(), executable.as_str(), PLIST_SOCKET);
    let text = cat3(text.as_str(), socket, PLIST_HELPER);
    let text = cat3(text.as_str(), HELPER_BINARY_PATH, PLIST_OUT);
    let text = cat3(text.as_str(), out_log.as_str(), PLIST_ERR);
    cat3(text.as_str(), err_log.as_str(), PLIST_END)
}

/// Where the packaged bundle may be, in the order in which it is looked for.
pub open spec fn package_places(
    executable_dir: Seq<char>,
    working_dir: Option<Seq<char>>,
) -> Seq<Seq<char>> {
    let name = NATIVE_HOST_BUNDLE_NAME@;
    let near = seq![
        joined(joined(executable_dir, "../libexec"@), name),
        joined(joined(executable_dir, "../../libexec"@), name),
        joined(joined(executable_dir, "../../../native-host/dist"@), name),
    ];
    match working_dir {
        Some(dir) => near.push(joined(joined(dir, "native-host/dist"@), name)),
        None => near,
    }
}

fn in_dir(base: &str, dir: &str, name: &str) -> (r: String)
    ensures
        r@ == joined(joined(base@, dir@), name@),
{
    join_path(join_path(base, dir).as_str(), name)
}

/// Where the packaged bundle may be, in the order in which it is looked for.
pub fn packaged_host_candidates(executable_dir: &str, working_dir: &Option<String>) -> (r: Vec<
    String,
>)
    ensures
        crate::secrets::texts(r@) == package_places(executable_dir@, opt_text(*working_dir)),
{
    let name = NATIVE_HOST_BUNDLE_NAME;
    let mut places: Vec<String> = Vec::new();
    places.push(in_dir(executable_dir, "../libexec", name));
    places.push(in_dir(executable_dir, "../../libexec", name));
    places.push(in_dir(executable_dir, "../../../native-host/dist", name));
    match working_dir {
        Some(dir) => {
            places.push(in_dir(dir.as_str(), "native-host/dist", name));
        },
        None => {},
    }
    proof {
        assert(crate::secrets::texts(places@) =~= package_places(
            executable_dir@,
            opt_text(*working_dir),
        ));
    }
    places
}

/// The first of the places that exists; the given complaint where none does.
pub fn choose_packaged_bundle(
    candidates: &Vec<String>,
    exists: &Vec<bool>,
    code: Status,
    complaint: &str,
) -> (r: Result<String>)
    requires
        candidates@.len() == exists@.len(),
    ensures
        match first_true(exists@) {
            Some(i) => r is Ok && r->Ok_0@ == candidates@[i]@,
            None => fails(r, code, complaint@),
        },
{
    match find_first(exists) {
        Some(i) => Ok(owned(candidates[i].as_str())),
        None => Err(APWError::new(code, complaint)),
    }
}

/// How ready the native host is.
#[derive(Debug, Clone, Copy, PartialEq, Eq, Structural)]
pub enum HostState {
    UnsupportedPlatform,
    AppMissing,
    LaunchAgentMissing,
    LaunchAgentUnloaded,
    HelperMissing,
    Ready,
}

/// The first thing that keeps the native host from being ready.
pub open spec fn host_state(env: HostEnvironment) -> HostState {
    if !env.supported() {
        HostState::UnsupportedPlatform
    } else if !env.bundle_exists {
        HostState::AppMissing
    } else if !env.launch_agent_exists {
        HostState::LaunchAgentMissing
    } else if !env.agent_loaded() {
        HostState::LaunchAgentUnloaded
    } else if !env.helper_ready() {
        HostState::HelperMissing
    } else {
        HostState::Ready
    }
}

/// The first thing that keeps the native host from being ready.
pub fn native_host_preflight_state(env: &HostEnvironment) -> (r: HostState)
    ensures
        r == host_state(*env),
{
    if !native_host_supported_platform(env) {
        HostState::UnsupportedPlatform
    } else if !env.bundle_exists {
        HostState::AppMissing
    } else if !env.launch_agent_exists {
        HostState::LaunchAgentMissing
    } else if !launch_agent_loaded(env) {
        HostState::LaunchAgentUnloaded
    } else if !helper_executable(env) {
        HostState::HelperMissing
    } else {
        HostState::Ready
    }
}

/// The native host is ready exactly when nothing is missing on a supported platform.
pub proof fn law_ready_means_nothing_missing(env: HostEnvironment)
    ensures
        host_state(env) == HostState::Ready <==> env.supported() && env.bundle_exists
            && env.launch_agent_exists && env.agent_loaded() && env.helper_ready(),
{
}

/// The word for a state.
pub open spec fn state_word(state: HostState) -> Seq<char> {
    match state {
        HostState::UnsupportedPlatform => "unsupported_platform"@,
        HostState::AppMissing => "app_missing"@,
        HostState::LaunchAgentMissing => "launch_agent_missing"@,
        HostState::LaunchAgentUnloaded => "launch_agent_unloaded"@,
        HostState::HelperMissing => "helper_missing"@,
        HostState::Ready => "ready"@,
    }
}

/// The complaint about a state, where there is one.
pub open spec fn state_error(state: HostState) -> Option<Seq<char>> {
    match state {
        HostState::UnsupportedPlatform => Some(UNSUPPORTED_HOST@),
        HostState::AppMissing => Some(
            "Native host app bundle is not installed. Run `apw host install`."@,
        ),
        HostState::LaunchAgentMissing => Some(
            "Native host LaunchAgent is not installed. Run `apw host install`."@,
        ),
        HostState::LaunchAgentUnloaded => Some(
            "Native host LaunchAgent is not loaded. Run `apw host install` or `apw host doctor`."@,
        ),
        HostState::HelperMissing => Some(
            "Apple PasswordManagerBrowserExtensionHelper is not executable on this host."@,
        ),
        HostState::Ready => None,
    }
}

/// What to do about a state.
pub open spec fn state_guidance(state: HostState) -> Seq<char> {
    match state {
        HostState::AppMissing | HostState::LaunchAgentMissing | HostState::LaunchAgentUnloaded =>
            "Run `apw host install`, then `apw host doctor`, then `apw start`."@,
        HostState::HelperMissing =>
            "The Apple helper is unavailable on this host; run `apw host doctor` for details."@,
        HostState::Ready =>
            "Run `apw host doctor` and ensure the native host stays attached after `apw start`."@,
        HostState::UnsupportedPlatform => "Run `apw host doctor` for native host diagnostics."@,
    }
}

impl HostState {
    /// The word for this state.
    pub fn word(self) -> (r: &'static str)
        ensures
            r@ == state_word(self),
    {
        match self {
            HostState::UnsupportedPlatform => "unsupported_platform",
            HostState::AppMissing => "app_missing",
            HostState::LaunchAgentMissing => "launch_agent_missing",
            HostState::LaunchAgentUnloaded => "launch_agent_unloaded",
            HostState::HelperMissing => "helper_missing",
            HostState::Ready => "ready",
        }
    }

    /// The complaint about this state, where there is one.
    pub fn error(self) -> (r: Option<String>)
        ensures
            opt_text(r) == state_error(self),
    {
        match self {
            HostState::UnsupportedPlatform => Some(owned(UNSUPPORTED_HOST)),
            HostState::AppMissing => Some(
                owned("Native host app bundle is not installed. Run `apw host install`."),
            ),
            HostState::LaunchAgentMissing => Some(
                owned("Native host LaunchAgent is not installed. Run `apw host install`."),
            ),
            HostState::LaunchAgentUnloaded => Some(
                owned(
                    "Native host LaunchAgent is not loaded. Run `apw host install` or `apw host doctor`.",
                ),
            ),
            HostState::HelperMissing => Some(
                owned(
                    "Apple PasswordManagerBrowserExtensionHelper is not executable on this host.",
                ),
            ),
            HostState::Ready => None,
        }
    }

    fn guidance(self) -> (r: &'static str)
        ensures
            r@ == state_guidance(self),
    {
        match self {
            HostState::AppMissing | HostState::LaunchAgentMissing
            | HostState::LaunchAgentUnloaded =>
                "Run `apw host install`, then `apw host doctor`, then `apw start`.",
            HostState::HelperMissing =>
                "The Apple helper is unavailable on this host; run `apw host doctor` for details.",
            HostState::Ready =>
                "Run `apw host doctor` and ensure the native host stays attached after `apw start`.",
            HostState::UnsupportedPlatform => "Run `apw host doctor` for native host diagnostics.",
        }
    }
}

/// A small number, or null for none.
pub open spec fn number_or_null(n: Option<u32>) -> Json {
    match n {
        Some(n) => Json::Int(n as int),
        None => Json::Null,
    }
}

/// A small number, or null for none.
pub(crate) fn opt_number_value(n: Option<u32>) -> (r: JsonValue)
    ensures
        r@ == number_or_null(n),
{
    match n {
        Some(n) => JsonValue::integer(n as i64),
        None => JsonValue::Null,
    }
}

/// The platform as it is reported.
pub open spec fn platform_json(os: Seq<char>, arch: Seq<char>, major: Option<u32>) -> Json {
    Json::Obj(
        Map::<Seq<char>, Json>::empty().insert("os"@, Json::Str(os)).insert(
            "arch"@,
            Json::Str(arch),
        ).insert("macosMajorVersion"@, number_or_null(major)),
    )
}

/// The platform as it is reported.
pub(crate) fn platform_value(os: &str, arch: &str, major: Option<u32>) -> (r: JsonValue)
    ensures
        r@ == platform_json(os@, arch@, major),
{
    JsonValue::object().with("os", JsonValue::text(os)).with("arch", JsonValue::text(arch)).with(
        "macosMajorVersion",
        opt_number_value(major),
    )
}

/// The report on the native host. On an unsupported platform no version is looked for.
pub open spec fn host_report(env: HostEnvironment, configured: RuntimeMode) -> Json {
    let state = host_state(env);
    let version = if state == HostState::UnsupportedPlatform {
        None
    } else {
        bundle_version(env.bundle_info)
    };
    Json::Obj(
        Map::<Seq<char>, Json>::empty().insert("supported"@, Json::Bool(env.supported())).insert(
            "platform"@,
            platform_json(env.os@, env.arch@, env.major_version()),
        ).insert("configuredRuntimeMode"@, Json::Str(mode_word(configured))).insert(
            "resolvedRuntimeMode"@,
            Json::Str(mode_word(RuntimeMode::Native)),
        ).insert("launchStrategies"@, Json::Arr(seq![Json::Str("native_host"@)])).insert(
            "status"@,
            Json::Str(state_word(state)),
        ).insert("socketPath"@, Json::Str(socket_path(env.home@))).insert(
            "socketExists"@,
            Json::Bool(env.socket_exists),
        ).insert(
            "launchAgent"@,
            Json::Obj(
                Map::<Seq<char>, Json>::empty().insert(
                    "loaded"@,
                    Json::Bool(env.agent_loaded()),
                ).insert("path"@, Json::Str(launch_agent_path(env.home@))),
            ),
        ).insert(
            "appBundle"@,
            Json::Obj(
                Map::<Seq<char>, Json>::empty().insert(
                    "path"@,
                    Json::Str(bundle_path(env.home@)),
                ).insert("version"@, text_or_null(version)),
            ),
        ).insert(
            "helper"@,
            Json::Obj(
                Map::<Seq<char>, Json>::empty().insert("path"@, Json::Str(HELPER_BINARY_PATH@)).insert(
                    "executable"@,
                    Json::Bool(env.helper_ready()),
                ),
            ),
        ).insert("error"@, text_or_null(state_error(state))),
    )
}

/// An array of one text.
pub(crate) fn one_text(text: &str) -> (r: JsonValue)
    ensures
        r@ == Json::Arr(seq![Json::Str(text@)]),
{
    let mut items: Vec<JsonValue> = Vec::new();
    items.push(JsonValue::text(text));
    let r = JsonValue::Array(items);
    proof {
        assert(r@->Arr_0 =~= seq![Json::Str(text@)]);
    }
    r
}

/// The report on the native host.
pub fn native_host_preflight_status(env: &HostEnvironment, configured: RuntimeMode) -> (r: JsonValue)
    ensures
        r@ == host_report(*env, configured),
{
    let state = native_host_preflight_state(env);
    let version = match state {
        HostState::UnsupportedPlatform => None,
        _ => read_bundle_version(&env.bundle_info),
    };
    let home = env.home.as_str();
    let agent = JsonValue::object().with("loaded", JsonValue::Bool(launch_agent_loaded(env))).with(
        "path",
        JsonValue::String(native_host_launch_agent_path(home)),
    );
    let bundle = JsonValue::object().with(
        "path",
        JsonValue::String(native_host_bundle_install_path(home)),
    ).with("version", JsonValue::opt(&version));
    let helper = JsonValue::object().with("path", JsonValue::text(HELPER_BINARY_PATH)).with(
        "executable",
        JsonValue::Bool(helper_executable(env)),
    );
    JsonValue::object().with(
        "supported",
        JsonValue::Bool(native_host_supported_platform(env)),
    ).with(
        "platform",
        platform_value(env.os.as_str(), env.arch.as_str(), native_host_macos_major_version(env)),
    ).with("configuredRuntimeMode", JsonValue::text(configured.as_str())).with(
        "resolvedRuntimeMode",
        JsonValue::text(RuntimeMode::Native.as_str()),
    ).with("launchStrategies", one_text("native_host")).with(
        "status",
        JsonValue::text(state.word()),
    ).with("socketPath", JsonValue::String(native_host_socket_path(home))).with(
        "socketExists",
        JsonValue::Bool(env.socket_exists),
    ).with("launchAgent", agent).with("appBundle", bundle).with("helper", helper).with(
        "error",
        JsonValue::opt(&state.error()),
    )
}

/// The note that tells how ready the native host is.
pub open spec fn host_note(env: HostEnvironment) -> Seq<char> {
    "Run `apw host doctor` or `apw status --json` and inspect `daemon.preflight`; current `daemon.preflight.status="@
        + state_word(host_state(env)) + "`."@
}

/// The note that tells how ready the native host is.
pub fn native_host_status_note(env: &HostEnvironment) -> (r: String)
    ensures
        r@ == host_note(*env),
{
    cat3(
        "Run `apw host doctor` or `apw status --json` and inspect `daemon.preflight`; current `daemon.preflight.status=",
        native_host_preflight_state(env).word(),
        "`.",
    )
}

/// A failure with what to do about it.
pub open spec fn host_failure(env: HostEnvironment, base: Seq<char>) -> Seq<char> {
    base + " "@ + state_guidance(host_state(env)) + " Current `daemon.preflight.status="@
        + state_word(host_state(env)) + "`."@
}

/// A failure with what to do about it.
pub fn native_host_failure_message(env: &HostEnvironment, base_message: &str) -> (r: String)
    ensures
        r@ == host_failure(*env, base_message@),
{
    let state = native_host_preflight_state(env);
    let text = cat3(base_message, " ", state.guidance());
    let text = cat3(text.as_str(), " Current `daemon.preflight.status=", state.word());
    cat(text.as_str(), "`.")
}

/// The report that the doctor gives.
pub fn native_host_doctor(env: &HostEnvironment) -> (r: Result<JsonValue>)
    ensures
        r is Ok && r->Ok_0@ == host_report(*env, RuntimeMode::Native),
{
    Ok(native_host_preflight_status(env, RuntimeMode::Native))
}

/// The files of the native host.
pub open spec fn host_paths(home: Seq<char>) -> Json {
    Json::Obj(
        Map::<Seq<char>, Json>::empty().insert("bundle"@, Json::Str(bundle_path(home))).insert(
            "launchAgent"@,
            Json::Str(launch_agent_path(home)),
        ).insert("socket"@, Json::Str(socket_path(home))),
    )
}

fn host_paths_value(home: &str) -> (r: JsonValue)
    ensures
        r@ == host_paths(home@),
{
    JsonValue::object().with("bundle", JsonValue::String(native_host_bundle_install_path(home))).with(
        "launchAgent",
        JsonValue::String(native_host_launch_agent_path(home)),
    ).with("socket", JsonValue::String(native_host_socket_path(home)))
}

/// A step of installing or removing the native host, with a `launchctl` command or a file in it.
#[derive(Debug)]
pub enum HostStep {
    /// Make the directory of everything that is kept for the user, with this file mode.
    EnsureApwDir(String, u32),
    /// Make the directory of the socket, with this file mode.
    EnsureRunDir(String, u32),
    /// Find the packaged bundle.
    FindPackage,
    /// Make the install directory, with this file mode.
    EnsureInstallDir(String, u32),
    /// Make the directory of the launch agents.
    EnsureAgentsDir(String),
    /// Copy the packaged bundle over the installed one.
    CopyBundle(String),
    /// Write the launch agent with this content and this file mode.
    WriteAgent(String, String, u32),
    /// Run `launchctl`; the flag says whether it may fail.
    Launchctl(Vec<String>, bool),
    /// Remove a file or a bundle, where it is there.
    Remove(String),
}

/// The model of a step.
pub enum StepModel {
    EnsureApwDir(Seq<char>, u32),
    EnsureRunDir(Seq<char>, u32),
    FindPackage,
    EnsureInstallDir(Seq<char>, u32),
    EnsureAgentsDir(Seq<char>),
    CopyBundle(Seq<char>),
    WriteAgent(Seq<char>, Seq<char>, u32),
    Launchctl(Seq<Seq<char>>, bool),
    Remove(Seq<char>),
}

impl View for HostStep {
    type V = StepModel;

    open spec fn view(&self) -> StepModel {
        match self {
            HostStep::EnsureApwDir(path, mode) => StepModel::EnsureApwDir(path@, *mode),
            HostStep::EnsureRunDir(path, mode) => StepModel::EnsureRunDir(path@, *mode),
            HostStep::FindPackage => StepModel::FindPackage,
            HostStep::EnsureInstallDir(path, mode) => StepModel::EnsureInstallDir(path@, *mode),
            HostStep::EnsureAgentsDir(path) => StepModel::EnsureAgentsDir(path@),
            HostStep::CopyBundle(path) => StepModel::CopyBundle(path@),
            HostStep::WriteAgent(path, content, mode) => StepModel::WriteAgent(
                path@,
                content@,
                *mode,
            ),
            HostStep::Launchctl(args, optional) => StepModel::Launchctl(
                crate::secrets::texts(args@),
                *optional,
            ),
            HostStep::Remove(path) => StepModel::Remove(path@),
        }
    }
}

/// The models of steps.
pub open spec fn steps_model(steps: Seq<HostStep>) -> Seq<StepModel> {
    Seq::new(steps.len(), |i: int| steps[i]@)
}

fn launchctl_step(a: &str, b: &str, c: &str, optional: bool) -> (r: HostStep)
    ensures
        r@ == StepModel::Launchctl(seq![a@, b@, c@], optional),
{
    let mut args: Vec<String> = Vec::new();
    args.push(owned(a));
    args.push(owned(b));
    args.push(owned(c));
    proof {
        assert(crate::secrets::texts(args@) =~= seq![a@, b@, c@]);
    }
    HostStep::Launchctl(args, optional)
}

/// The steps that make the directory of the native host's socket and the one above it, each for
/// the user alone.
pub open spec fn run_dir_steps(home: Seq<char>) -> Seq<StepModel> {
    seq![
        StepModel::EnsureApwDir(apw_dir(home), NATIVE_HOST_DIR_MODE),
        StepModel::EnsureRunDir(run_dir(home), NATIVE_HOST_DIR_MODE),
    ]
}

/// The steps that make the directory of the native host's socket and the one above it, each for
/// the user alone.
pub fn ensure_native_host_runtime_dir(home: &str) -> (r: Vec<HostStep>)
    ensures
        steps_model(r@) == run_dir_steps(home@),
{
    let mut steps: Vec<HostStep> = Vec::new();
    steps.push(HostStep::EnsureApwDir(join_path(home, ".apw"), NATIVE_HOST_DIR_MODE));
    steps.push(HostStep::EnsureRunDir(native_host_run_dir(home), NATIVE_HOST_DIR_MODE));
    proof {
        assert(steps_model(steps@) =~= run_dir_steps(home@));
    }
    steps
}

/// The steps that install the native host for a user.
pub open spec fn install_steps(home: Seq<char>, uid: u32) -> Seq<StepModel> {
    run_dir_steps(home) + seq![
        StepModel::FindPackage,
        StepModel::EnsureInstallDir(install_dir(home), NATIVE_HOST_DIR_MODE),
        StepModel::EnsureAgentsDir(launch_agents_dir(home)),
        StepModel::CopyBundle(bundle_path(home)),
        StepModel::WriteAgent(
            launch_agent_path(home),
            launch_agent_plist(home, bundle_path(home), socket_path(home)),
            LAUNCH_AGENT_MODE,
        ),
        StepModel::Launchctl(seq!["bootout"@, domain_of(uid), launch_agent_path(home)], true),
        StepModel::Launchctl(seq!["bootstrap"@, domain_of(uid), launch_agent_path(home)], false),
        StepModel::Launchctl(seq!["kickstart"@, "-k"@, service_of(uid)], true),
    ]
}

/// The steps that install the native host, in this order; none where the platform is not
/// supported.
pub fn native_host_install(env: &HostEnvironment, uid: u32) -> (r: Result<Vec<HostStep>>)
    ensures
        if env.supported() {
            r is Ok && steps_model(r->Ok_0@) == install_steps(env.home@, uid)
        } else {
            fails(r, Status::ProcessNotRunning, UNSUPPORTED_HOST@)
        },
{
    if !native_host_supported_platform(env) {
        return Err(APWError::new(Status::ProcessNotRunning, UNSUPPORTED_HOST));
    }
    let home = env.home.as_str();
    let agent = native_host_launch_agent_path(home);
    let bundle = native_host_bundle_install_path(home);
    let socket = native_host_socket_path(home);
    let domain = launchctl_domain(uid);
    let service = launchctl_service_target(uid);
    let plist = build_launch_agent_plist(home, bundle.as_str(), socket.as_str());
    let mut steps = ensure_native_host_runtime_dir(home);
    let ghost first = steps@;
    steps.push(HostStep::FindPackage);
    steps.push(HostStep::EnsureInstallDir(native_host_install_dir(home), NATIVE_HOST_DIR_MODE));
    steps.push(HostStep::EnsureAgentsDir(native_host_launch_agents_dir(home)));
    steps.push(HostStep::CopyBundle(bundle));
    steps.push(HostStep::WriteAgent(owned(agent.as_str()), plist, LAUNCH_AGENT_MODE));
    steps.push(launchctl_step("bootout", domain.as_str(), agent.as_str(), true));
    steps.push(launchctl_step("bootstrap", domain.as_str(), agent.as_str(), false));
    steps.push(launchctl_step("kickstart", "-k", service.as_str(), true));
    proof {
        assert(steps_model(first).len() == first.len());
        assert(steps_model(first)[0] == first[0]@);
        assert(steps_model(first)[1] == first[1]@);
        assert(steps_model(steps@) =~= install_steps(env.home@, uid));
    }
    Ok(steps)
}

/// The report on an installation, with the report on the native host after it.
pub fn native_host_installed_report(home: &str, preflight: JsonValue) -> (r: JsonValue)
    ensures
        r@ == Json::Obj(
            Map::<Seq<char>, Json>::empty().insert("status"@, Json::Str("installed"@)).insert(
                "paths"@,
                host_paths(home@),
            ).insert("preflight"@, preflight@),
        ),
{
    JsonValue::object().with("status", JsonValue::text("installed")).with(
        "paths",
        host_paths_value(home),
    ).with("preflight", preflight)
}

/// The steps that remove the native host of a user.
pub open spec fn uninstall_steps(home: Seq<char>, uid: u32) -> Seq<StepModel> {
    seq![
        StepModel::Launchctl(seq!["bootout"@, domain_of(uid), launch_agent_path(home)], true),
        StepModel::Remove(launch_agent_path(home)),
        StepModel::Remove(bundle_path(home)),
        StepModel::Remove(socket_path(home)),
    ]
}

/// The steps that remove the native host, in this order; none where the platform is not
/// supported.
pub fn native_host_uninstall(env: &HostEnvironment, uid: u32) -> (r: Result<Vec<HostStep>>)
    ensures
        if env.supported() {
            r is Ok && steps_model(r->Ok_0@) == uninstall_steps(env.home@, uid)
        } else {
            fails(r, Status::ProcessNotRunning, UNSUPPORTED_HOST@)
        },
{
    if !native_host_supported_platform(env) {
        return Err(APWError::new(Status::ProcessNotRunning, UNSUPPORTED_HOST));
    }
    let home = env.home.as_str();
    let agent = native_host_launch_agent_path(home);
    let domain = launchctl_domain(uid);
    let mut steps: Vec<HostStep> = Vec::new();
    steps.push(launchctl_step("bootout", domain.as_str(), agent.as_str(), true));
    steps.push(HostStep::Remove(agent));
    steps.push(HostStep::Remove(native_host_bundle_install_path(home)));
    steps.push(HostStep::Remove(native_host_socket_path(home)));
    proof {
        assert(steps_model(steps@) =~= uninstall_steps(env.home@, uid));
    }
    Ok(steps)
}

/// The report on a removal.
pub fn native_host_uninstalled_report(home: &str) -> (r: JsonValue)
    ensures
        r@ == Json::Obj(
            Map::<Seq<char>, Json>::empty().insert("status"@, Json::Str("uninstalled"@)).insert(
                "paths"@,
                host_paths(home@),
            ),
        ),
{
    JsonValue::object().with("status", JsonValue::text("uninstalled")).with(
        "paths",
        host_paths_value(home),
    )
}

/// Removing the native host removes every file that installing it puts in place: the bundle that
/// is copied and the launch agent that is written.
pub proof fn law_uninstall_removes_what_install_made(
    home: Seq<char>,
    uid: u32,
    path: Seq<char>,
    content: Seq<char>,
    mode: u32,
)
    ensures
        install_steps(home, uid).contains(StepModel::CopyBundle(path))
            || install_steps(home, uid).contains(StepModel::WriteAgent(path, content, mode))
            ==> uninstall_steps(home, uid).contains(StepModel::Remove(path)),
{
    let steps = uninstall_steps(home, uid);
    assert(steps[1] == StepModel::Remove(launch_agent_path(home)));
    assert(steps[2] == StepModel::Remove(bundle_path(home)));
}

} // verus!
