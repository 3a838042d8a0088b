//! The APW app and its broker: where it is installed, what is sent to it and what is made of its
//! answers. Files, sockets and processes are the caller's.
use crate::codec::{hex_text, to_hex};
use crate::crypto::random_bytes;
use crate::error::{fails, APWError, Result};
use crate::host::{apw_dir, bundle_version, executable_in, one_text, read_bundle_version};
use crate::json::{
    json_complaint, json_parsed, json_pretty_text, json_text, parse_json_or_complain, plain,
    text_or_null, to_json, to_json_pretty, Json, JsonValue,
};
use crate::text::{cat, owned};
use crate::types::{opt_json, status_of_json, Status, MAX_MESSAGE_BYTES, VERSION};
use crate::utils::{join_path, joined};
use vstd::prelude::*;

verus! {

pub const NATIVE_APP_BUNDLE_NAME: &'static str = "APW.app";

pub const NATIVE_APP_EXECUTABLE_NAME: &'static str = "APW";

pub const NATIVE_APP_SOCKET_NAME: &'static str = "broker.sock";

pub const NATIVE_APP_STATUS_NAME: &'static str = "status.json";

pub const NATIVE_APP_CREDENTIALS_NAME: &'static str = "credentials.json";

/// The file mode of the runtime directory.
pub const NATIVE_APP_RUNTIME_DIR_MODE: u32 = 0o700;

/// The file mode of the files in it.
pub const NATIVE_APP_FILE_MODE: u32 = 0o600;

/// The file mode of the installed bundle.
pub const NATIVE_APP_BUNDLE_MODE: u32 = 0o755;

/// The most bytes of a request or an answer.
pub const MAX_BROKER_BYTES: usize = MAX_MESSAGE_BYTES;

pub const SOCKET_TIMEOUT_MS: u64 = 3_000;

/// How often a connection is tried.
pub const CONNECT_RETRIES: usize = 10;

/// How long to wait after a failed try.
pub const CONNECT_RETRY_DELAY_MS: u64 = 200;

pub const MALFORMED_ENVELOPE: &'static str = "Native app returned a malformed response envelope.";

/// The runtime directory.
pub open spec fn runtime_dir(home: Seq<char>) -> Seq<char> {
    joined(apw_dir(home), "native-app"@)
}

/// The installed application bundle.
pub open spec fn app_bundle_path(home: Seq<char>) -> Seq<char> {
    joined(joined(runtime_dir(home), "installed"@), NATIVE_APP_BUNDLE_NAME@)
}

/// The runtime directory.
pub fn native_app_runtime_dir(home: &str) -> (r: String)
    ensures
        r@ == runtime_dir(home@),
{
    join_path(join_path(home, ".apw").as_str(), "native-app")
}

/// The broker's socket.
pub fn native_app_socket_path(home: &str) -> (r: String)
    ensures
        r@ == joined(runtime_dir(home@), NATIVE_APP_SOCKET_NAME@),
{
    join_path(native_app_runtime_dir(home).as_str(), NATIVE_APP_SOCKET_NAME)
}

/// The file in which the app leaves its status.
pub fn native_app_status_path(home: &str) -> (r: String)
    ensures
        r@ == joined(runtime_dir(home@), NATIVE_APP_STATUS_NAME@),
{
    join_path(native_app_runtime_dir(home).as_str(), NATIVE_APP_STATUS_NAME)
}

/// The file of the bootstrap credentials.
pub fn native_app_credentials_path(home: &str) -> (r: String)
    ensures
        r@ == joined(runtime_dir(home@), NATIVE_APP_CREDENTIALS_NAME@),
{
    join_path(native_app_runtime_dir(home).as_str(), NATIVE_APP_CREDENTIALS_NAME)
}

/// The directory in which the app is installed.
pub fn native_app_install_dir(home: &str) -> (r: String)
    ensures
        r@ == joined(runtime_dir(home@), "installed"@),
{
    join_path(native_app_runtime_dir(home).as_str(), "installed")
}

/// The installed application bundle.
pub fn native_app_bundle_install_path(home: &str) -> (r: String)
    ensures
        r@ == app_bundle_path(home@),
{
    join_path(native_app_install_dir(home).as_str(), NATIVE_APP_BUNDLE_NAME)
}

/// The executable of the app's bundle.
pub fn native_app_executable_in_bundle(bundle: &str) -> (r: String)
    ensures
        r@ == executable_in(bundle@, NATIVE_APP_EXECUTABLE_NAME@),
{
    let contents = join_path(bundle, "Contents");
    let macos = join_path(contents.as_str(), "MacOS");
    join_path(macos.as_str(), NATIVE_APP_EXECUTABLE_NAME)
}

/// Where the packaged bundle may be beside the executable.
pub open spec fn places_beside(executable_dir: Seq<char>) -> Seq<Seq<char>> {
    seq![
        joined(joined(executable_dir, "../libexec"@), NATIVE_APP_BUNDLE_NAME@),
        joined(joined(executable_dir, "../../native-app/dist"@), NATIVE_APP_BUNDLE_NAME@),
    ]
}

/// Where the packaged bundle may be, in the order in which it is looked for: below the working
/// directory and above it, and at last in the given places.
pub open spec fn app_package_places(
    working_dir: Seq<char>,
    beside: Seq<Seq<char>>,
) -> Seq<Seq<char>> {
    let name = NATIVE_APP_BUNDLE_NAME@;
    seq![
        joined(joined(joined(working_dir, "native-app"@), "dist"@), name),
        joined(joined(joined(working_dir, "../native-app"@), "dist"@), name),
        joined(joined(joined(working_dir, "../../native-app"@), "dist"@), name),
    ] + beside
}

fn in_dist(working_dir: &str, app: &str) -> (r: String)
    ensures
        r@ == joined(joined(joined(working_dir@, app@), "dist"@), NATIVE_APP_BUNDLE_NAME@),
{
    let dist = join_path(join_path(working_dir, app).as_str(), "dist");
    join_path(dist.as_str(), NATIVE_APP_BUNDLE_NAME)
}

/// Where the packaged bundle may be beside the executable, before links are followed.
pub fn packages_beside(executable_dir: &str) -> (r: Vec<String>)
    ensures
        crate::secrets::texts(r@) == places_beside(executable_dir@),
{
    let name = NATIVE_APP_BUNDLE_NAME;
    let mut places: Vec<String> = Vec::new();
    places.push(join_path(join_path(executable_dir, "../libexec").as_str(), name));
    places.push(join_path(join_path(executable_dir, "../../native-app/dist").as_str(), name));
    proof {
        assert(crate::secrets::texts(places@) =~= places_beside(executable_dir@));
    }
    places
}

/// Where the packaged bundle may be, in the order in which it is looked for. The places beside the
/// executable are given, as they are once links are followed.
pub fn packaged_app_candidates(working_dir: &str, beside: Vec<String>) -> (r: Vec<String>)
    ensures
        crate::secrets::texts(r@) == app_package_places(working_dir@, crate::secrets::texts(beside@)),
{
    let mut beside = beside;
    let ghost given = beside@;
    let mut places: Vec<String> = Vec::new();
    places.push(in_dist(working_dir, "native-app"));
    places.push(in_dist(working_dir, "../native-app"));
    places.push(in_dist(working_dir, "../../native-app"));
    places.append(&mut beside);
    proof {
        assert(crate::secrets::texts(places@) =~= app_package_places(
            working_dir@,
            crate::secrets::texts(given),
        ));
    }
    places
}

/// The bootstrap credentials: one entry for the one supported domain.
pub open spec fn default_credentials() -> Json {
    Json::Obj(
        Map::<Seq<char>, Json>::empty().insert("demo"@, Json::Bool(true)).insert(
            "domains"@,
            Json::Arr(seq![Json::Str("example.com"@)]),
        ).insert(
            "credentials"@,
            Json::Arr(
                seq![
                    Json::Obj(
                        Map::<Seq<char>, Json>::empty().insert(
                            "domain"@,
                            Json::Str("example.com"@),
                        ).insert("url"@, Json::Str("https://example.com"@)).insert(
                            "username"@,
                            Json::Str("demo@example.com"@),
                        ).insert("password"@, Json::Str("apw-demo-password"@)),
                    ),
                ],
            ),
        ),
    )
}

proof fn lemma_default_credentials_are_plain()
    ensures
        plain(default_credentials(), 100),
{
    reveal_with_fuel(plain, 5);
    let members = default_credentials()->Obj_0;
    assert forall|k: Seq<char>| members.dom().contains(k) implies plain(
        #[trigger] members[k],
        99,
    ) by {
        assert(k == "demo"@ || k == "domains"@ || k == "credentials"@);
    }
}

/// The bootstrap credentials.
pub fn default_credentials_payload() -> (r: JsonValue)
    ensures
        r@ == default_credentials(),
{
    let entry = JsonValue::object().with("domain", JsonValue::text("example.com")).with(
        "url",
        JsonValue::text("https://example.com"),
    ).with("username", JsonValue::text("demo@example.com")).with(
        "password",
        JsonValue::text("apw-demo-password"),
    );
    let mut entries: Vec<JsonValue> = Vec::new();
    entries.push(entry);
    let list = JsonValue::Array(entries);
    proof {
        assert(list@->Arr_0 =~= seq![entries@[0]@]);
    }
    JsonValue::object().with("demo", JsonValue::Bool(true)).with(
        "domains",
        one_text("example.com"),
    ).with("credentials", list)
}

fn malformed<T>() -> (r: Result<T>)
    ensures
        fails(r, Status::ProtoInvalidResponse, MALFORMED_ENVELOPE@),
{
    Err(APWError::new(Status::ProtoInvalidResponse, MALFORMED_ENVELOPE))
}

/// The status that an answer names; `GenericError` where it names none.
pub open spec fn named_status(value: Option<Json>) -> Status {
    match value {
        Some(value) => match status_of_json(value) {
            Some(status) => status,
            None => Status::GenericError,
        },
        None => Status::GenericError,
    }
}

/// The text of a member, or the default where it is not text.
pub open spec fn text_member_or(value: Json, key: Seq<char>, default: Seq<char>) -> Seq<char> {
    match value.get(key) {
        Some(Json::Str(text)) => text,
        _ => default,
    }
}

/// What an answer of the app says: its payload, or its error.
pub open spec fn answer_meets(value: Json, r: Result<JsonValue>) -> bool {
    match value.get("ok"@) {
        Some(Json::Bool(true)) => match value.get("payload"@) {
            Some(payload) => r is Ok && r->Ok_0@ == payload,
            None => fails(
                r,
                Status::ProtoInvalidResponse,
                "Native app response is missing its payload."@,
            ),
        },
        Some(Json::Bool(false)) => fails(
            r,
            named_status(value.get("code"@)),
            text_member_or(value, "error"@, "Native app request failed."@),
        ),
        _ => fails(r, Status::ProtoInvalidResponse, MALFORMED_ENVELOPE@),
    }
}

/// What an answer of the app says.
pub fn parse_response(payload: &JsonValue) -> (r: Result<JsonValue>)
    ensures
        answer_meets(payload@, r),
{
    let ok = match payload.get("ok") {
        Some(value) => match value.as_bool() {
            Some(ok) => ok,
            None => {
                return malformed();
            },
        },
        None => {
            return malformed();
        },
    };
    if ok {
        return match payload.get("payload") {
            Some(inner) => Ok(inner.copy()),
            None => Err(
                APWError::new(
                    Status::ProtoInvalidResponse,
                    "Native app response is missing its payload.",
                ),
            ),
        };
    }
    let code = match payload.get("code") {
        Some(value) => match Status::deserialize(value) {
            Some(status) => status,
            None => Status::GenericError,
        },
        None => Status::GenericError,
    };
    let message = match payload.get("error") {
        Some(value) => match value.as_str() {
            Some(text) => owned(text.as_str()),
            None => owned("Native app request failed."),
        },
        None => owned("Native app request failed."),
    };
    Err(APWError { code, message })
}

/// A request to the app.
pub open spec fn request_json(id: Seq<char>, command: Seq<char>, payload: Json) -> Json {
    Json::Obj(
        Map::<Seq<char>, Json>::empty().insert("requestId"@, Json::Str("req-"@ + id)).insert(
            "command"@,
            Json::Str(command),
        ).insert("payload"@, payload),
    )
}

proof fn lemma_request_is_plain(id: Seq<char>, command: Seq<char>, payload: Json)
    requires
        plain(payload, 99),
    ensures
        plain(request_json(id, command, payload), 100),
{
    let members = request_json(id, command, payload)->Obj_0;
    assert forall|k: Seq<char>| members.dom().contains(k) implies plain(
        #[trigger] members[k],
        99,
    ) by {
        assert(k == "requestId"@ || k == "command"@ || k == "payload"@);
    }
}

/// The bytes of a request to the app, unless they are too many.
pub fn build_request(id: &str, command: &str, payload: JsonValue) -> (r: Result<Vec<u8>>)
    ensures
        ({
            let text = json_text(request_json(id@, command@, payload@));
            if text.len() > MAX_BROKER_BYTES {
                fails(r, Status::ProtoInvalidResponse, "Native app request payload too large."@)
            } else {
                &&& r is Ok && r->Ok_0@ == text
                &&& plain(payload@, 99) ==> json_parsed(text) == Some(
                    request_json(id@, command@, payload@),
                )
            }
        }),
{
    proof {
        if plain(payload@, 99) {
            lemma_request_is_plain(id@, command@, payload@);
        }
    }
    let request = JsonValue::object().with(
        "requestId",
        JsonValue::String(cat("req-", id)),
    ).with("command", JsonValue::text(command)).with("payload", payload);
    let data = to_json(&request);
    if data.len() > MAX_BROKER_BYTES {
        Err(APWError::new(Status::ProtoInvalidResponse, "Native app request payload too large."))
    } else {
        Ok(data)
    }
}

/// A random request id: 32 hexadecimal digits.
pub fn uuid_like_suffix() -> (r: String)
    ensures
        exists|bytes: Seq<u8>| bytes.len() == 16 && r@ == #[trigger] hex_text(bytes),
{
    let bytes = random_bytes(16);
    to_hex(bytes.as_slice())
}

/// What the bytes of an answer say, with the complaints for one that is too long or not JSON.
pub open spec fn response_meets(
    bytes: Seq<u8>,
    too_large: Seq<char>,
    not_json: Seq<char>,
    r: Result<JsonValue>,
) -> bool {
    if bytes.len() > MAX_BROKER_BYTES {
        fails(r, Status::ProtoInvalidResponse, too_large)
    } else {
        match json_parsed(bytes) {
            Some(value) => answer_meets(value, r),
            None => fails(r, Status::ProtoInvalidResponse, not_json + json_complaint(bytes)),
        }
    }
}

fn read_response(bytes: &[u8], too_large: &str, not_json: &str) -> (r: Result<JsonValue>)
    ensures
        response_meets(bytes@, too_large@, not_json@, r),
{
    if bytes.len() > MAX_BROKER_BYTES {
        return Err(APWError::new(Status::ProtoInvalidResponse, too_large));
    }
    match parse_json_or_complain(bytes) {
        Ok(value) => parse_response(&value),
        Err(text) => Err(
            APWError {
                code: Status::ProtoInvalidResponse,
                message: cat(not_json, text.as_str()),
            },
        ),
    }
}

/// What the bytes that came over the socket say.
pub fn read_socket_response(bytes: &[u8]) -> (r: Result<JsonValue>)
    ensures
        response_meets(
            bytes@,
            "Native app response payload too large."@,
            "Native app returned invalid JSON: "@,
            r,
        ),
{
    read_response(
        bytes,
        "Native app response payload too large.",
        "Native app returned invalid JSON: ",
    )
}

/// What the bytes that the executable printed say.
pub fn read_direct_response(bytes: &[u8]) -> (r: Result<JsonValue>)
    ensures
        response_meets(
            bytes@,
            "Native app direct response payload too large."@,
            "Native app direct response is not valid JSON: "@,
            r,
        ),
{
    read_response(
        bytes,
        "Native app direct response payload too large.",
        "Native app direct response is not valid JSON: ",
    )
}

/// The command line that asks the executable directly.
pub fn direct_arguments(command: &str, payload: &JsonValue) -> (r: (String, String, Vec<u8>))
    ensures
        r.0@ == "request"@,
        r.1@ == command@,
        r.2@ == json_text(payload@),
        plain(payload@, 100) ==> json_parsed(r.2@) == Some(payload@),
{
    (owned("request"), owned(command), to_json(payload))
}

/// What to do to reach the app.
#[derive(Debug, Clone, Copy, PartialEq, Eq, Structural)]
pub enum ConnectStep {
    /// Try to connect to the socket.
    Connect,
    /// Ask the executable directly.
    Direct,
}

/// What to do to reach the app after so many failed tries: connect to the socket while it exists
/// and the tries last, else ask the executable.
pub fn connect_step(socket_exists: bool, failures: usize) -> (r: ConnectStep)
    ensures
        r == if socket_exists && failures < CONNECT_RETRIES {
            ConnectStep::Connect
        } else {
            ConnectStep::Direct
        },
{
    if socket_exists && failures < CONNECT_RETRIES {
        ConnectStep::Connect
    } else {
        ConnectStep::Direct
    }
}

/// Whether the executable can be asked directly.
pub fn check_direct(bundle_exists: bool) -> (r: Result<()>)
    ensures
        if bundle_exists {
            r is Ok
        } else {
            fails(
                r,
                Status::ProcessNotRunning,
                "APW app service is not running. Run `apw app install` first."@,
            )
        },
{
    if bundle_exists {
        Ok(())
    } else {
        Err(
            APWError::new(
                Status::ProcessNotRunning,
                "APW app service is not running. Run `apw app install` first.",
            ),
        )
    }
}

/// What is found of the app on the machine.
#[derive(Debug)]
pub struct AppEnvironment {
    pub home: String,
    pub bundle_exists: bool,
    pub executable_exists: bool,
    pub bundle_info: Option<String>,
    pub socket_running: bool,
    pub status_file: Option<JsonValue>,
    pub live_status: Option<JsonValue>,
}

/// A value, or null for none.
pub open spec fn value_or_null(v: Option<JsonValue>) -> Json {
    match v {
        Some(v) => v@,
        None => Json::Null,
    }
}

fn opt_value(v: &Option<JsonValue>) -> (r: JsonValue)
    ensures
        r@ == value_or_null(*v),
{
    match v {
        Some(v) => v.copy(),
        None => JsonValue::Null,
    }
}

/// The report on the app.
pub open spec fn app_report(env: AppEnvironment) -> Map<Seq<char>, Json> {
    let bundle = app_bundle_path(env.home@);
    Map::<Seq<char>, Json>::empty().insert("bundlePath"@, Json::Str(bundle)).insert(
        "installed"@,
        Json::Bool(env.bundle_exists),
    ).insert(
        "executablePath"@,
        Json::Str(executable_in(bundle, NATIVE_APP_EXECUTABLE_NAME@)),
    ).insert("executableExists"@, Json::Bool(env.executable_exists)).insert(
        "bundleVersion"@,
        text_or_null(bundle_version(env.bundle_info)),
    ).insert(
        "socketPath"@,
        Json::Str(joined(runtime_dir(env.home@), NATIVE_APP_SOCKET_NAME@)),
    ).insert(
        "credentialsPath"@,
        Json::Str(joined(runtime_dir(env.home@), NATIVE_APP_CREDENTIALS_NAME@)),
    ).insert(
        "service"@,
        Json::Obj(
            Map::<Seq<char>, Json>::empty().insert(
                "running"@,
                Json::Bool(env.socket_running),
            ).insert(
                "statusFile"@,
                Json::Str(joined(runtime_dir(env.home@), NATIVE_APP_STATUS_NAME@)),
            ).insert("lastKnown"@, value_or_null(env.status_file)).insert(
                "live"@,
                value_or_null(env.live_status),
            ).insert("transport"@, Json::Str("unix_socket"@)).insert(
                "transportContract"@,
                Json::Str("typed_json_envelope"@),
            ),
        ),
    )
}

/// The report on the app.
pub fn native_app_status(env: &AppEnvironment) -> (r: JsonValue)
    ensures
        r@ == Json::Obj(app_report(*env)),
{
    let home = env.home.as_str();
    let bundle = native_app_bundle_install_path(home);
    let executable = native_app_executable_in_bundle(bundle.as_str());
    let version = read_bundle_version(&env.bundle_info);
    let service = JsonValue::object().with("running", JsonValue::Bool(env.socket_running)).with(
        "statusFile",
        JsonValue::String(native_app_status_path(home)),
    ).with("lastKnown", opt_value(&env.status_file)).with("live", opt_value(&env.live_status)).with(
        "transport",
        JsonValue::text("unix_socket"),
    ).with("transportContract", JsonValue::text("typed_json_envelope"));
    JsonValue::object().with("bundlePath", JsonValue::String(bundle)).with(
        "installed",
        JsonValue::Bool(env.bundle_exists),
    ).with("executablePath", JsonValue::String(executable)).with(
        "executableExists",
        JsonValue::Bool(env.executable_exists),
    ).with("bundleVersion", JsonValue::opt(&version)).with(
        "socketPath",
        JsonValue::String(native_app_socket_path(home)),
    ).with("credentialsPath", JsonValue::String(native_app_credentials_path(home))).with(
        "service",
        service,
    )
}

pub const GUIDANCE_BUILD: &'static str =
    "Run `./scripts/build-native-app.sh` if the app bundle is missing.";

pub const GUIDANCE_INSTALL: &'static str =
    "Run `apw app install` to install the APW app bundle into the user runtime directory.";

pub const GUIDANCE_LAUNCH: &'static str =
    "Run `apw app launch` to start the local broker service.";

pub const GUIDANCE_LOGIN: &'static str =
    "Run `apw login https://example.com` to exercise the bootstrap credential flow.";

/// The report that the doctor gives: the report on the app, and what goes with the release.
pub open spec fn doctor_report(env: AppEnvironment) -> Json {
    Json::Obj(
        app_report(env).insert(
            "frameworks"@,
            Json::Obj(
                Map::<Seq<char>, Json>::empty().insert(
                    "authenticationServicesLinked"@,
                    Json::Bool(true),
                ).insert("associatedDomainsConfigured"@, Json::Arr(seq![Json::Str("example.com"@)])),
            ),
        ).insert(
            "releaseLine"@,
            Json::Obj(
                Map::<Seq<char>, Json>::empty().insert("target"@, Json::Str("v2.0.0"@)).insert(
                    "version"@,
                    Json::Str(VERSION@),
                ).insert("legacyParityCommandsRetained"@, Json::Bool(true)),
            ),
        ).insert(
            "guidance"@,
            Json::Arr(
                seq![
                    Json::Str(GUIDANCE_BUILD@),
                    Json::Str(GUIDANCE_INSTALL@),
                    Json::Str(GUIDANCE_LAUNCH@),
                    Json::Str(GUIDANCE_LOGIN@),
                ],
            ),
        ),
    )
}

/// The report that the doctor gives.
pub fn native_app_doctor(env: &AppEnvironment) -> (r: JsonValue)
    ensures
        r@ == doctor_report(*env),
{
    let mut guidance: Vec<JsonValue> = Vec::new();
    guidance.push(JsonValue::text(GUIDANCE_BUILD));
    guidance.push(JsonValue::text(GUIDANCE_INSTALL));
    guidance.push(JsonValue::text(GUIDANCE_LAUNCH));
    guidance.push(JsonValue::text(GUIDANCE_LOGIN));
    let advice = JsonValue::Array(guidance);
    proof {
        assert(advice@->Arr_0 =~= seq![
            Json::Str(GUIDANCE_BUILD@),
            Json::Str(GUIDANCE_INSTALL@),
            Json::Str(GUIDANCE_LAUNCH@),
            Json::Str(GUIDANCE_LOGIN@),
        ]);
    }
    let frameworks = JsonValue::object().with(
        "authenticationServicesLinked",
        JsonValue::Bool(true),
    ).with("associatedDomainsConfigured", one_text("example.com"));
    let release = JsonValue::object().with("target", JsonValue::text("v2.0.0")).with(
        "version",
        JsonValue::text(VERSION),
    ).with("legacyParityCommandsRetained", JsonValue::Bool(true));
    native_app_status(env).with("frameworks", frameworks).with("releaseLine", release).with(
        "guidance",
        advice,
    )
}

/// A step of installing the app. The number is a file mode.
#[derive(Debug)]
pub enum AppStep {
    /// Make the directory of everything that is kept for the user.
    EnsureApwDir(String, u32),
    /// Make the runtime directory.
    EnsureRuntimeDir(String, u32),
    /// Write this content as the bootstrap credentials, where there is no such file.
    EnsureCredentials(String, Vec<u8>, u32),
    /// Find the packaged bundle.
    FindPackage,
    /// Make the install directory.
    EnsureInstallDir(String, u32),
    /// Put the packaged bundle in the place of the installed one.
    ReplaceBundle(String, u32),
}

/// The model of a step.
pub enum AppStepModel {
    EnsureApwDir(Seq<char>, u32),
    EnsureRuntimeDir(Seq<char>, u32),
    EnsureCredentials(Seq<char>, Seq<u8>, u32),
    FindPackage,
    EnsureInstallDir(Seq<char>, u32),
    ReplaceBundle(Seq<char>, u32),
}

impl View for AppStep {
    type V = AppStepModel;

    open spec fn view(&self) -> AppStepModel {
        match self {
            AppStep::EnsureApwDir(path, mode) => AppStepModel::EnsureApwDir(path@, *mode),
            AppStep::EnsureRuntimeDir(path, mode) => AppStepModel::EnsureRuntimeDir(path@, *mode),
            AppStep::EnsureCredentials(path, content, mode) => AppStepModel::EnsureCredentials(
                path@,
                content@,
                *mode,
            ),
            AppStep::FindPackage => AppStepModel::FindPackage,
            AppStep::EnsureInstallDir(path, mode) => AppStepModel::EnsureInstallDir(path@, *mode),
            AppStep::ReplaceBundle(path, mode) => AppStepModel::ReplaceBundle(path@, *mode),
        }
    }
}

/// The models of steps.
pub open spec fn app_steps_model(steps: Seq<AppStep>) -> Seq<AppStepModel> {
    Seq::new(steps.len(), |i: int| steps[i]@)
}

/// The steps that see to the runtime directory and the one above it.
pub open spec fn runtime_dir_steps(home: Seq<char>) -> Seq<AppStepModel> {
    seq![
        AppStepModel::EnsureApwDir(apw_dir(home), NATIVE_APP_RUNTIME_DIR_MODE),
        AppStepModel::EnsureRuntimeDir(runtime_dir(home), NATIVE_APP_RUNTIME_DIR_MODE),
    ]
}

/// The step that sees to the bootstrap credentials.
pub open spec fn credentials_step(home: Seq<char>) -> AppStepModel {
    AppStepModel::EnsureCredentials(
        joined(runtime_dir(home), NATIVE_APP_CREDENTIALS_NAME@),
        json_pretty_text(default_credentials()),
        NATIVE_APP_FILE_MODE,
    )
}

/// The steps that go before the doctor's report.
pub open spec fn doctor_steps(home: Seq<char>) -> Seq<AppStepModel> {
    runtime_dir_steps(home).push(credentials_step(home))
}

/// The steps that install the app, up to the report with that of the doctor in it.
pub open spec fn app_install_steps(home: Seq<char>) -> Seq<AppStepModel> {
    doctor_steps(home) + seq![
        AppStepModel::FindPackage,
        AppStepModel::EnsureInstallDir(
            joined(runtime_dir(home), "installed"@),
            NATIVE_APP_RUNTIME_DIR_MODE,
        ),
        AppStepModel::ReplaceBundle(app_bundle_path(home), NATIVE_APP_BUNDLE_MODE),
        credentials_step(home),
    ] + doctor_steps(home)
}

/// Whether every step that writes credentials writes the JSON text of the bootstrap credentials.
pub open spec fn writes_credentials(steps: Seq<AppStep>) -> bool {
    forall|i: int|
        0 <= i < steps.len() ==> ((#[trigger] steps[i]) matches AppStep::EnsureCredentials(
            _,
            content,
            _,
        ) ==> json_parsed(content@) == Some(default_credentials()))
}

/// The steps that make the runtime directory and the one above it, each for the user alone.
pub fn ensure_runtime_dir(home: &str) -> (r: Vec<AppStep>)
    ensures
        app_steps_model(r@) == runtime_dir_steps(home@),
{
    let mut steps: Vec<AppStep> = Vec::new();
    steps.push(AppStep::EnsureApwDir(join_path(home, ".apw"), NATIVE_APP_RUNTIME_DIR_MODE));
    steps.push(
        AppStep::EnsureRuntimeDir(native_app_runtime_dir(home), NATIVE_APP_RUNTIME_DIR_MODE),
    );
    proof {
        assert(app_steps_model(steps@) =~= runtime_dir_steps(home@));
    }
    steps
}

/// The step that writes the bootstrap credentials, for the user alone, where there are none.
pub fn ensure_default_credentials_file(home: &str) -> (r: AppStep)
    ensures
        r@ == credentials_step(home@),
        r matches AppStep::EnsureCredentials(_, content, _) && json_parsed(content@) == Some(
            default_credentials(),
        ),
{
    let content = to_json_pretty(&default_credentials_payload());
    proof {
        lemma_default_credentials_are_plain();
    }
    AppStep::EnsureCredentials(native_app_credentials_path(home), content, NATIVE_APP_FILE_MODE)
}

/// The steps that go before the doctor's report, in this order.
pub fn native_app_prepare(home: &str) -> (r: Vec<AppStep>)
    ensures
        app_steps_model(r@) == doctor_steps(home@),
        writes_credentials(r@),
{
    let mut steps = ensure_runtime_dir(home);
    let ghost first = steps@;
    steps.push(ensure_default_credentials_file(home));
    proof {
        assert(app_steps_model(first).len() == first.len());
        assert(app_steps_model(first)[0] == first[0]@);
        assert(app_steps_model(first)[1] == first[1]@);
        assert(app_steps_model(steps@) =~= doctor_steps(home@));
    }
    steps
}

/// The steps that install the app, in this order.
pub fn native_app_install(home: &str) -> (r: Vec<AppStep>)
    ensures
        app_steps_model(r@) == app_install_steps(home@),
        writes_credentials(r@),
{
    let mut steps = native_app_prepare(home);
    let ghost first = steps@;
    steps.push(AppStep::FindPackage);
    steps.push(
        AppStep::EnsureInstallDir(native_app_install_dir(home), NATIVE_APP_RUNTIME_DIR_MODE),
    );
    steps.push(
        AppStep::ReplaceBundle(native_app_bundle_install_path(home), NATIVE_APP_BUNDLE_MODE),
    );
    steps.push(ensure_default_credentials_file(home));
    let ghost upto = steps@;
    let mut rest = native_app_prepare(home);
    let ghost last = rest@;
    steps.append(&mut rest);
    proof {
        assert(steps@ =~= upto + last);
        assert forall|i: int| 0 <= i < first.len() implies #[trigger] app_steps_model(first)[i]
            == first[i]@ by {}
        assert forall|i: int| 0 <= i < last.len() implies #[trigger] app_steps_model(last)[i]
            == last[i]@ by {}
        assert(app_steps_model(first).len() == 3 && app_steps_model(last).len() == 3);
        assert(app_steps_model(upto) =~= app_steps_model(first) + app_steps_model(
            upto.subrange(3, 7),
        ));
        assert(app_steps_model(steps@) =~= app_steps_model(upto) + app_steps_model(last));
        assert(app_steps_model(steps@) =~= app_install_steps(home@));
    }
    steps
}

/// The report on an installation, with the doctor's report after it.
pub fn native_app_installed_report(env: &AppEnvironment) -> (r: JsonValue)
    ensures
        r@ == Json::Obj(
            Map::<Seq<char>, Json>::empty().insert("status"@, Json::Str("installed"@)).insert(
                "bundlePath"@,
                Json::Str(app_bundle_path(env.home@)),
            ).insert("version"@, text_or_null(bundle_version(env.bundle_info))).insert(
                "doctor"@,
                doctor_report(*env),
            ),
        ),
{
    let version = read_bundle_version(&env.bundle_info);
    JsonValue::object().with("status", JsonValue::text("installed")).with(
        "bundlePath",
        JsonValue::String(native_app_bundle_install_path(env.home.as_str())),
    ).with("version", JsonValue::opt(&version)).with("doctor", native_app_doctor(env))
}

/// The report on a launch.
pub open spec fn launch_report(home: Seq<char>, status: Seq<char>) -> Map<Seq<char>, Json> {
    Map::<Seq<char>, Json>::empty().insert("status"@, Json::Str(status)).insert(
        "bundlePath"@,
        Json::Str(app_bundle_path(home)),
    ).insert("socketPath"@, Json::Str(joined(runtime_dir(home), NATIVE_APP_SOCKET_NAME@)))
}

/// Whether the app has to be started: the report where it runs already, nothing where it is to be
/// started, an error where it cannot be.
pub fn native_app_launch(env: &AppEnvironment) -> (r: Result<Option<JsonValue>>)
    ensures
        if !env.bundle_exists {
            fails(
                r,
                Status::ProcessNotRunning,
                "APW app bundle is not installed. Run `apw app install` first."@,
            )
        } else if !env.executable_exists {
            fails(
                r,
                Status::ProcessNotRunning,
                "APW app executable is missing from the installed bundle: "@ + executable_in(
                    app_bundle_path(env.home@),
                    NATIVE_APP_EXECUTABLE_NAME@,
                ),
            )
        } else if env.socket_running {
            r is Ok && opt_json(r->Ok_0) == Some(Json::Obj(launch_report(env.home@, "running"@)))
        } else {
            r is Ok && r->Ok_0 is None
        },
{
    if !env.bundle_exists {
        return Err(
            APWError::new(
                Status::ProcessNotRunning,
                "APW app bundle is not installed. Run `apw app install` first.",
            ),
        );
    }
    let home = env.home.as_str();
    let bundle = native_app_bundle_install_path(home);
    if !env.executable_exists {
        let executable = native_app_executable_in_bundle(bundle.as_str());
        return Err(
            APWError {
                code: Status::ProcessNotRunning,
                message: cat(
                    "APW app executable is missing from the installed bundle: ",
                    executable.as_str(),
                ),
            },
        );
    }
    if env.socket_running {
        return Ok(
            Some(
                JsonValue::object().with("status", JsonValue::text("running")).with(
                    "bundlePath",
                    JsonValue::String(bundle),
                ).with("socketPath", JsonValue::String(native_app_socket_path(home))),
            ),
        );
    }
    Ok(None)
}

/// The report after a start, where `running` says whether the socket answers yet.
pub fn native_app_launched_report(home: &str, running: bool) -> (r: JsonValue)
    ensures
        r@ == Json::Obj(
            launch_report(
                home@,
                if running {
                    "launched"@
                } else {
                    "starting"@
                },
            ).insert("stdoutLog"@, Json::Str(joined(runtime_dir(home@), "app.stdout.log"@))).insert(
                "stderrLog"@,
                Json::Str(joined(runtime_dir(home@), "app.stderr.log"@)),
            ),
        ),
{
    let dir = native_app_runtime_dir(home);
    let status = if running {
        "launched"
    } else {
        "starting"
    };
    JsonValue::object().with("status", JsonValue::text(status)).with(
        "bundlePath",
        JsonValue::String(native_app_bundle_install_path(home)),
    ).with("socketPath", JsonValue::String(native_app_socket_path(home))).with(
        "stdoutLog",
        JsonValue::String(join_path(dir.as_str(), "app.stdout.log")),
    ).with("stderrLog", JsonValue::String(join_path(dir.as_str(), "app.stderr.log")))
}

/// What is asked of the app to log in at a URL.
pub fn native_app_login(url: &str) -> (r: (String, JsonValue))
    ensures
        r.0@ == "login"@,
        r.1@ == Json::Obj(Map::<Seq<char>, Json>::empty().insert("url"@, Json::Str(url@))),
{
    (owned("login"), JsonValue::object().with("url", JsonValue::text(url)))
}

} // verus!
