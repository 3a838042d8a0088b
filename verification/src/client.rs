//! The client: the messages it sends to the daemon, what it makes of the answers, and the session
//! that it keeps. Sockets and the configuration file are the caller's.
use crate::bignum::be_bytes;
use crate::codec::{base64_bytes, base64_text, to_base64};
use crate::error::{fails, APWError, Result};
use crate::host::{
    host_failure, host_note, native_host_failure_message, native_host_status_note, one_text,
};
use crate::json::{json_text, plain, to_json, to_json_string, Json, JsonValue};
use crate::preflight::{
    helper_preflight_failure_message, helper_preflight_status_note, preflight_failure,
    preflight_note, PreflightEnvironment,
};
use crate::srp::{
    build_client_key_exchange, build_client_verification_message, carries_value, check_record,
    cipher_key, conveys, encryption_fails, get_part, get_text, is_record, key_exchange_json,
    key_long_enough, lemma_exchange_is_plain, numeric_token, parse_pake_message_type, public_key,
    record_part, seals, serialized, text_part, text_reads_back, verification_json, SRPSession,
    SessionModel, MISSING_KEY,
};
use crate::text::{
    cat, cat3, contains, decimal, decimal_u64, integer_of, occurs_in, opt_text, owned, parse_i64,
    str_eq, trim, trimmed,
};
use crate::types::{
    action_word, command_number, opt_json, status_message, status_of_code, status_text,
    APWRuntimeConfig, Action, Command, Message, RuntimeMode, RuntimeModel, Status, DEFAULT_HOST,
    PAKE_FIELD_TID, SMSG,
};
use crate::utils::{find_first, first_true};
use vstd::prelude::*;
use vstd::utf8::encode_utf8;

verus! {

pub const BROWSER_NAME: &'static str = "Chrome";

pub const DEFAULT_TIMEOUT_MS: u64 = 5_000;

pub const DEFAULT_RETRIES: u8 = 0;

pub const DEFAULT_RETRY_DELAY_MS: u64 = 250;

pub const LAUNCH_STATUS_OK: &'static str = "ok";

pub const LAUNCH_STATUS_DISABLED: &'static str = "disabled";

pub const LAUNCH_NOT_RUNNING_MESSAGE: &'static str = "Helper process is not running.";

pub const BRIDGE_STATUS_WAITING: &'static str = "waiting";

pub const BRIDGE_STATUS_ATTACHED: &'static str = "attached";

pub const BRIDGE_STATUS_DISCONNECTED: &'static str = "disconnected";

pub const BRIDGE_STATUS_ERROR: &'static str = "error";

pub const UNAUTHENTICATED_DAEMON_MESSAGE: &'static str =
    "Daemon is running but not authenticated. Run `apw auth`.";

pub const NO_SESSION_MESSAGE: &'static str =
    "No active session. Start the daemon with `apw start`, then run `apw auth`.";

/// How long a challenge is taken as fresh.
pub const CHALLENGE_FRESH_MS: u64 = 5000;

/// How a message is sent.
#[derive(Debug, Clone, Copy, PartialEq, Eq, Structural)]
pub struct ClientSendOpts {
    pub timeout_ms: u64,
    pub retries: u8,
}

impl Default for ClientSendOpts {
    fn default() -> (r: ClientSendOpts)
        ensures
            r == (ClientSendOpts { timeout_ms: DEFAULT_TIMEOUT_MS, retries: DEFAULT_RETRIES }),
    {
        ClientSendOpts { timeout_ms: DEFAULT_TIMEOUT_MS, retries: DEFAULT_RETRIES }
    }
}

fn proto_error<T>(message: &str) -> (r: Result<T>)
    ensures
        fails(r, Status::ProtoInvalidResponse, message@),
{
    Err(APWError::new(Status::ProtoInvalidResponse, message))
}

/// Whether a value is an answer without an envelope: a status number and a list of entries.
pub open spec fn legacy_payload(value: Json) -> bool {
    (match value.get("STATUS"@) {
        Some(status) => status.as_i64() is Some || status.as_u64() is Some,
        None => false,
    }) && (match value.get("Entries"@) {
        Some(entries) => entries is Arr,
        None => false,
    })
}

/// The answer, where it is one without an envelope.
pub fn parse_legacy_payload(payload: &JsonValue) -> (r: Option<JsonValue>)
    ensures
        opt_json(r) == if legacy_payload(payload@) {
            Some(payload@)
        } else {
            None
        },
{
    let status = match payload.get("STATUS") {
        Some(status) => status,
        None => {
            return None;
        },
    };
    if status.as_i64().is_none() && status.as_u64().is_none() {
        return None;
    }
    match payload.get("Entries") {
        Some(entries) => match entries {
            JsonValue::Array(_) => Some(payload.copy()),
            _ => None,
        },
        None => None,
    }
}

/// The host at which a daemon on the given address is reached.
pub open spec fn daemon_host(host: Seq<char>) -> Seq<char> {
    let name = trimmed(host);
    if name.len() == 0 || name == "0.0.0.0"@ {
        DEFAULT_HOST@
    } else if name == "::"@ || name == "[::]"@ {
        "::1"@
    } else {
        name
    }
}

/// The host at which a daemon on the given address is reached: a wildcard is the loopback.
pub fn canonical_daemon_host(host: &str) -> (r: String)
    ensures
        r@ == daemon_host(host@),
{
    let name = trim(host);
    if name.as_str().is_empty() || str_eq(name.as_str(), "0.0.0.0") {
        owned(DEFAULT_HOST)
    } else if str_eq(name.as_str(), "::") || str_eq(name.as_str(), "[::]") {
        owned("::1")
    } else {
        name
    }
}

/// The address to use of those that a host resolves to: the first of IPv4, else the first.
pub open spec fn preferred(is_ipv4: Seq<bool>) -> Option<int> {
    match first_true(is_ipv4) {
        Some(i) => Some(i),
        None => if is_ipv4.len() > 0 {
            Some(0)
        } else {
            None
        },
    }
}

/// The complaint about an address that cannot be resolved.
pub open spec fn bad_address(host: Seq<char>, port: u16) -> Seq<char> {
    "Invalid daemon address "@ + daemon_host(host) + ":"@ + decimal(port as nat)
}

fn address_complaint(host: &str, port: u16) -> (r: String)
    ensures
        r@ == bad_address(host@, port),
{
    let text = cat3("Invalid daemon address ", canonical_daemon_host(host).as_str(), ":");
    cat(text.as_str(), decimal_u64(port as u64).as_str())
}

/// Which of the addresses that the daemon's host resolves to is used, where each is marked as
/// IPv4 or not; an error where it does not resolve.
pub fn resolve_daemon_target(
    host: &str,
    port: u16,
    resolved: &std::result::Result<Vec<bool>, String>,
) -> (r: Result<usize>)
    ensures
        match *resolved {
            Ok(is_ipv4) => match preferred(is_ipv4@) {
                Some(i) => r is Ok && r->Ok_0 == i,
                None => fails(r, Status::GenericError, bad_address(host@, port) + "."@),
            },
            Err(complaint) => fails(
                r,
                Status::GenericError,
                bad_address(host@, port) + ": "@ + complaint@,
            ),
        },
{
    let is_ipv4 = match resolved {
        Ok(list) => list,
        Err(complaint) => {
            let message = cat3(address_complaint(host, port).as_str(), ": ", complaint.as_str());
            return Err(APWError { code: Status::GenericError, message });
        },
    };
    match find_first(is_ipv4) {
        Some(i) => Ok(i),
        None => if is_ipv4.len() > 0 {
            Ok(0)
        } else {
            let message = cat(address_complaint(host, port).as_str(), ".");
            Err(APWError { code: Status::GenericError, message })
        },
    }
}

/// The local address from which a daemon is reached.
pub fn local_bind_addr_for_target(is_ipv4: bool) -> (r: &'static str)
    ensures
        r@ == if is_ipv4 {
            "0.0.0.0:0"@
        } else {
            "[::]:0"@
        },
{
    if is_ipv4 {
        "0.0.0.0:0"
    } else {
        "[::]:0"
    }
}

/// The status that a name in an envelope stands for.
pub open spec fn status_of_name(name: Seq<char>) -> Option<Status> {
    if name == "Success"@ {
        Some(Status::Success)
    } else if name == "GenericError"@ {
        Some(Status::GenericError)
    } else if name == "InvalidParam"@ {
        Some(Status::InvalidParam)
    } else if name == "NoResults"@ {
        Some(Status::NoResults)
    } else if name == "FailedToDelete"@ {
        Some(Status::FailedToDelete)
    } else if name == "FailedToUpdate"@ {
        Some(Status::FailedToUpdate)
    } else if name == "InvalidMessageFormat"@ {
        Some(Status::InvalidMessageFormat)
    } else if name == "DuplicateItem"@ {
        Some(Status::DuplicateItem)
    } else if name == "UnknownAction"@ {
        Some(Status::UnknownAction)
    } else if name == "InvalidSession"@ {
        Some(Status::InvalidSession)
    } else if name == "ServerError"@ {
        Some(Status::ServerError)
    } else if name == "CommunicationTimeout"@ {
        Some(Status::CommunicationTimeout)
    } else if name == "InvalidConfig"@ {
        Some(Status::InvalidConfig)
    } else if name == "ProcessNotRunning"@ {
        Some(Status::ProcessNotRunning)
    } else if name == "ProtoInvalidResponse"@ {
        Some(Status::ProtoInvalidResponse)
    } else {
        None
    }
}

fn status_by_name(name: &str) -> (r: Option<Status>)
    ensures
        r == status_of_name(name@),
{
    if str_eq(name, "Success") {
        Some(Status::Success)
    } else if str_eq(name, "GenericError") {
        Some(Status::GenericError)
    } else if str_eq(name, "InvalidParam") {
        Some(Status::InvalidParam)
    } else if str_eq(name, "NoResults") {
        Some(Status::NoResults)
    } else if str_eq(name, "FailedToDelete") {
        Some(Status::FailedToDelete)
    } else if str_eq(name, "FailedToUpdate") {
        Some(Status::FailedToUpdate)
    } else if str_eq(name, "InvalidMessageFormat") {
        Some(Status::InvalidMessageFormat)
    } else if str_eq(name, "DuplicateItem") {
        Some(Status::DuplicateItem)
    } else if str_eq(name, "UnknownAction") {
        Some(Status::UnknownAction)
    } else if str_eq(name, "InvalidSession") {
        Some(Status::InvalidSession)
    } else if str_eq(name, "ServerError") {
        Some(Status::ServerError)
    } else if str_eq(name, "CommunicationTimeout") {
        Some(Status::CommunicationTimeout)
    } else if str_eq(name, "InvalidConfig") {
        Some(Status::InvalidConfig)
    } else if str_eq(name, "ProcessNotRunning") {
        Some(Status::ProcessNotRunning)
    } else if str_eq(name, "ProtoInvalidResponse") {
        Some(Status::ProtoInvalidResponse)
    } else {
        None
    }
}

/// The status that the code of an envelope stands for: a number, the text of a number, or a name.
pub open spec fn envelope_status(value: Json) -> Option<Status> {
    match value {
        Json::Int(n) => if i64::MIN <= n <= i64::MAX {
            status_of_code(n as i64)
        } else {
            None
        },
        Json::Str(text) => match integer_of(text) {
            Some(code) => if status_of_code(code) is Some {
                status_of_code(code)
            } else {
                status_of_name(text)
            },
            None => status_of_name(text),
        },
        _ => None,
    }
}

/// The status that the code of an envelope stands for.
pub fn parse_status_code(value: &JsonValue) -> (r: Option<Status>)
    ensures
        r == envelope_status(value@),
{
    match value.as_i64() {
        Some(code) => {
            return Status::of_code(code);
        },
        None => {},
    }
    match value.as_str() {
        Some(text) => {
            match parse_i64(text.as_str()) {
                Some(code) => match Status::of_code(code) {
                    Some(status) => Some(status),
                    None => status_by_name(text.as_str()),
                },
                None => status_by_name(text.as_str()),
            }
        },
        None => None,
    }
}

/// The status of a failed envelope: what its code stands for, else `GenericError`.
pub open spec fn failed_status(value: Json) -> Status {
    match value.get("code"@) {
        Some(code) => match envelope_status(code) {
            Some(status) => status,
            None => Status::GenericError,
        },
        None => Status::GenericError,
    }
}

/// The message of a failed envelope: its error text, else the message for its status.
pub open spec fn failed_message(value: Json) -> Seq<char> {
    match value.get("error"@) {
        Some(Json::Str(text)) => text,
        _ => status_message(failed_status(value)),
    }
}

/// The error of a failed envelope.
pub(crate) fn envelope_failure(value: &JsonValue) -> (r: APWError)
    ensures
        r.code == failed_status(value@),
        r.message@ == failed_message(value@),
{
    let code = match value.get("code") {
        Some(code) => match parse_status_code(code) {
            Some(status) => status,
            None => Status::GenericError,
        },
        None => Status::GenericError,
    };
    let message = match value.get("error") {
        Some(error) => match error.as_str() {
            Some(text) => owned(text.as_str()),
            None => owned(status_text(code)),
        },
        None => owned(status_text(code)),
    };
    APWError { code, message }
}

/// What an answer of the daemon says.
pub open spec fn envelope_meets(value: Json, r: Result<JsonValue>) -> bool {
    if !(value is Obj) {
        fails(r, Status::ProtoInvalidResponse, "Invalid helper response payload type."@)
    } else {
        match value.get("ok"@) {
            Some(Json::Bool(true)) => match value.get("payload"@) {
                Some(payload) => r is Ok && r->Ok_0@ == payload,
                None => fails(r, Status::ProtoInvalidResponse, "Missing helper payload."@),
            },
            Some(Json::Bool(false)) => fails(r, failed_status(value), failed_message(value)),
            Some(_) => fails(r, Status::ProtoInvalidResponse, "Malformed helper envelope."@),
            None => if legacy_payload(value) {
                r is Ok && r->Ok_0@ == value
            } else {
                fails(r, Status::ProtoInvalidResponse, "Malformed helper envelope."@)
            },
        }
    }
}

/// What an answer of the daemon says: the payload of its envelope, its error, or the whole of an
/// answer without an envelope.
pub fn parse_response_envelope(payload: &JsonValue) -> (r: Result<JsonValue>)
    ensures
        envelope_meets(payload@, r),
{
    if !payload.is_object() {
        return proto_error("Invalid helper response payload type.");
    }
    match payload.get("ok") {
        Some(flag) => match flag.as_bool() {
            Some(ok) => {
                if ok {
                    match payload.get("payload") {
                        Some(inner) => Ok(inner.copy()),
                        None => proto_error("Missing helper payload."),
                    }
                } else {
                    Err(envelope_failure(payload))
                }
            },
            None => proto_error("Malformed helper envelope."),
        },
        None => match parse_legacy_payload(payload) {
            Some(value) => Ok(value),
            None => proto_error("Malformed helper envelope."),
        },
    }
}

/// What to tell where the native host is not attached.
pub open spec fn native_remediation(
    env: PreflightEnvironment,
    config: RuntimeModel,
    default_status: Seq<char>,
) -> Seq<char> {
    let status = status_or(config, default_status);
    if status == BRIDGE_STATUS_DISCONNECTED@ {
        NATIVE_DISCONNECTED@ + " "@ + host_note(env.host)
    } else if status == BRIDGE_STATUS_ERROR@ && config.bridge.last_error is Some {
        NATIVE_REPORTED@ + config.bridge.last_error->0 + ". "@ + host_note(env.host)
    } else {
        host_failure(env.host, NATIVE_NOT_ATTACHED@)
    }
}

pub const NATIVE_DISCONNECTED: &'static str =
    "Daemon is running in native mode, but the APW native host disconnected.";

pub const NATIVE_REPORTED: &'static str =
    "Daemon is running in native mode, but the APW native host reported an error: ";

pub const NATIVE_NOT_ATTACHED: &'static str =
    "Daemon is running in native mode, but the APW native host is not attached.";

/// What to tell where the native host is not attached. The default stands for a status that is
/// not on record.
pub fn native_host_remediation(
    env: &PreflightEnvironment,
    config: &APWRuntimeConfig,
    default_status: &str,
) -> (r: String)
    ensures
        r@ == native_remediation(*env, config@, default_status@),
{
    let status = recorded_status(config, default_status);
    let status = status.as_str();
    if str_eq(status, BRIDGE_STATUS_DISCONNECTED) {
        return cat3(NATIVE_DISCONNECTED, " ", native_host_status_note(&env.host).as_str());
    }
    if str_eq(status, BRIDGE_STATUS_ERROR) {
        match &config.bridge_last_error {
            Some(error) => {
                let text = cat3(NATIVE_REPORTED, error.as_str(), ". ");
                return cat(text.as_str(), native_host_status_note(&env.host).as_str());
            },
            None => {},
        }
    }
    native_host_failure_message(&env.host, NATIVE_NOT_ATTACHED)
}

pub const BROWSER_MODE: &'static str = "Daemon is running in browser mode, but ";

pub const BRIDGE_LOAD: &'static str = " bridge is attached. Load the APW Chrome bridge extension and wait for `apw status --json` to report `bridge.status=attached`.";

pub const BRIDGE_RELOAD: &'static str = "Reload the APW Chrome bridge extension and wait for `apw status --json` to report `bridge.status=attached`.";

/// What to tell of a bridge to a browser that is not attached.
pub open spec fn bridge_complaint(
    browser: Option<Seq<char>>,
    status: Seq<char>,
    last_error: Option<Seq<char>>,
) -> Seq<char> {
    let name = match browser {
        Some(name) => name,
        None => "Chrome"@,
    };
    if status == BRIDGE_STATUS_DISCONNECTED@ {
        BROWSER_MODE@ + "the "@ + name + " bridge disconnected. "@ + BRIDGE_RELOAD@
    } else if status == BRIDGE_STATUS_ERROR@ && last_error is Some {
        BROWSER_MODE@ + "the "@ + name + " bridge reported an error: "@ + last_error->0 + ". "@
            + BRIDGE_RELOAD@
    } else {
        BROWSER_MODE@ + "no "@ + name + BRIDGE_LOAD@
    }
}

/// What to tell of a bridge to a browser that is not attached.
pub(crate) fn browser_bridge_complaint(
    browser: &Option<String>,
    status: &str,
    last_error: &Option<String>,
) -> (r: String)
    ensures
        r@ == bridge_complaint(opt_text(*browser), status@, opt_text(*last_error)),
{
    let name = match browser {
        Some(name) => owned(name.as_str()),
        None => owned("Chrome"),
    };
    if str_eq(status, BRIDGE_STATUS_DISCONNECTED) {
        let text = cat3(BROWSER_MODE, "the ", name.as_str());
        return cat3(text.as_str(), " bridge disconnected. ", BRIDGE_RELOAD);
    }
    if str_eq(status, BRIDGE_STATUS_ERROR) {
        match last_error {
            Some(error) => {
                let text = cat3(BROWSER_MODE, "the ", name.as_str());
                let text = cat3(text.as_str(), " bridge reported an error: ", error.as_str());
                return cat3(text.as_str(), ". ", BRIDGE_RELOAD);
            },
            None => {},
        }
    }
    let text = cat3(BROWSER_MODE, "no ", name.as_str());
    cat(text.as_str(), BRIDGE_LOAD)
}

/// What to tell where the bridge to the browser is not attached, with how ready the helper is.
pub open spec fn bridge_remediation(
    env: PreflightEnvironment,
    config: RuntimeModel,
    default_status: Seq<char>,
) -> Seq<char> {
    bridge_complaint(
        config.bridge.browser,
        status_or(config, default_status),
        config.bridge.last_error,
    ) + " "@ + preflight_note(env, config.runtime_mode)
}

/// What to tell where the bridge to the browser is not attached, with how ready the helper is. The
/// default stands for a status that is not on record.
pub fn browser_bridge_remediation(
    env: &PreflightEnvironment,
    config: &APWRuntimeConfig,
    default_status: &str,
) -> (r: String)
    ensures
        r@ == bridge_remediation(*env, config@, default_status@),
{
    let complaint = browser_bridge_complaint(
        &config.bridge_browser,
        recorded_status(config, default_status).as_str(),
        &config.bridge_last_error,
    );
    cat3(
        complaint.as_str(),
        " ",
        helper_preflight_status_note(env, config.runtime_mode).as_str(),
    )
}

/// The status of the bridge on record, or the default.
pub open spec fn status_or(config: RuntimeModel, default_status: Seq<char>) -> Seq<char> {
    match config.bridge.status {
        Some(status) => status,
        None => default_status,
    }
}

fn recorded_status(config: &APWRuntimeConfig, default_status: &str) -> (r: String)
    ensures
        r@ == status_or(config@, default_status@),
{
    match &config.bridge_status {
        Some(status) => owned(status.as_str()),
        None => owned(default_status),
    }
}

/// What keeps the daemon from serving, as the configuration has it on record.
pub open spec fn launch_error(env: PreflightEnvironment, config: RuntimeModel) -> Option<Seq<char>> {
    if config.runtime_mode == RuntimeMode::Native {
        if config.bridge.status == Some(BRIDGE_STATUS_ATTACHED@) {
            None
        } else {
            Some(native_remediation(env, config, BRIDGE_STATUS_WAITING@))
        }
    } else if config.runtime_mode == RuntimeMode::Browser {
        if config.bridge.status == Some(BRIDGE_STATUS_ATTACHED@) {
            None
        } else {
            Some(bridge_remediation(env, config, BRIDGE_STATUS_WAITING@))
        }
    } else {
        match config.launch.status {
            None => None,
            Some(status) => if status == LAUNCH_STATUS_OK@ {
                None
            } else if status == LAUNCH_STATUS_DISABLED@ {
                Some(
                    preflight_failure(env, config.runtime_mode, "Helper launch is disabled."@),
                )
            } else {
                Some(
                    preflight_failure(
                        env,
                        config.runtime_mode,
                        match config.launch.error {
                            Some(error) => error,
                            None => LAUNCH_NOT_RUNNING_MESSAGE@,
                        },
                    ),
                )
            },
        }
    }
}

fn not_running(message: String) -> (r: Option<APWError>)
    ensures
        r is Some && r->0.code == Status::ProcessNotRunning && r->0.message@ == message@,
{
    Some(APWError { code: Status::ProcessNotRunning, message })
}

/// What keeps the daemon from serving, as the configuration has it on record.
pub fn launch_error_from_config(env: &PreflightEnvironment, config: &APWRuntimeConfig) -> (r: Option<
    APWError,
>)
    ensures
        match launch_error(*env, config@) {
            Some(message) => r is Some && r->0.code == Status::ProcessNotRunning && r->0.message@
                == message,
            None => r is None,
        },
{
    let attached = match &config.bridge_status {
        Some(status) => str_eq(status.as_str(), BRIDGE_STATUS_ATTACHED),
        None => false,
    };
    match config.runtime_mode {
        RuntimeMode::Native => {
            if attached {
                None
            } else {
                not_running(native_host_remediation(env, config, BRIDGE_STATUS_WAITING))
            }
        },
        RuntimeMode::Browser => {
            if attached {
                None
            } else {
                not_running(browser_bridge_remediation(env, config, BRIDGE_STATUS_WAITING))
            }
        },
        mode => match &config.last_launch_status {
            None => None,
            Some(launch) => {
                if str_eq(launch.as_str(), LAUNCH_STATUS_OK) {
                    None
                } else if str_eq(launch.as_str(), LAUNCH_STATUS_DISABLED) {
                    not_running(
                        helper_preflight_failure_message(env, mode, "Helper launch is disabled."),
                    )
                } else {
                    match &config.last_launch_error {
                        Some(error) => not_running(
                            helper_preflight_failure_message(env, mode, error.as_str()),
                        ),
                        None => not_running(
                            helper_preflight_failure_message(env, mode, LAUNCH_NOT_RUNNING_MESSAGE),
                        ),
                    }
                }
            },
        },
    }
}

/// The configuration with which a message is sent: the one that was read, unless it has on record
/// that the daemon does not serve.
pub fn helper_launch_profile(env: &PreflightEnvironment, config: Result<APWRuntimeConfig>) -> (r:
    Result<APWRuntimeConfig>)
    ensures
        match config {
            Err(error) => fails(r, error.code, error.message@),
            Ok(config) => match launch_error(*env, config@) {
                Some(message) => fails(r, Status::ProcessNotRunning, message),
                None => r is Ok && r->Ok_0@ == config@,
            },
        },
{
    match config {
        Err(error) => Err(error),
        Ok(config) => match launch_error_from_config(env, &config) {
            Some(error) => Err(error),
            None => Ok(config),
        },
    }
}

/// The text under the name of the key exchange in an answer.
pub fn parse_json_payload(value: &JsonValue, field: &str) -> (r: Result<String>)
    ensures
        match value@.get("PAKE"@) {
            Some(Json::Str(text)) => r is Ok && r->Ok_0@ == text,
            _ => fails(
                r,
                Status::ProtoInvalidResponse,
                "Invalid "@ + field@ + " payload."@,
            ),
        },
{
    match value.get("PAKE") {
        Some(part) => match part.as_str() {
            Some(text) => {
                return Ok(owned(text.as_str()));
            },
            None => {},
        },
        None => {},
    }
    proto_error(cat3("Invalid ", field, " payload.").as_str())
}

/// The number that a part of a message stands for; zero for null.
pub fn parse_pake_message_code(value: &JsonValue) -> (r: Result<i64>)
    ensures
        if value@ is Null {
            r is Ok && r->Ok_0 == 0
        } else {
            match numeric_token(value@) {
                Some(code) => r is Ok && r->Ok_0 == code,
                None => fails(r, Status::ProtoInvalidResponse, "Malformed PAKE numeric field."@),
            }
        },
{
    if value.is_null() {
        return Ok(0);
    }
    match parse_pake_message_type(value) {
        Some(code) => Ok(code),
        None => proto_error("Malformed PAKE numeric field."),
    }
}

/// The number that a part of a message stands for.
pub fn parse_pake_type(value: &JsonValue, field: &str) -> (r: Result<i64>)
    ensures
        match numeric_token(value@) {
            Some(code) => r is Ok && r->Ok_0 == code,
            None => fails(
                r,
                Status::ProtoInvalidResponse,
                "Invalid "@ + field@ + " message type."@,
            ),
        },
{
    match parse_pake_message_type(value) {
        Some(code) => Ok(code),
        None => proto_error(cat3("Invalid ", field, " message type.").as_str()),
    }
}

/// The session and the encrypted data in a record.
pub open spec fn smsg_parts(value: Json) -> Option<(Seq<char>, Seq<char>)> {
    if is_record(value, 2) {
        match (
            text_part(record_part(value, 0, PAKE_FIELD_TID@)),
            text_part(record_part(value, 1, "SDATA"@)),
        ) {
            (Some(tid), Some(data)) => Some((tid, data)),
            _ => None,
        }
    } else {
        None
    }
}

fn read_smsg(value: &JsonValue) -> (r: Option<SMSG>)
    ensures
        match smsg_parts(value@) {
            Some((tid, data)) => r is Some && r->0.TID@ == tid && r->0.SDATA@ == data,
            None => r is None,
        },
{
    if !check_record(value, 2) {
        return None;
    }
    let tid = get_text(get_part(value, 2, 0, PAKE_FIELD_TID));
    let data = get_text(get_part(value, 2, 1, "SDATA"));
    match (tid, data) {
        (Some(tid), Some(data)) => Some(SMSG { TID: tid, SDATA: data }),
        _ => None,
    }
}

/// The session and the encrypted data of an answer: in its `SMSG` member, else in the answer
/// itself.
pub open spec fn smsg_meets(payload: Json, r: Result<SMSG>) -> bool {
    match payload.get("SMSG"@) {
        Some(message) => if message.get(PAKE_FIELD_TID@) is Some && message.get("SDATA"@) is Some {
            match smsg_parts(message) {
                Some((tid, data)) => r is Ok && r->Ok_0.TID@ == tid && r->Ok_0.SDATA@ == data,
                None => fails(r, Status::ProtoInvalidResponse, "Invalid SMSG payload."@),
            }
        } else {
            fails(r, Status::ProtoInvalidResponse, "Malformed SMSG field."@)
        },
        None => match smsg_parts(payload) {
            Some((tid, data)) => r is Ok && r->Ok_0.TID@ == tid && r->Ok_0.SDATA@ == data,
            None => fails(r, Status::ProtoInvalidResponse, "Invalid helper response payload."@),
        },
    }
}

/// The session and the encrypted data of an answer.
pub fn parse_smsg(payload: &JsonValue) -> (r: Result<SMSG>)
    ensures
        smsg_meets(payload@, r),
{
    match payload.get("SMSG") {
        Some(message) => {
            if message.get(PAKE_FIELD_TID).is_some() && message.get("SDATA").is_some() {
                match read_smsg(message) {
                    Some(smsg) => Ok(smsg),
                    None => proto_error("Invalid SMSG payload."),
                }
            } else {
                proto_error("Malformed SMSG field.")
            }
        },
        None => match read_smsg(payload) {
            Some(smsg) => Ok(smsg),
            None => proto_error("Invalid helper response payload."),
        },
    }
}

/// The URL that is looked up: with a scheme in front where it has none.
pub open spec fn lookup_url(raw: Seq<char>) -> Seq<char> {
    let url = trimmed(raw);
    if occurs_in(url, "://"@) {
        url
    } else {
        "http://"@ + url
    }
}

/// The URL that is looked up: with a scheme in front where it has none.
pub fn normalize_lookup_url(raw: &str) -> (r: String)
    ensures
        r@ == lookup_url(raw@),
{
    let url = trim(raw);
    if contains(url.as_str(), "://") {
        url
    } else {
        cat("http://", url.as_str())
    }
}

/// What can be said of the capabilities.
pub open spec fn capabilities_json() -> Json {
    Json::Obj(Map::<Seq<char>, Json>::empty().insert("canFillOneTimeCodes"@, Json::Bool(true)))
}

fn capabilities() -> (r: JsonValue)
    ensures
        r@ == capabilities_json(),
{
    JsonValue::object().with("canFillOneTimeCodes", JsonValue::Bool(true))
}

/// A step of the handshake as it is sent.
pub open spec fn handshake_json(qid: Seq<char>, pake: Seq<char>) -> Json {
    Json::Obj(
        Map::<Seq<char>, Json>::empty().insert("QID"@, Json::Str(qid)).insert(
            "HSTBRSR"@,
            Json::Str(BROWSER_NAME@),
        ).insert("PAKE"@, Json::Str(pake)),
    )
}

fn handshake(qid: &str, pake: &str) -> (r: JsonValue)
    ensures
        r@ == handshake_json(qid@, pake@),
{
    JsonValue::object().with("QID", JsonValue::text(qid)).with(
        "HSTBRSR",
        JsonValue::text(BROWSER_NAME),
    ).with("PAKE", JsonValue::text(pake))
}

fn bare_message(cmd: i32, msg: Option<JsonValue>, caps: Option<JsonValue>) -> (r: Message)
    ensures
        r == (Message {
            cmd,
            payload: None,
            msg,
            capabilities: caps,
            set_up_totp_page_url: None,
            set_up_totp_uri: None,
            url: None,
            tab_id: None,
            frame_id: None,
        }),
{
    Message {
        cmd,
        payload: None,
        msg,
        capabilities: caps,
        set_up_totp_page_url: None,
        set_up_totp_uri: None,
        url: None,
        tab_id: None,
        frame_id: None,
    }
}

/// The encrypted part of a query as it is sent.
pub open spec fn query_json(session: SessionModel, qid: Seq<char>, sealed: Seq<u8>) -> Json {
    Json::Obj(
        Map::<Seq<char>, Json>::empty().insert("QID"@, Json::Str(qid)).insert(
            "SMSG"@,
            Json::Obj(
                Map::<Seq<char>, Json>::empty().insert("TID"@, Json::Str(session.username)).insert(
                    "SDATA"@,
                    Json::Str(serialized(session, sealed, true)),
                ),
            ),
        ),
    )
}

/// Whether a message has a sealed query in it: in the text encoding of the session, in the envelope
/// of the query id, for a URL and a frame, and nothing else.
pub open spec fn encloses(
    message: Message,
    session: SessionModel,
    command: Command,
    qid: Seq<char>,
    sealed: Seq<u8>,
    url: Seq<char>,
    frame: i32,
) -> bool {
    &&& message.cmd == command_number(command)
    &&& message.msg is None && message.capabilities is None
    &&& message.set_up_totp_page_url is None && message.set_up_totp_uri is None
    &&& opt_text(message.url) == Some(url)
    &&& message.tab_id == Some(frame) && message.frame_id == Some(frame)
    &&& message.payload is Some
    &&& message.payload->0@ is Str
    &&& encode_utf8(message.payload->0@->Str_0) == json_text(query_json(session, qid, sealed))
    &&& session.should_use_base64 ==> base64_bytes(serialized(session, sealed, true)) == Some(sealed)
}

/// Whether a message carries a query that is sealed under the session key.
pub open spec fn carries(
    message: Message,
    session: SessionModel,
    command: Command,
    qid: Seq<char>,
    query: Json,
    url: Seq<char>,
    frame: i32,
) -> bool {
    exists|sealed: Seq<u8>| #[trigger]
        seals(cipher_key(session.shared_key->0), json_text(query), sealed) && encloses(
            message,
            session,
            command,
            qid,
            sealed,
            url,
            frame,
        ) && (plain(query, 100) ==> conveys(cipher_key(session.shared_key->0), query, sealed))
}

/// What a query comes to: the message that carries it, or the error of its encryption.
pub open spec fn query_meets(
    r: Result<Message>,
    session: SessionModel,
    command: Command,
    qid: Seq<char>,
    query: Json,
    url: Seq<char>,
    frame: i32,
) -> bool {
    if session.shared_key is None {
        fails(r, Status::InvalidSession, MISSING_KEY@)
    } else if !key_long_enough(session.shared_key->0) {
        fails(r, Status::ServerError, "Shared key too short."@)
    } else {
        &&& r is Ok ==> carries(r->Ok_0, session, command, qid, query, url, frame)
        &&& r is Err ==> encryption_fails(r)
    }
}

/// The message of a query whose encryption came to `sealed`: the sealed query in its envelope, or
/// the error of the encryption.
pub fn query_message(
    session: &SRPSession,
    command: Command,
    qid: &str,
    sealed: Result<Vec<u8>>,
    url: &str,
    frame: i32,
) -> (r: Result<Message>)
    ensures
        match sealed {
            Ok(bytes) => r is Ok && encloses(
                r->Ok_0,
                session@,
                command,
                qid@,
                bytes@,
                url@,
                frame,
            ),
            Err(error) => fails(r, error.code, error.message@),
        },
{
    let sealed = match sealed {
        Ok(sealed) => sealed,
        Err(error) => {
            return Err(error);
        },
    };
    let data = session.serialize(sealed.as_slice(), true);
    let smsg = JsonValue::object().with("TID", JsonValue::text(session.name().as_str())).with(
        "SDATA",
        JsonValue::String(data),
    );
    let envelope = JsonValue::object().with("QID", JsonValue::text(qid)).with("SMSG", smsg);
    let text = to_json_string(&envelope);
    proof {
        assert(envelope@ == query_json(session@, qid@, sealed@));
    }
    Ok(
        Message {
            cmd: command.number(),
            payload: Some(JsonValue::String(text)),
            msg: None,
            capabilities: None,
            set_up_totp_page_url: None,
            set_up_totp_uri: None,
            url: Some(owned(url)),
            tab_id: Some(frame),
            frame_id: Some(frame),
        },
    )
}

fn build_query(
    session: &SRPSession,
    command: Command,
    qid: &str,
    query: &JsonValue,
    url: &str,
    frame: i32,
) -> (r: Result<Message>)
    ensures
        query_meets(r, session@, command, qid@, query@, url@, frame),
{
    query_message(session, command, qid, session.encrypt(query), url, frame)
}

/// The query for the accounts of a site.
pub open spec fn login_names_query(url: Seq<char>) -> Json {
    Json::Obj(
        Map::<Seq<char>, Json>::empty().insert(
            "ACT"@,
            Json::Str(action_word(Action::GhostSearch)),
        ).insert("URL"@, Json::Str(url)),
    )
}

/// The query for the password of an account.
pub open spec fn password_query(url: Seq<char>, login_name: Seq<char>) -> Json {
    Json::Obj(
        Map::<Seq<char>, Json>::empty().insert(
            "ACT"@,
            Json::Str(action_word(Action::Search)),
        ).insert("URL"@, Json::Str(url)).insert("USR"@, Json::Str(login_name)),
    )
}

/// The query for the one-time codes of a site.
pub open spec fn otp_query(action: Action, url: Seq<char>) -> Json {
    Json::Obj(
        Map::<Seq<char>, Json>::empty().insert("ACT"@, Json::Str(action_word(action))).insert(
            "TYPE"@,
            Json::Str("oneTimeCodes"@),
        ).insert("frameURLs"@, Json::Arr(seq![Json::Str(url)])),
    )
}

fn otp_query_value(action: Action, url: &str) -> (r: JsonValue)
    ensures
        r@ == otp_query(action, url@),
{
    JsonValue::object().with("ACT", JsonValue::text(action.word())).with(
        "TYPE",
        JsonValue::text("oneTimeCodes"),
    ).with("frameURLs", one_text(url))
}

/// The messages that the client sends.
pub struct APWMessages;

impl APWMessages {
    /// The question for the helper's capabilities.
    pub fn get_capabilities() -> (r: Message)
        ensures
            r@ == Json::Obj(
                Map::<Seq<char>, Json>::empty().insert(
                    "cmd"@,
                    Json::Int(command_number(Command::GetCapabilities) as int),
                ).insert("capabilities"@, capabilities_json()),
            ),
    {
        bare_message(Command::GetCapabilities.number(), None, Some(capabilities()))
    }

    /// The first message of the key exchange.
    pub fn request_challenge(session: &SRPSession) -> (r: Result<Message>)
        ensures
            r is Ok && r->Ok_0@ == Json::Obj(
                Map::<Seq<char>, Json>::empty().insert(
                    "cmd"@,
                    Json::Int(command_number(Command::Handshake) as int),
                ).insert(
                    "msg"@,
                    handshake_json("m0"@, base64_text(json_text(key_exchange_json(session@)))),
                ).insert("capabilities"@, capabilities_json()),
            ),
            carries_value(
                base64_text(json_text(key_exchange_json(session@))),
                key_exchange_json(session@),
            ),
            text_reads_back(session@, be_bytes(public_key(session@)), true),
    {
        proof {
            lemma_exchange_is_plain(session@, Seq::empty());
        }
        let payload = to_json(&build_client_key_exchange(session));
        let pake = to_base64(payload.as_slice());
        Ok(
            bare_message(
                Command::Handshake.number(),
                Some(handshake("m0", pake.as_str())),
                Some(capabilities()),
            ),
        )
    }

    /// The query for the accounts of a site.
    pub fn get_login_names_for_url(session: &SRPSession, url: &str) -> (r: Result<Message>)
        ensures
            query_meets(
                r,
                session@,
                Command::GetLoginNamesForUrl,
                "CmdGetLoginNames4URL"@,
                login_names_query(url@),
                url@,
                1,
            ),
    {
        let query = JsonValue::object().with(
            "ACT",
            JsonValue::text(Action::GhostSearch.word()),
        ).with("URL", JsonValue::text(url));
        build_query(session, Command::GetLoginNamesForUrl, "CmdGetLoginNames4URL", &query, url, 1)
    }

    /// The query for the password of an account.
    pub fn get_password_for_url(session: &SRPSession, url: &str, login_name: &str) -> (r: Result<
        Message,
    >)
        ensures
            query_meets(
                r,
                session@,
                Command::GetPasswordForLoginName,
                "CmdGetPassword4LoginName"@,
                password_query(url@, login_name@),
                url@,
                0,
            ),
    {
        let query = JsonValue::object().with("ACT", JsonValue::text(Action::Search.word())).with(
            "URL",
            JsonValue::text(url),
        ).with("USR", JsonValue::text(login_name));
        build_query(
            session,
            Command::GetPasswordForLoginName,
            "CmdGetPassword4LoginName",
            &query,
            url,
            0,
        )
    }

    /// The query for a one-time code.
    pub fn get_otp_for_url(session: &SRPSession, url: &str) -> (r: Result<Message>)
        ensures
            query_meets(
                r,
                session@,
                Command::DidFillOneTimeCode,
                "CmdDidFillOneTimeCode"@,
                otp_query(Action::Search, url@),
                url@,
                0,
            ),
    {
        let query = otp_query_value(Action::Search, url);
        build_query(session, Command::DidFillOneTimeCode, "CmdDidFillOneTimeCode", &query, url, 0)
    }

    /// The query for the accounts that have one-time codes.
    pub fn list_otp_for_url(session: &SRPSession, url: &str) -> (r: Result<Message>)
        ensures
            query_meets(
                r,
                session@,
                Command::GetOneTimeCodes,
                "CmdDidFillOneTimeCode"@,
                otp_query(Action::GhostSearch, url@),
                url@,
                0,
            ),
    {
        let query = otp_query_value(Action::GhostSearch, url);
        build_query(session, Command::GetOneTimeCodes, "CmdDidFillOneTimeCode", &query, url, 0)
    }

    /// The message that carries the client's proof.
    pub fn verify_challenge(session: &SRPSession, proof_bytes: &[u8]) -> (r: Message)
        ensures
            r@ == Json::Obj(
                Map::<Seq<char>, Json>::empty().insert(
                    "cmd"@,
                    Json::Int(command_number(Command::Handshake) as int),
                ).insert(
                    "msg"@,
                    handshake_json(
                        "m2"@,
                        base64_text(json_text(verification_json(session@, proof_bytes@))),
                    ),
                ),
            ),
            carries_value(
                base64_text(json_text(verification_json(session@, proof_bytes@))),
                verification_json(session@, proof_bytes@),
            ),
            text_reads_back(session@, proof_bytes@, false),
    {
        proof {
            lemma_exchange_is_plain(session@, proof_bytes@);
        }
        let frame = to_json(&build_client_verification_message(session, proof_bytes));
        let pake = to_base64(frame.as_slice());
        bare_message(Command::Handshake.number(), Some(handshake("m2", pake.as_str())), None)
    }
}

} // verus!
