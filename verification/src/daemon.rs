//! The daemon: the frames between it and the helper, how the helper is launched and watched, and
//! what its clients are answered. Processes and sockets are the caller's: it reports what happened
//! and carries out what comes back.
use crate::bridge::{persistence_for_browser, writes_bridge, SnapshotModel};
use crate::client::{
    capabilities_json, envelope_failure, envelope_meets, failed_message, failed_status,
    launch_error, APWMessages, BRIDGE_STATUS_ATTACHED, BRIDGE_STATUS_WAITING,
    LAUNCH_NOT_RUNNING_MESSAGE, LAUNCH_STATUS_DISABLED, LAUNCH_STATUS_OK,
};
use crate::error::{fails, APWError, Result};
use crate::host::{
    host_failure, host_state, native_host_failure_message, native_host_preflight_state, HostState,
};
use crate::json::{json_parsed, object_text, parse_json, plain_members, Json, JsonValue};
use crate::preflight::{
    backend_selection, backends, helper_preflight_failure_message,
    law_failure_begins_with_its_cause, manifest_read, preflight_failure, read_manifest,
    resolve_runtime_mode, resolved_mode, strategy_word, HelperBackend, PreflightEnvironment,
};
use crate::secrets::texts;
use crate::text::{
    begins_with, cat, cat3, contains, copy_opt, decimal, decimal_i64, decimal_u64, integer_text,
    occurs_in, opt_text, owned, parse_u32, small_number_of, str_eq, trim, trimmed,
};
use crate::types::{
    command_number, law_status_code_round_trip, status_message, status_text, APWResponseEnvelope,
    Command, ManifestConfig, Message, RuntimeMode, Status,
};
use crate::types::{no_launch, BridgeModel, ConfigModel, SecretSource, CONFIG_SCHEMA};
use crate::utils::{
    law_metadata_write_keeps_session, law_reset_metadata, refused, valid_host, with_key, written,
    WriteConfigInput,
};
use vstd::prelude::*;

verus! {

pub const COMMAND_TIMEOUT_MS: u64 = 30_000;

pub const LAUNCH_PROBE_TIMEOUT_MS: u64 = 1_000;

pub const LAUNCH_PROBE_RESPONSE_TIMEOUT_MS: u64 = 5_000;

pub const PROCESS_STATUS_RETRY_LIMIT: u8 = 40;

pub const PROCESS_STATUS_RETRY_DELAY_MS: u64 = 25;

pub const MAX_HELPER_PAYLOAD: usize = 16 * 1024;

pub const MAX_FRAME_SIZE: usize = 4 + MAX_HELPER_PAYLOAD;

pub const BRIDGE_ATTACH_TIMEOUT_MS: u64 = 5_000;

pub const HELPER_LAUNCH_OK: &'static str = "ok";

pub const HELPER_LAUNCH_FAILED: &'static str = "failed";

pub const HELPER_LAUNCH_DISABLED: &'static str = "disabled";

pub const HELPER_NOT_CONFIGURED: &'static str = "Helper launch metadata is not configured.";

pub const LAUNCHCTL_PATH: &'static str = "/bin/launchctl";

/// The four bytes of a number, the lowest first.
pub open spec fn le_bytes(n: nat) -> Seq<u8> {
    seq![
        (n % 256) as u8,
        (n / 256 % 256) as u8,
        (n / 65536 % 256) as u8,
        (n / 16777216 % 256) as u8,
    ]
}

/// The number of four bytes, the lowest first.
pub open spec fn le_value(bytes: Seq<u8>) -> nat {
    (bytes[0] + 256 * bytes[1] + 65536 * bytes[2] + 16777216 * bytes[3]) as nat
}

/// A payload behind its length.
pub open spec fn framed(payload: Seq<u8>) -> Seq<u8> {
    le_bytes(payload.len()) + payload
}

/// Who is at the other end of a stream of frames.
#[derive(Debug, Clone, Copy, PartialEq, Eq, Structural)]
pub enum FramePeer {
    Helper,
    NativeHost,
}

/// A payload behind its length, unless it is too long.
pub fn encode_frame(peer: FramePeer, payload: &[u8]) -> (r: Result<Vec<u8>>)
    ensures
        if payload@.len() > MAX_HELPER_PAYLOAD {
            fails(
                r,
                Status::InvalidParam,
                match peer {
                    FramePeer::Helper => "Outgoing payload exceeds max size."@,
                    FramePeer::NativeHost => "Outgoing native host payload exceeds max size."@,
                },
            )
        } else {
            r is Ok && r->Ok_0@ == framed(payload@)
        },
{
    if payload.len() > MAX_HELPER_PAYLOAD {
        return match peer {
            FramePeer::Helper => Err(
                APWError::new(Status::InvalidParam, "Outgoing payload exceeds max size."),
            ),
            FramePeer::NativeHost => Err(
                APWError::new(
                    Status::InvalidParam,
                    "Outgoing native host payload exceeds max size.",
                ),
            ),
        };
    }
    let length: usize = payload.len();
    let mut frame: Vec<u8> = Vec::new();
    frame.push((length % 256) as u8);
    frame.push((length / 256 % 256) as u8);
    frame.push((length / 65536 % 256) as u8);
    frame.push((length / 16777216 % 256) as u8);
    frame.extend_from_slice(payload);
    proof {
        assert(frame@ =~= framed(payload@));
    }
    Ok(frame)
}

/// The length that the first four bytes of a frame announce, where a payload may have it.
pub fn frame_length(peer: FramePeer, header: [u8; 4]) -> (r: Result<usize>)
    ensures
        ({
            let length = le_value(header@);
            if length == 0 || length > MAX_HELPER_PAYLOAD {
                fails(
                    r,
                    Status::ProtoInvalidResponse,
                    match peer {
                        FramePeer::Helper => "Invalid helper frame size."@,
                        FramePeer::NativeHost => "Invalid native host frame size."@,
                    },
                )
            } else {
                r is Ok && r->Ok_0 == length
            }
        }),
{
    let length: u64 = header[0] as u64 + 256 * header[1] as u64 + 65536 * header[2] as u64
        + 16777216 * header[3] as u64;
    if length == 0 || length > MAX_HELPER_PAYLOAD as u64 {
        return match peer {
            FramePeer::Helper => Err(
                APWError::new(Status::ProtoInvalidResponse, "Invalid helper frame size."),
            ),
            FramePeer::NativeHost => Err(
                APWError::new(Status::ProtoInvalidResponse, "Invalid native host frame size."),
            ),
        };
    }
    Ok(length as usize)
}

/// The four bytes in front of a payload announce its length, and what follows them is the payload.
pub proof fn law_frame_round_trip(payload: Seq<u8>)
    requires
        payload.len() <= MAX_HELPER_PAYLOAD,
    ensures
        framed(payload).len() == 4 + payload.len(),
        le_value(framed(payload).subrange(0, 4)) == payload.len(),
        framed(payload).subrange(4, framed(payload).len() as int) == payload,
{
    let n = payload.len();
    let header = framed(payload).subrange(0, 4);
    assert(header =~= le_bytes(n));
    assert(n / 65536 == 0);
    assert(n / 16777216 == 0);
    assert(n == n % 256 + 256 * (n / 256));
    assert(n / 256 % 256 == n / 256);
    assert(framed(payload).subrange(4, framed(payload).len() as int) =~= payload);
}

/// How reading from or writing to the helper failed.
#[derive(Debug, Clone, Copy, PartialEq, Eq, Structural)]
pub enum HelperIoFailure {
    BrokenPipe,
    UnexpectedEof,
    Other,
}

/// The status that a failure stands for, where it means that the helper is gone.
pub fn map_helper_io_error(failure: HelperIoFailure) -> (r: Option<Status>)
    ensures
        r == match failure {
            HelperIoFailure::Other => None,
            _ => Some(Status::ProcessNotRunning),
        },
{
    match failure {
        HelperIoFailure::BrokenPipe => Some(Status::ProcessNotRunning),
        HelperIoFailure::UnexpectedEof => Some(Status::ProcessNotRunning),
        HelperIoFailure::Other => None,
    }
}

/// What to tell where the helper is gone.
pub fn helper_not_running_message() -> (r: String)
    ensures
        r@ == LAUNCH_NOT_RUNNING_MESSAGE@,
{
    owned(LAUNCH_NOT_RUNNING_MESSAGE)
}

/// The error where writing to the helper failed.
pub fn helper_write_failure(failure: HelperIoFailure, complaint: &str) -> (r: APWError)
    ensures
        if failure is Other {
            r.code == Status::GenericError && r.message@ == "Failed writing to helper process: "@
                + complaint@
        } else {
            r.code == Status::ProcessNotRunning && r.message@ == LAUNCH_NOT_RUNNING_MESSAGE@
        },
{
    match map_helper_io_error(failure) {
        Some(code) => APWError { code, message: helper_not_running_message() },
        None => APWError {
            code: Status::GenericError,
            message: cat("Failed writing to helper process: ", complaint),
        },
    }
}

/// The error where reading from the helper failed.
pub fn helper_read_failure(failure: HelperIoFailure, complaint: &str) -> (r: APWError)
    ensures
        if failure is Other {
            r.code == Status::ProtoInvalidResponse && r.message@
                == "Failed reading helper response: "@ + complaint@
        } else {
            r.code == Status::ProcessNotRunning && r.message@ == LAUNCH_NOT_RUNNING_MESSAGE@
        },
{
    match map_helper_io_error(failure) {
        Some(code) => APWError { code, message: helper_not_running_message() },
        None => APWError {
            code: Status::ProtoInvalidResponse,
            message: cat("Failed reading helper response: ", complaint),
        },
    }
}

fn bad_response<T>(message: &str) -> (r: Result<T>)
    ensures
        fails(r, Status::ProtoInvalidResponse, message@),
{
    Err(APWError::new(Status::ProtoInvalidResponse, message))
}

/// What the bytes of the helper come to: a JSON object.
pub open spec fn payload_meets(raw: Seq<u8>, r: Result<JsonValue>) -> bool {
    if raw.len() > MAX_HELPER_PAYLOAD {
        fails(r, Status::ProtoInvalidResponse, "Response too large."@)
    } else {
        match json_parsed(raw) {
            None => fails(r, Status::ProtoInvalidResponse, "Helper returned invalid JSON."@),
            Some(value) => if value is Obj {
                r is Ok && r->Ok_0@ == value
            } else {
                fails(r, Status::ProtoInvalidResponse, "Invalid helper response payload."@)
            },
        }
    }
}

/// The JSON object that the bytes of the helper write.
pub fn parse_helper_payload(raw: &[u8]) -> (r: Result<JsonValue>)
    ensures
        payload_meets(raw@, r),
{
    if raw.len() > MAX_HELPER_PAYLOAD {
        return bad_response("Response too large.");
    }
    match parse_json(raw) {
        None => bad_response("Helper returned invalid JSON."),
        Some(value) => if value.is_object() {
            Ok(value)
        } else {
            bad_response("Invalid helper response payload.")
        },
    }
}

/// What an answer of the helper comes to: the payload or the error of an envelope, or the whole of
/// an object that is none.
pub open spec fn shape_meets(payload: Json, r: Result<JsonValue>) -> bool {
    if !(payload is Obj) {
        fails(r, Status::ProtoInvalidResponse, "Invalid helper response payload."@)
    } else {
        match payload.get("ok"@) {
            Some(Json::Bool(true)) => match payload.get("payload"@) {
                Some(inner) => r is Ok && r->Ok_0@ == inner,
                None => fails(r, Status::ProtoInvalidResponse, "Invalid helper payload."@),
            },
            Some(Json::Bool(false)) => fails(r, failed_status(payload), failed_message(payload)),
            _ => r is Ok && r->Ok_0@ == payload,
        }
    }
}

/// What an answer of the helper comes to.
pub fn parse_helper_response_shape(payload: &JsonValue) -> (r: Result<JsonValue>)
    ensures
        shape_meets(payload@, r),
{
    if !payload.is_object() {
        return bad_response("Invalid helper response payload.");
    }
    let ok = match payload.get("ok") {
        Some(flag) => flag.as_bool(),
        None => None,
    };
    match ok {
        None => Ok(payload.copy()),
        Some(true) => match payload.get("payload") {
            Some(inner) => Ok(inner.copy()),
            None => bad_response("Invalid helper payload."),
        },
        Some(false) => Err(envelope_failure(payload)),
    }
}

/// What a frame of the helper comes to.
pub open spec fn frame_meets(raw: Seq<u8>, r: Result<JsonValue>) -> bool {
    exists|payload: Result<JsonValue>|
        {
            &&& #[trigger] payload_meets(raw, payload)
            &&& match payload {
                Ok(value) => shape_meets(value@, r),
                Err(error) => fails(r, error.code, error.message@),
            }
        }
}

/// What a frame of the helper comes to.
pub fn read_helper_frame(raw: &[u8]) -> (r: Result<JsonValue>)
    ensures
        frame_meets(raw@, r),
{
    let payload = parse_helper_payload(raw);
    assert(payload_meets(raw@, payload));
    match payload {
        Ok(value) => parse_helper_response_shape(&value),
        Err(error) => Err(error),
    }
}

/// The message that asks the helper whether it is there.
pub fn capabilities_probe_message() -> (r: Message)
    ensures
        r@ == Json::Obj(
            Map::<Seq<char>, Json>::empty().insert(
                "cmd"@,
                Json::Int(command_number(Command::GetCapabilities) as int),
            ).insert("capabilities"@, capabilities_json()),
        ),
{
    APWMessages::get_capabilities()
}

/// Whether the answer to that message shows that the helper is there: it has to hold an object.
pub fn probe_helper_readiness(response: &[u8]) -> (r: Result<()>)
    ensures
        exists|answer: Result<JsonValue>|
            {
                &&& #[trigger] frame_meets(response@, answer)
                &&& match answer {
                    Err(error) => fails(r, error.code, error.message@),
                    Ok(value) => if value@ is Obj {
                        r is Ok
                    } else {
                        fails(
                            r,
                            Status::ProtoInvalidResponse,
                            "Invalid helper capabilities payload."@,
                        )
                    },
                }
            },
{
    let answer = read_helper_frame(response);
    assert(frame_meets(response@, answer));
    match answer {
        Err(error) => Err(error),
        Ok(value) => if value.is_object() {
            Ok(())
        } else {
            bad_response("Invalid helper capabilities payload.")
        },
    }
}

/// How the launch of the helper went.
#[derive(Debug)]
pub struct HelperLaunchContext {
    pub launch_strategy: String,
    pub launch_status: String,
    pub launch_error: Option<String>,
}

/// Whether a context says so.
pub open spec fn launch_is(
    context: HelperLaunchContext,
    strategy: Seq<char>,
    status: Seq<char>,
    error: Option<Seq<char>>,
) -> bool {
    context.launch_strategy@ == strategy && context.launch_status@ == status && opt_text(
        context.launch_error,
    ) == error
}

impl Default for HelperLaunchContext {
    fn default() -> (r: HelperLaunchContext)
        ensures
            launch_is(r, Seq::empty(), HELPER_LAUNCH_FAILED@, Some(HELPER_NOT_CONFIGURED@)),
    {
        HelperLaunchContext {
            launch_strategy: String::new(),
            launch_status: owned(HELPER_LAUNCH_FAILED),
            launch_error: Some(owned(HELPER_NOT_CONFIGURED)),
        }
    }
}

/// The user that the helper is launched for: the number in the environment, else the one that the
/// system reports.
pub open spec fn launch_uid(environment: Option<Seq<char>>, reported: Option<Seq<char>>) -> Option<
    u32,
> {
    let first = match environment {
        Some(text) => small_number_of(trimmed(text)),
        None => None,
    };
    if first is Some {
        first
    } else {
        match reported {
            Some(text) => small_number_of(trimmed(text)),
            None => None,
        }
    }
}

/// The user that the helper is launched for.
pub fn resolve_uid(environment: &Option<String>, reported: &Option<String>) -> (r: Option<u32>)
    ensures
        r == launch_uid(opt_text(*environment), opt_text(*reported)),
{
    match environment {
        Some(text) => match parse_u32(trim(text.as_str()).as_str()) {
            Some(uid) => {
                return Some(uid);
            },
            None => {},
        },
        None => {},
    }
    match reported {
        Some(text) => parse_u32(trim(text.as_str()).as_str()),
        None => None,
    }
}

/// The program and its arguments that launch the helper.
pub open spec fn launch_line(backend: HelperBackend, path: Seq<char>, uid: Option<u32>) -> Seq<
    Seq<char>,
> {
    match (backend, uid) {
        (HelperBackend::LaunchdCompatible, Some(uid)) => seq![
            LAUNCHCTL_PATH@,
            "asuser"@,
            decimal(uid as nat),
            path,
            "."@,
        ],
        _ => seq![path, "."@],
    }
}

/// The program and its arguments that launch the helper.
pub fn launch_command(backend: HelperBackend, path: &str, uid: Option<u32>) -> (r: Vec<String>)
    ensures
        texts(r@) == launch_line(backend, path@, uid),
{
    let mut line: Vec<String> = Vec::new();
    match (backend, uid) {
        (HelperBackend::LaunchdCompatible, Some(uid)) => {
            line.push(owned(LAUNCHCTL_PATH));
            line.push(owned("asuser"));
            line.push(decimal_u64(uid as u64));
        },
        _ => {},
    }
    line.push(owned(path));
    line.push(owned("."));
    proof {
        assert(texts(line@) =~= launch_line(backend, path@, uid));
    }
    line
}

/// The launch of the helper: one way after the other, until one works.
#[derive(Debug)]
pub struct LaunchProbe {
    mode: RuntimeMode,
    backends: Vec<HelperBackend>,
    tried: usize,
    last_error: Option<String>,
}

/// The model of a launch: how many ways were tried, and how the last one failed.
#[verifier::ext_equal]
pub struct ProbeModel {
    pub mode: RuntimeMode,
    pub tried: nat,
    pub last_error: Option<Seq<char>>,
}

impl View for LaunchProbe {
    type V = ProbeModel;

    closed spec fn view(&self) -> ProbeModel {
        ProbeModel {
            mode: self.mode,
            tried: self.tried as nat,
            last_error: opt_text(self.last_error),
        }
    }
}

/// What comes next in a launch.
#[derive(Debug)]
pub enum ProbeStep {
    /// The helper is to be launched in this way.
    Launch(HelperBackend),
    /// There is no further way.
    Finished(HelperLaunchContext),
}

/// The word for the way that was tried last.
pub open spec fn strategy_of(probe: ProbeModel) -> Seq<char> {
    if probe.tried == 0 {
        HELPER_LAUNCH_FAILED@
    } else {
        strategy_word(backends(probe.mode)[probe.tried - 1])
    }
}

impl LaunchProbe {
    /// Whether no more ways were tried than there are.
    pub closed spec fn wf(&self) -> bool {
        self.backends@ == backends(self.mode) && self.tried <= self.backends@.len()
    }

    /// A launch in a mode, before the first try.
    pub fn new(mode: RuntimeMode) -> (r: LaunchProbe)
        ensures
            r.wf(),
            r@ == (ProbeModel { mode, tried: 0, last_error: None }),
    {
        LaunchProbe { mode, backends: backend_selection(mode), tried: 0, last_error: None }
    }

    fn strategy(&self) -> (r: String)
        requires
            self.wf(),
        ensures
            r@ == strategy_of(self@),
    {
        if self.tried == 0 {
            owned(HELPER_LAUNCH_FAILED)
        } else {
            let last: HelperBackend = self.backends[self.tried - 1];
            owned(last.strategy())
        }
    }

    /// The next way to try, or how the launch went where all have failed.
    pub fn next_step(&mut self) -> (r: ProbeStep)
        requires
            old(self).wf(),
        ensures
            final(self).wf(),
            ({
                let before = old(self)@;
                let ways = backends(before.mode);
                if before.mode == RuntimeMode::Disabled {
                    &&& final(self)@ == before
                    &&& r matches ProbeStep::Finished(context)
                    &&& launch_is(
                        context,
                        HELPER_LAUNCH_DISABLED@,
                        HELPER_LAUNCH_DISABLED@,
                        Some("Runtime mode disabled launch checks."@),
                    )
                } else if before.tried < ways.len() {
                    &&& r == ProbeStep::Launch(ways[before.tried as int])
                    &&& final(self)@ == (ProbeModel { tried: before.tried + 1, ..before })
                } else {
                    &&& final(self)@ == before
                    &&& r matches ProbeStep::Finished(context)
                    &&& launch_is(
                        context,
                        strategy_of(before),
                        HELPER_LAUNCH_FAILED@,
                        Some(
                            match before.last_error {
                                Some(error) => error,
                                None => "No launch backend available."@,
                            },
                        ),
                    )
                }
            }),
    {
        let disabled = match self.mode {
            RuntimeMode::Disabled => true,
            _ => false,
        };
        if disabled {
            return ProbeStep::Finished(
                HelperLaunchContext {
                    launch_strategy: owned(HELPER_LAUNCH_DISABLED),
                    launch_status: owned(HELPER_LAUNCH_DISABLED),
                    launch_error: Some(owned("Runtime mode disabled launch checks.")),
                },
            );
        }
        if self.tried < self.backends.len() {
            let backend: HelperBackend = self.backends[self.tried];
            self.tried = self.tried + 1;
            return ProbeStep::Launch(backend);
        }
        let error = match &self.last_error {
            Some(error) => owned(error.as_str()),
            None => owned("No launch backend available."),
        };
        ProbeStep::Finished(
            HelperLaunchContext {
                launch_strategy: self.strategy(),
                launch_status: owned(HELPER_LAUNCH_FAILED),
                launch_error: Some(error),
            },
        )
    }

    /// Takes down how the way that was tried last has failed.
    pub fn note_failure(&mut self, message: String)
        requires
            old(self).wf(),
        ensures
            final(self).wf(),
            final(self)@ == (ProbeModel { last_error: Some(message@), ..old(self)@ }),
    {
        self.last_error = Some(message);
    }

    /// How the launch went where the way that was tried last has worked.
    pub fn succeeded(&self) -> (r: HelperLaunchContext)
        requires
            self.wf(),
        ensures
            launch_is(r, strategy_of(self@), HELPER_LAUNCH_OK@, None),
    {
        HelperLaunchContext {
            launch_strategy: self.strategy(),
            launch_status: owned(HELPER_LAUNCH_OK),
            launch_error: None,
        }
    }
}

/// What is seen of the helper's process.
#[derive(Debug)]
pub enum HelperState {
    Running,
    Exited { code: Option<i32>, signal: Option<i32> },
    CheckFailed(String),
}

pub const SIGKILL_MESSAGE: &'static str =
    "Helper process was terminated by SIGKILL (Code Signature Constraint Violation). Helper launch requires an approved browser/native host context on this OS and cannot be launched directly from this CLI today.";

/// What to tell of the end of the helper's process.
pub open spec fn termination_message(code: Option<i32>, signal: Option<i32>) -> Seq<char> {
    match (code, signal) {
        (Some(code), _) => "Helper process exited with code "@ + integer_text(code as int) + "."@,
        (None, Some(signal)) => if signal == 9 {
            SIGKILL_MESSAGE@
        } else {
            "Helper process terminated by signal "@ + integer_text(signal as int) + "."@
        },
        (None, None) => LAUNCH_NOT_RUNNING_MESSAGE@,
    }
}

/// What to tell of the end of the helper's process.
pub fn helper_termination_message(code: Option<i32>, signal: Option<i32>) -> (r: String)
    ensures
        r@ == termination_message(code, signal),
{
    match (code, signal) {
        (Some(code), _) => cat3(
            "Helper process exited with code ",
            decimal_i64(code as i64).as_str(),
            ".",
        ),
        (None, Some(signal)) => if signal == 9 {
            owned(SIGKILL_MESSAGE)
        } else {
            cat3(
                "Helper process terminated by signal ",
                decimal_i64(signal as i64).as_str(),
                ".",
            )
        },
        (None, None) => helper_not_running_message(),
    }
}

/// The error where the helper's process has ended.
pub fn report_termination_if_any(code: Option<i32>, signal: Option<i32>) -> (r: APWError)
    ensures
        r.code == Status::ProcessNotRunning,
        r.message@ == termination_message(code, signal),
{
    APWError {
        code: Status::ProcessNotRunning,
        message: helper_termination_message(code, signal),
    }
}

/// What to tell where the helper's process could not be looked at.
pub open spec fn check_failure(complaint: Seq<char>) -> Seq<char> {
    "Helper process check failed: "@ + complaint
}

/// How looking at the helper's process ended.
#[derive(Debug)]
pub enum PollEnd {
    /// It has ended, or could not be looked at; the message tells which.
    Gone(String),
    /// It was running each time.
    Alive,
}

/// What comes next in looking at the helper's process.
#[derive(Debug)]
pub enum PollStep {
    /// It is to be looked at again, for the numbered time.
    Again(u8),
    End(PollEnd),
}

/// Takes what is seen of the helper's process for the numbered time. It is looked at a limited
/// number of times, until it has ended.
pub fn poll_helper(retries: u8, state: HelperState) -> (r: PollStep)
    ensures
        match state {
            HelperState::Exited { code, signal } => r matches PollStep::End(PollEnd::Gone(message))
                && message@ == termination_message(code, signal),
            HelperState::CheckFailed(complaint) => r matches PollStep::End(PollEnd::Gone(message))
                && message@ == check_failure(complaint@),
            HelperState::Running => if retries + 1 < PROCESS_STATUS_RETRY_LIMIT {
                r == PollStep::Again((retries + 1) as u8)
            } else {
                r == PollStep::End(PollEnd::Alive)
            },
        },
{
    match state {
        HelperState::Exited { code, signal } => PollStep::End(
            PollEnd::Gone(helper_termination_message(code, signal)),
        ),
        HelperState::CheckFailed(complaint) => PollStep::End(
            PollEnd::Gone(cat("Helper process check failed: ", complaint.as_str())),
        ),
        HelperState::Running => if retries < PROCESS_STATUS_RETRY_LIMIT - 1 {
            PollStep::Again(retries + 1)
        } else {
            PollStep::End(PollEnd::Alive)
        },
    }
}

/// What to tell of a helper that was not ready: how its process ended, else the failure itself.
pub fn resolve_probe_failure_message(end: PollEnd, fallback: String) -> (r: String)
    ensures
        r@ == match end {
            PollEnd::Gone(message) => message@,
            PollEnd::Alive => fallback@,
        },
{
    match end {
        PollEnd::Gone(message) => message,
        PollEnd::Alive => fallback,
    }
}

/// Whether the helper's process was running each time.
pub fn ensure_helper_stays_alive(end: PollEnd) -> (r: Result<()>)
    ensures
        match end {
            PollEnd::Gone(message) => fails(r, Status::ProcessNotRunning, message@),
            PollEnd::Alive => r is Ok,
        },
{
    match end {
        PollEnd::Gone(message) => Err(APWError { code: Status::ProcessNotRunning, message }),
        PollEnd::Alive => Ok(()),
    }
}

/// Whether a launched helper is ready: its process has to run and to answer. The answer counts
/// only where the process runs.
pub fn launch_readiness(state: HelperState, answer: Result<()>) -> (r: Result<()>)
    ensures
        match state {
            HelperState::Running => r == answer,
            HelperState::Exited { code, signal } => fails(
                r,
                Status::ProcessNotRunning,
                termination_message(code, signal),
            ),
            HelperState::CheckFailed(complaint) => fails(
                r,
                Status::ProcessNotRunning,
                check_failure(complaint@),
            ),
        },
{
    match state {
        HelperState::Running => answer,
        HelperState::Exited { code, signal } => Err(report_termination_if_any(code, signal)),
        HelperState::CheckFailed(complaint) => Err(
            APWError {
                code: Status::ProcessNotRunning,
                message: cat("Helper process check failed: ", complaint.as_str()),
            },
        ),
    }
}

/// Whether an input writes how a launch went: the address, the mode and the launch, in place of
/// what was on record of a bridge.
pub open spec fn writes_launch(
    input: WriteConfigInput,
    host: Seq<char>,
    port: u16,
    mode: RuntimeMode,
    strategy: Seq<char>,
    status: Seq<char>,
    error: Option<Seq<char>>,
    clear_auth: bool,
) -> bool {
    &&& input.username is None && input.shared_key is None
    &&& input.port == Some(port) && opt_text(input.host) == Some(host)
    &&& input.allow_empty && input.clear_auth == clear_auth
    &&& input.runtime_mode == Some(mode)
    &&& opt_text(input.last_launch_status) == Some(status)
    &&& opt_text(input.last_launch_error) == error
    &&& opt_text(input.last_launch_strategy) == Some(strategy)
    &&& input.bridge_status is None && input.bridge_browser is None
    &&& input.bridge_connected_at is None && input.bridge_last_error is None
    &&& !input.reset_launch_metadata && input.reset_bridge_metadata
    &&& !input.refresh_created_at
}

fn launch_input(
    host: &str,
    port: u16,
    runtime_mode: RuntimeMode,
    strategy: &str,
    status: &str,
    error: Option<String>,
) -> (r: WriteConfigInput)
    ensures
        writes_launch(
            r,
            host@,
            port,
            runtime_mode,
            strategy@,
            status@,
            opt_text(error),
            false,
        ),
{
    let mut input = WriteConfigInput::default();
    input.port = Some(port);
    input.host = Some(owned(host));
    input.allow_empty = true;
    input.runtime_mode = Some(runtime_mode);
    input.last_launch_status = Some(owned(status));
    input.last_launch_error = error;
    input.last_launch_strategy = Some(owned(strategy));
    input.reset_bridge_metadata = true;
    input
}

/// What is written of a launch.
pub fn persistence_for_launch(
    host: &str,
    port: u16,
    context: &HelperLaunchContext,
    runtime_mode: RuntimeMode,
) -> (r: Option<WriteConfigInput>)
    ensures
        r is Some && writes_launch(
            r->0,
            host@,
            port,
            runtime_mode,
            context.launch_strategy@,
            context.launch_status@,
            opt_text(context.launch_error),
            false,
        ),
{
    Some(
        launch_input(
            host,
            port,
            runtime_mode,
            context.launch_strategy.as_str(),
            context.launch_status.as_str(),
            copy_opt(&context.launch_error),
        ),
    )
}

/// What is written of a helper that is gone.
pub fn persistence_for_launch_error(
    host: &str,
    port: u16,
    runtime_mode: RuntimeMode,
    launch_strategy: &str,
    launch_error: String,
) -> (r: WriteConfigInput)
    ensures
        writes_launch(
            r,
            host@,
            port,
            runtime_mode,
            launch_strategy@,
            HELPER_LAUNCH_FAILED@,
            Some(launch_error@),
            false,
        ),
{
    launch_input(host, port, runtime_mode, launch_strategy, HELPER_LAUNCH_FAILED, Some(launch_error))
}

/// What is written once the daemon serves with a launched helper: the launch, and no session.
pub fn persistence_for_service(
    host: &str,
    port: u16,
    context: &HelperLaunchContext,
    runtime_mode: RuntimeMode,
) -> (r: WriteConfigInput)
    ensures
        writes_launch(
            r,
            host@,
            port,
            runtime_mode,
            context.launch_strategy@,
            context.launch_status@,
            opt_text(context.launch_error),
            true,
        ),
{
    let mut input = launch_input(
        host,
        port,
        runtime_mode,
        context.launch_strategy.as_str(),
        context.launch_status.as_str(),
        copy_opt(&context.launch_error),
    );
    input.clear_auth = true;
    input
}

/// What is known of the native host before it is attached.
pub open spec fn native_waiting() -> SnapshotModel {
    SnapshotModel {
        status: BRIDGE_STATUS_WAITING@,
        browser: Some("native"@),
        connected_at: None,
        last_error: None,
    }
}

/// What is written where the native host is waited for: there is no session.
pub fn persist_native_waiting(host: &str, port: u16, runtime_mode: RuntimeMode) -> (r:
    WriteConfigInput)
    ensures
        writes_bridge(r, host@, port, runtime_mode, native_waiting(), true),
{
    let mut input = persistence_for_browser(
        host,
        port,
        runtime_mode,
        BRIDGE_STATUS_WAITING,
        Some(owned("native")),
        None,
        None,
    );
    input.clear_auth = true;
    input
}

/// What is written where a browser is waited for: there is no session, but on a dry run the one on
/// record is left.
pub fn persist_browser_waiting(host: &str, port: u16, runtime_mode: RuntimeMode, dry_run: bool) -> (r:
    WriteConfigInput)
    ensures
        writes_bridge(r, host@, port, runtime_mode, crate::bridge::waiting(), !dry_run),
{
    let mut input = persistence_for_browser(
        host,
        port,
        runtime_mode,
        BRIDGE_STATUS_WAITING,
        None,
        None,
        None,
    );
    input.clear_auth = !dry_run;
    input
}

/// How the daemon is to be started.
#[derive(Debug)]
pub struct DaemonOptions {
    pub port: u16,
    pub host: String,
    pub runtime_mode: RuntimeMode,
    pub dry_run: bool,
}

impl Default for DaemonOptions {
    fn default() -> (r: DaemonOptions)
        ensures
            r.port == 0,
            r.host@ == "127.0.0.1"@,
            r.runtime_mode == RuntimeMode::Auto,
            !r.dry_run,
    {
        DaemonOptions {
            port: 0,
            host: owned("127.0.0.1"),
            runtime_mode: RuntimeMode::Auto,
            dry_run: false,
        }
    }
}

/// The address that the daemon binds to.
pub open spec fn bind_host(host: Seq<char>) -> Seq<char> {
    if trimmed(host).len() == 0 {
        "127.0.0.1"@
    } else {
        host
    }
}

/// The port that is meant by the one that was asked for: zero asks for the default port.
pub open spec fn requested_port(port: u16) -> u16 {
    if port == 0 {
        10_000
    } else {
        port
    }
}

/// How the daemon starts.
#[derive(Debug)]
pub enum StartPlan {
    /// It serves a browser, on the port that was asked for.
    Browser { host: String, port: u16, dry_run: bool },
    /// It serves the native host.
    Native { host: String, port: u16, dry_run: bool },
    /// It launches a helper. It binds to one port; where it does not get to that, the other one is
    /// put on record.
    Helper {
        host: String,
        port: u16,
        recorded_port: u16,
        mode: RuntimeMode,
        manifest: ManifestConfig,
        dry_run: bool,
    },
}

pub const NATIVE_ONLY_MACOS: &'static str = "APW native host is supported only on macOS.";

pub const NATIVE_NOT_READY: &'static str = "APW native host is not installed or not ready.";

pub const NATIVE_NOT_IN_TIME: &'static str =
    "APW native host did not attach before startup timed out.";

/// What starting in a mode that needs no further resolution comes to.
pub open spec fn plan_meets(
    env: PreflightEnvironment,
    options: DaemonOptions,
    manifest: Option<ManifestConfig>,
    r: Result<StartPlan>,
) -> bool {
    let address = bind_host(options.host@);
    match options.runtime_mode {
        RuntimeMode::Browser => r matches Ok(StartPlan::Browser { host, port, dry_run }) && host@
            == address && port == options.port && dry_run == options.dry_run,
        RuntimeMode::Native => if !env.on_macos {
            fails(r, Status::ProcessNotRunning, host_failure(env.host, NATIVE_ONLY_MACOS@))
        } else if host_state(env.host) != HostState::Ready {
            fails(r, Status::ProcessNotRunning, host_failure(env.host, NATIVE_NOT_READY@))
        } else {
            r matches Ok(StartPlan::Native { host, port, dry_run }) && host@ == address && port
                == requested_port(options.port) && dry_run == options.dry_run
        },
        _ => match manifest {
            None => fails(
                r,
                Status::InvalidConfig,
                "Missing helper manifest for non-browser runtime mode."@,
            ),
            Some(given) => r matches Ok(
                StartPlan::Helper { host, port, recorded_port, mode, manifest: used, dry_run },
            ) && host@ == address && port == options.port && recorded_port == requested_port(
                options.port,
            ) && mode == options.runtime_mode && used == given && dry_run == options.dry_run,
        },
    }
}

/// How the daemon starts in a mode that needs no further resolution.
pub fn plan_start(
    env: &PreflightEnvironment,
    options: DaemonOptions,
    manifest: Option<ManifestConfig>,
) -> (r: Result<StartPlan>)
    ensures
        plan_meets(*env, options, manifest, r),
{
    let host = if trim(options.host.as_str()).as_str().is_empty() {
        owned("127.0.0.1")
    } else {
        owned(options.host.as_str())
    };
    let recorded_port: u16 = if options.port == 0 {
        10_000
    } else {
        options.port
    };
    match options.runtime_mode {
        RuntimeMode::Browser => Ok(
            StartPlan::Browser { host, port: options.port, dry_run: options.dry_run },
        ),
        RuntimeMode::Native => {
            if !env.on_macos {
                return Err(
                    APWError {
                        code: Status::ProcessNotRunning,
                        message: native_host_failure_message(&env.host, NATIVE_ONLY_MACOS),
                    },
                );
            }
            match native_host_preflight_state(&env.host) {
                HostState::Ready => Ok(
                    StartPlan::Native { host, port: recorded_port, dry_run: options.dry_run },
                ),
                _ => Err(
                    APWError {
                        code: Status::ProcessNotRunning,
                        message: native_host_failure_message(&env.host, NATIVE_NOT_READY),
                    },
                ),
            }
        },
        mode => match manifest {
            None => Err(
                APWError::new(
                    Status::InvalidConfig,
                    "Missing helper manifest for non-browser runtime mode.",
                ),
            ),
            Some(manifest) => Ok(
                StartPlan::Helper {
                    host,
                    port: options.port,
                    recorded_port,
                    mode,
                    manifest,
                    dry_run: options.dry_run,
                },
            ),
        },
    }
}

/// The error where the native host was not attached in time.
pub fn native_attach_failure(env: &PreflightEnvironment) -> (r: APWError)
    ensures
        r.code == Status::ProcessNotRunning,
        r.message@ == host_failure(env.host, NATIVE_NOT_IN_TIME@),
{
    APWError {
        code: Status::ProcessNotRunning,
        message: native_host_failure_message(&env.host, NATIVE_NOT_IN_TIME),
    }
}

/// Whether an error at the start calls for guidance on the launch.
pub open spec fn wants_guidance(code: Status, message: Seq<char>) -> bool {
    code == Status::ProcessNotRunning || code == Status::InvalidConfig || code
        == Status::CommunicationTimeout || occurs_in(message, "manifest"@) || occurs_in(
        message,
        "helper"@,
    ) || occurs_in(message, "Runtime mode"@)
}

/// The message of an error at the start, with guidance where it calls for it.
pub open spec fn explained(
    env: PreflightEnvironment,
    mode: RuntimeMode,
    code: Status,
    message: Seq<char>,
) -> Seq<char> {
    if wants_guidance(code, message) {
        preflight_failure(env, mode, message)
    } else {
        message
    }
}

/// An error at the start, with guidance where it calls for it.
pub fn explain_start_failure(env: &PreflightEnvironment, mode: RuntimeMode, error: APWError) -> (r:
    APWError)
    ensures
        r.code == error.code,
        r.message@ == explained(*env, mode, error.code, error.message@),
{
    let text = error.message.as_str();
    let listed = match error.code {
        Status::ProcessNotRunning => true,
        Status::InvalidConfig => true,
        Status::CommunicationTimeout => true,
        _ => false,
    };
    if listed || contains(text, "manifest") || contains(text, "helper") || contains(
        text,
        "Runtime mode",
    ) {
        APWError {
            code: error.code,
            message: helper_preflight_failure_message(env, mode, text),
        }
    } else {
        error
    }
}

/// What an outcome of planning comes to once its error is explained.
pub open spec fn explained_plan(
    env: PreflightEnvironment,
    options: DaemonOptions,
    manifest: Option<ManifestConfig>,
    r: Result<StartPlan>,
) -> bool {
    exists|planned: Result<StartPlan>|
        {
            &&& #[trigger] plan_meets(env, options, manifest, planned)
            &&& match planned {
                Ok(_) => r == planned,
                Err(error) => fails(
                    r,
                    error.code,
                    explained(env, options.runtime_mode, error.code, error.message@),
                ),
            }
        }
}

/// How the daemon starts: with the helper's manifest, where the mode calls for a helper. Errors
/// come with guidance.
pub fn start_daemon(env: &PreflightEnvironment, options: DaemonOptions) -> (r: Result<StartPlan>)
    ensures
        ({
            let mode = resolved_mode(options.runtime_mode, env.macos_major_version);
            let resolved = DaemonOptions { runtime_mode: mode, ..options };
            if mode == RuntimeMode::Browser || mode == RuntimeMode::Native {
                explained_plan(*env, resolved, None, r)
            } else {
                exists|read: Result<ManifestConfig>|
                    {
                        &&& #[trigger] manifest_read(env.on_macos, env.manifest, read)
                        &&& match read {
                            Ok(manifest) => explained_plan(*env, resolved, Some(manifest), r),
                            Err(error) => fails(
                                r,
                                error.code,
                                preflight_failure(*env, mode, error.message@),
                            ),
                        }
                    }
            }
        }),
{
    let mode = resolve_runtime_mode(options.runtime_mode, env.macos_major_version);
    let resolved = DaemonOptions {
        port: options.port,
        host: options.host,
        runtime_mode: mode,
        dry_run: options.dry_run,
    };
    let bridged = match mode {
        RuntimeMode::Browser => true,
        RuntimeMode::Native => true,
        _ => false,
    };
    let manifest = if bridged {
        None
    } else {
        let read = read_manifest(env.on_macos, &env.manifest);
        assert(manifest_read(env.on_macos, env.manifest, read));
        match read {
            Ok(manifest) => Some(manifest),
            Err(error) => {
                return Err(
                    APWError {
                        code: error.code,
                        message: helper_preflight_failure_message(
                            env,
                            mode,
                            error.message.as_str(),
                        ),
                    },
                );
            },
        }
    };
    let planned = plan_start(env, resolved, manifest);
    assert(plan_meets(*env, resolved, manifest, planned));
    match planned {
        Ok(plan) => Ok(plan),
        Err(error) => Err(explain_start_failure(env, mode, error)),
    }
}

/// What follows from how a launch went.
#[derive(Debug)]
pub struct LaunchConclusion {
    /// What is to be written first.
    pub record: Option<WriteConfigInput>,
    /// Whether the daemon goes on to serve, or the error that it ends with.
    pub serves: Result<bool>,
}

/// What follows from how a launch went: the daemon serves with a helper that was launched, but not
/// on a dry run; a dry run and a failure are put on record.
pub fn conclude_launch(
    env: &PreflightEnvironment,
    host: &str,
    recorded_port: u16,
    mode: RuntimeMode,
    dry_run: bool,
    context: &HelperLaunchContext,
) -> (r: LaunchConclusion)
    ensures
        ({
            let worked = context.launch_status@ == HELPER_LAUNCH_OK@;
            &&& r.record is Some == (dry_run || !worked)
            &&& r.record is Some ==> writes_launch(
                r.record->0,
                host@,
                recorded_port,
                mode,
                context.launch_strategy@,
                context.launch_status@,
                opt_text(context.launch_error),
                false,
            )
            &&& if worked {
                r.serves is Ok && r.serves->Ok_0 == !dry_run
            } else {
                fails(
                    r.serves,
                    Status::ProcessNotRunning,
                    preflight_failure(
                        *env,
                        mode,
                        match opt_text(context.launch_error) {
                            Some(error) => error,
                            None => LAUNCH_NOT_RUNNING_MESSAGE@,
                        },
                    ),
                )
            }
        }),
{
    let worked = str_eq(context.launch_status.as_str(), HELPER_LAUNCH_OK);
    let record = if dry_run || !worked {
        persistence_for_launch(host, recorded_port, context, mode)
    } else {
        None
    };
    if worked {
        return LaunchConclusion { record, serves: Ok(!dry_run) };
    }
    let cause = match &context.launch_error {
        Some(error) => owned(error.as_str()),
        None => helper_not_running_message(),
    };
    LaunchConclusion {
        record,
        serves: Err(
            APWError {
                code: Status::ProcessNotRunning,
                message: helper_preflight_failure_message(env, mode, cause.as_str()),
            },
        ),
    }
}

/// The error on a request that is too long to be passed on.
pub fn check_request_size(size: usize) -> (r: Option<APWError>)
    ensures
        if size > MAX_HELPER_PAYLOAD {
            r is Some && r->0.code == Status::InvalidParam && r->0.message@
                == "Request too large."@
        } else {
            r is None
        },
{
    if size > MAX_HELPER_PAYLOAD {
        Some(APWError::new(Status::InvalidParam, "Request too large."))
    } else {
        None
    }
}

/// The envelope of an answer: a payload where the status is success, else an error text.
pub fn response_envelope(code: Status, payload: Option<JsonValue>, error: Option<String>) -> (r:
    APWResponseEnvelope<JsonValue>)
    ensures
        r.code == code && r.request_id is None,
        if code == Status::Success {
            r.ok && r.payload == payload && r.error is None
        } else {
            !r.ok && r.payload is None && opt_text(r.error) == Some(
                match error {
                    Some(text) => text@,
                    None => status_message(code),
                },
            )
        },
{
    let success = match code {
        Status::Success => true,
        _ => false,
    };
    if success {
        APWResponseEnvelope { ok: true, code, payload, error: None, request_id: None }
    } else {
        let message = match error {
            Some(text) => text,
            None => owned(status_text(code)),
        };
        APWResponseEnvelope { ok: false, code, payload: None, error: Some(message), request_id: None }
    }
}

/// Whether an envelope carries an outcome.
pub open spec fn carries_outcome(
    envelope: APWResponseEnvelope<JsonValue>,
    outcome: Result<JsonValue>,
) -> bool {
    &&& envelope.request_id is None
    &&& match outcome {
        Ok(payload) => envelope.ok && envelope.code == Status::Success && envelope.payload
            == Some(payload) && envelope.error is None,
        Err(error) => envelope.code == error.code && envelope.payload is None && (if error.code
            == Status::Success {
            envelope.ok && envelope.error is None
        } else {
            !envelope.ok && opt_text(envelope.error) == Some(error.message@)
        }),
    }
}

/// The envelope that carries an outcome to a client.
pub fn answer_client(outcome: Result<JsonValue>) -> (r: APWResponseEnvelope<JsonValue>)
    ensures
        carries_outcome(r, outcome),
{
    match outcome {
        Ok(payload) => response_envelope(Status::Success, Some(payload), None),
        Err(error) => response_envelope(error.code, None, Some(error.message)),
    }
}

/// The bytes of an answer.
pub fn encode_answer(envelope: &APWResponseEnvelope<JsonValue>) -> (r: Vec<u8>)
    ensures
        r@ == object_text(envelope.members()),
        plain_members(envelope.members()) ==> json_parsed(r@) == Some(envelope.model()),
{
    envelope.to_text()
}

/// What the client makes of the daemon's answer is the outcome that it carries: the payload, or
/// the error with its status and message.
pub proof fn law_client_reads_the_outcome(
    envelope: APWResponseEnvelope<JsonValue>,
    outcome: Result<JsonValue>,
    read: Result<JsonValue>,
)
    requires
        carries_outcome(envelope, outcome),
        envelope_meets(envelope.model(), read),
        outcome matches Err(error) ==> error.code != Status::Success,
    ensures
        match outcome {
            Ok(payload) => read is Ok && read->Ok_0@ == payload@,
            Err(error) => fails(read, error.code, error.message@),
        },
{
    reveal_strlit("ok");
    reveal_strlit("code");
    reveal_strlit("payload");
    reveal_strlit("error");
    reveal_strlit("requestId");
    assert("ok"@.len() == 2 && "code"@.len() == 4 && "payload"@.len() == 7 && "error"@.len() == 5
        && "requestId"@.len() == 9);
    law_status_code_round_trip(envelope.code, 0);
}

/// What is done about a request that failed.
#[derive(Debug)]
pub enum FailureStep {
    /// The error is the answer.
    Report(APWError),
    /// The helper's process is to be looked at further; the message stands unless that finds
    /// another.
    Resolve(String),
}

/// Whether the other end of the native host's socket may be talked to: it has to run as the same
/// user.
pub fn verify_native_host_peer(peer_uid: u32, current_uid: u32) -> (r: Result<()>)
    ensures
        if peer_uid == current_uid {
            r is Ok
        } else {
            fails(r, Status::ProcessNotRunning, "Native host peer UID mismatch."@)
        },
{
    if peer_uid != current_uid {
        return Err(APWError::new(Status::ProcessNotRunning, "Native host peer UID mismatch."));
    }
    Ok(())
}

/// What is done about a request that failed, by what is seen of the helper's process.
pub fn map_request_failure(error: APWError, state: &HelperState) -> (r: FailureStep)
    ensures
        match *state {
            HelperState::Exited { code, signal } => r matches FailureStep::Report(mapped)
                && mapped.code == Status::ProcessNotRunning && mapped.message@
                == termination_message(code, signal),
            HelperState::Running => if error.code == Status::ProcessNotRunning {
                r == FailureStep::Resolve(error.message)
            } else {
                r == FailureStep::Report(error)
            },
            HelperState::CheckFailed(_) => r == FailureStep::Report(error),
        },
{
    match state {
        HelperState::Exited { code, signal } => FailureStep::Report(
            report_termination_if_any(*code, *signal),
        ),
        HelperState::Running => {
            let gone = match error.code {
                Status::ProcessNotRunning => true,
                _ => false,
            };
            if gone {
                FailureStep::Resolve(error.message)
            } else {
                FailureStep::Report(error)
            }
        },
        HelperState::CheckFailed(_) => FailureStep::Report(error),
    }
}

/// What is written of a request that failed: where the helper is gone, that it is.
pub fn record_request_failure(
    host: &str,
    port: u16,
    runtime_mode: RuntimeMode,
    launch_strategy: &str,
    error: &APWError,
) -> (r: Option<WriteConfigInput>)
    ensures
        r is Some == (error.code == Status::ProcessNotRunning),
        r is Some ==> writes_launch(
            r->0,
            host@,
            port,
            runtime_mode,
            launch_strategy@,
            HELPER_LAUNCH_FAILED@,
            Some(error.message@),
            false,
        ),
{
    match error.code {
        Status::ProcessNotRunning => Some(
            persistence_for_launch_error(
                host,
                port,
                runtime_mode,
                launch_strategy,
                owned(error.message.as_str()),
            ),
        ),
        _ => None,
    }
}

/// Once the daemon serves, the configuration has no session: neither a user nor a key. It has the
/// daemon's address and mode.
pub proof fn law_service_forgets_the_session(
    existing: Option<ConfigModel>,
    input: WriteConfigInput,
    host: Seq<char>,
    port: u16,
    mode: RuntimeMode,
    snapshot: SnapshotModel,
    strategy: Seq<char>,
    status: Seq<char>,
    error: Option<Seq<char>>,
    keychain: bool,
    now: Seq<char>,
)
    requires
        writes_bridge(input, host, port, mode, snapshot, true) || writes_launch(
            input,
            host,
            port,
            mode,
            strategy,
            status,
            error,
            true,
        ),
        refused(existing, input, keychain) is None,
    ensures
        ({
            let config = written(existing, input, keychain, now);
            &&& config.username.len() == 0
            &&& config.shared_key.len() == 0
            &&& config.port == port
            &&& valid_host(host) ==> config.host == host
            &&& config.runtime_mode == mode
        }),
{
}

/// A launch that failed and is on record is what a client is told, with the cause in front, whether
/// or not there is a session.
pub proof fn law_failed_launch_is_told(
    env: PreflightEnvironment,
    existing: Option<ConfigModel>,
    input: WriteConfigInput,
    host: Seq<char>,
    port: u16,
    mode: RuntimeMode,
    strategy: Seq<char>,
    error: Seq<char>,
    clear_auth: bool,
    keychain: bool,
    now: Seq<char>,
    key: nat,
)
    requires
        writes_launch(
            input,
            host,
            port,
            mode,
            strategy,
            HELPER_LAUNCH_FAILED@,
            Some(error),
            clear_auth,
        ),
        mode != RuntimeMode::Native,
        mode != RuntimeMode::Browser,
    ensures
        ({
            let config = with_key(written(existing, input, keychain, now), CONFIG_SCHEMA, key);
            &&& launch_error(env, config) == Some(preflight_failure(env, mode, error))
            &&& begins_with(launch_error(env, config)->0, error)
        }),
{
    reveal_strlit("failed");
    reveal_strlit("ok");
    reveal_strlit("disabled");
    assert(HELPER_LAUNCH_FAILED@.len() != LAUNCH_STATUS_OK@.len());
    assert(HELPER_LAUNCH_FAILED@.len() != LAUNCH_STATUS_DISABLED@.len());
    law_failure_begins_with_its_cause(env, mode, error);
}

/// Of a daemon that serves through a bridge, a client is told that it does not serve exactly as
/// long as the bridge is not on record as attached.
pub proof fn law_client_waits_for_the_bridge(
    env: PreflightEnvironment,
    existing: Option<ConfigModel>,
    input: WriteConfigInput,
    host: Seq<char>,
    port: u16,
    mode: RuntimeMode,
    snapshot: SnapshotModel,
    clear_auth: bool,
    keychain: bool,
    now: Seq<char>,
    key: nat,
)
    requires
        writes_bridge(input, host, port, mode, snapshot, clear_auth),
        mode == RuntimeMode::Native || mode == RuntimeMode::Browser,
    ensures
        launch_error(
            env,
            with_key(written(existing, input, keychain, now), CONFIG_SCHEMA, key),
        ) is None == (snapshot.status == BRIDGE_STATUS_ATTACHED@),
{
}

/// What a bridge reports while the daemon serves leaves the session in the file as it is.
pub proof fn law_bridge_report_keeps_the_session(
    existing: ConfigModel,
    input: WriteConfigInput,
    host: Seq<char>,
    port: u16,
    mode: RuntimeMode,
    snapshot: SnapshotModel,
    keychain: bool,
    now: Seq<char>,
)
    requires
        writes_bridge(input, host, port, mode, snapshot, false),
        !(existing.secret_source == Some(SecretSource::Keychain) && existing.username.len() > 0),
    ensures
        ({
            let config = written(Some(existing), input, keychain, now);
            &&& config.username == existing.username
            &&& config.shared_key == existing.shared_key
            &&& config.created_at == existing.created_at
            &&& config.launch == no_launch()
            &&& config.bridge == (BridgeModel {
                status: Some(snapshot.status),
                browser: snapshot.browser,
                connected_at: snapshot.connected_at,
                last_error: snapshot.last_error,
            })
        }),
{
    law_metadata_write_keeps_session(existing, input, keychain, now);
    law_reset_metadata(Some(existing), input, keychain, now);
}

} // verus!
