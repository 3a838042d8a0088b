//! How the daemon talks to its helper, how it starts and what it puts on record.
use crate::bridge::persistence_for_browser;
use crate::daemon::{
    capabilities_probe_message, check_request_size, conclude_launch, encode_frame,
    ensure_helper_stays_alive, explain_start_failure, explained_plan, frame_length,
    helper_read_failure, helper_termination_message, helper_write_failure, launch_command,
    launch_readiness, law_frame_round_trip, map_helper_io_error, map_request_failure,
    parse_helper_payload, parse_helper_response_shape, persist_browser_waiting,
    persist_native_waiting, persistence_for_launch, persistence_for_launch_error,
    persistence_for_service, plan_meets, plan_start, poll_helper, probe_helper_readiness,
    read_helper_frame, record_request_failure, report_termination_if_any,
    resolve_probe_failure_message, resolve_uid, response_envelope, start_daemon,
    verify_native_host_peer, DaemonOptions, FailureStep, FramePeer, HelperIoFailure,
    HelperLaunchContext, HelperState, LaunchConclusion, LaunchProbe, PollEnd, PollStep, ProbeStep,
    StartPlan,
};
use crate::error::{fails, APWError, Result};
use crate::host::{native_host_preflight_state, HostState};
use crate::json::{json_parsed, Json, JsonValue};
use crate::laws::basics::{lemma_decimal_reads, lemma_within};
use crate::laws::names::lemma_message_names;
use crate::laws::words::status_number;
use crate::preflight::{
    law_failure_begins_with_its_cause, law_read_manifest_is_safe, manifest_read, preflight_failure,
    resolved_mode, HelperBackend, PreflightEnvironment,
};
use crate::secrets::texts;
use crate::text::{begins_with, decimal, decimal_i64, decimal_u64, occurs_in, opt_text, trimmed};
use crate::types::{APWResponseEnvelope, ManifestConfig, Message, RuntimeMode, Status};
use crate::utils::WriteConfigInput;
use vstd::prelude::*;
use vstd::utf8::encode_utf8;

verus! {

/// What goes into a frame comes out of it: the four bytes in front announce the length of what
/// follows, and that is the payload. Only a payload of more than sixteen kilobytes is not framed.
pub proof fn law_frame_gives_back_the_payload(
    peer: FramePeer,
    payload: &[u8],
    frame: Result<Vec<u8>>,
    header: [u8; 4],
    length: Result<usize>,
)
    ensures
        call_ensures(encode_frame, (peer, payload), frame) ==> {
            &&& frame is Ok <==> payload@.len() <= 16 * 1024
            &&& frame is Ok ==> {
                &&& frame->Ok_0@.len() == 4 + payload@.len()
                &&& frame->Ok_0@.subrange(4, frame->Ok_0@.len() as int) == payload@
                &&& header@ == frame->Ok_0@.subrange(0, 4) && call_ensures(
                    frame_length,
                    (peer, header),
                    length,
                ) && payload@.len() > 0 ==> length is Ok && length->Ok_0 == payload@.len()
            }
        },
        call_ensures(frame_length, (peer, header), length) && length is Ok ==> 0 < length->Ok_0
            <= 16 * 1024,
{
    if payload@.len() <= 16 * 1024 {
        law_frame_round_trip(payload@);
    }
}

/// Whether an outcome is what an answer of the helper says.
pub open spec fn helper_says(answer: Json, r: Result<JsonValue>) -> bool {
    &&& answer.get("ok"@) == Some(Json::Bool(true)) && answer.get("payload"@) is Some ==> r is Ok
        && Some(r->Ok_0@) == answer.get("payload"@)
    &&& answer.get("ok"@) == Some(Json::Bool(false)) ==> r is Err && {
        &&& answer.get("error"@) matches Some(Json::Str(text)) ==> r->Err_0.message@ == text
        &&& forall|status: Status|
            answer.get("code"@) == Some(Json::Int(#[trigger] status_number(status)))
                ==> r->Err_0.code == status
    }
    &&& answer is Obj && answer.get("ok"@) is None ==> r is Ok && r->Ok_0@ == answer
    &&& !(answer is Obj) ==> r is Err
}

/// What the helper answers is what comes out: the payload of an envelope, its error, or the whole of
/// an object without an envelope.
pub proof fn law_helper_answer_comes_out(
    answer: &JsonValue,
    shaped: Result<JsonValue>,
    raw: &[u8],
    read: Result<JsonValue>,
    ready: Result<()>,
)
    ensures
        call_ensures(parse_helper_response_shape, (answer,), shaped) ==> helper_says(
            answer@,
            shaped,
        ),
        call_ensures(read_helper_frame, (raw,), read) ==> {
            &&& raw@.len() > 16 * 1024 ==> read is Err
            &&& raw@.len() <= 16 * 1024 ==> match json_parsed(raw@) {
                Some(value) => helper_says(value, read),
                None => read is Err,
            }
        },
        call_ensures(probe_helper_readiness, (raw,), ready) && raw@.len() <= 16 * 1024 ==> match json_parsed(
            raw@,
        ) {
            Some(value) => {
                &&& value.get("ok"@) == Some(Json::Bool(true)) && value.get("payload"@) is Some
                    ==> (ready is Ok <==> value.get("payload"@)->0 is Obj)
                &&& value.get("ok"@) == Some(Json::Bool(false)) ==> ready is Err
            },
            None => ready is Err,
        },
{
}

/// The helper is asked for its capabilities to see whether it is there.
pub proof fn law_probe_asks_for_capabilities(r: Message)
    ensures
        call_ensures(capabilities_probe_message, (), r) ==> r@.get("cmd"@) == Some(Json::Int(14))
            && r@.get("capabilities"@) is Some,
{
    lemma_message_names();
}

/// The helper is launched by its path, either directly or by `launchctl` as the given user.
pub proof fn law_launch_command_runs_the_helper(
    backend: HelperBackend,
    path: &str,
    uid: u32,
    number: String,
    r: Vec<String>,
)
    ensures
        call_ensures(launch_command, (HelperBackend::Direct, path, Some(uid)), r) ==> texts(r@)
            == seq![path@, "."@],
        call_ensures(launch_command, (backend, path, None), r) ==> texts(r@) == seq![path@, "."@],
        call_ensures(launch_command, (HelperBackend::LaunchdCompatible, path, Some(uid)), r)
            && call_ensures(decimal_u64, (uid as u64,), number) ==> texts(r@) == seq![
            "/bin/launchctl"@,
            "asuser"@,
            number@,
            path@,
            "."@,
        ],
{
}

/// The ways to launch the helper are tried one after the other: the direct one first, then the one
/// by `launchctl`, each only in the modes that it is for. With none left the last failure is told.
pub proof fn law_launch_tries_each_way(probe: &mut LaunchProbe, r: ProbeStep)
    ensures
        call_ensures(LaunchProbe::next_step, (probe,), r) && old(probe).wf() ==> {
            let mode = old(probe)@.mode;
            let tried = old(probe)@.tried;
            &&& mode == RuntimeMode::Auto && tried == 0 ==> r == ProbeStep::Launch(
                HelperBackend::Direct,
            )
            &&& mode == RuntimeMode::Auto && tried == 1 ==> r == ProbeStep::Launch(
                HelperBackend::LaunchdCompatible,
            )
            &&& mode == RuntimeMode::Direct && tried == 0 ==> r == ProbeStep::Launch(
                HelperBackend::Direct,
            )
            &&& mode == RuntimeMode::Launchd && tried == 0 ==> r == ProbeStep::Launch(
                HelperBackend::LaunchdCompatible,
            )
            &&& r is Launch ==> final(probe)@.tried == tried + 1 && final(probe)@.last_error == old(
                probe,
            )@.last_error && final(probe)@.mode == mode
            &&& mode == RuntimeMode::Auto && tried >= 2 || (mode == RuntimeMode::Direct || mode
                == RuntimeMode::Launchd) && tried >= 1 || mode == RuntimeMode::Disabled
                ==> r is Finished
            &&& r matches ProbeStep::Finished(context) ==> {
                &&& context.launch_status@ == if mode == RuntimeMode::Disabled {
                    "disabled"@
                } else {
                    "failed"@
                }
                &&& mode != RuntimeMode::Disabled && old(probe)@.last_error is Some ==> opt_text(
                    context.launch_error,
                ) == old(probe)@.last_error
            }
        },
{
}

/// A launch that worked is on record as such, by the way that worked.
pub proof fn law_launch_that_worked(probe: &LaunchProbe, r: HelperLaunchContext)
    ensures
        call_ensures(LaunchProbe::succeeded, (probe,), r) && probe.wf() ==> {
            &&& r.launch_status@ == "ok"@
            &&& r.launch_error is None
            &&& probe@.mode == RuntimeMode::Auto && probe@.tried == 1 ==> r.launch_strategy@
                == "direct"@
            &&& probe@.mode == RuntimeMode::Auto && probe@.tried == 2 ==> r.launch_strategy@
                == "launchd_compatible"@
            &&& probe@.mode == RuntimeMode::Direct && probe@.tried == 1 ==> r.launch_strategy@
                == "direct"@
            &&& probe@.mode == RuntimeMode::Launchd && probe@.tried == 1 ==> r.launch_strategy@
                == "launchd_compatible"@
        },
{
}

/// Whether an input puts a daemon on record: where it is and in which mode, without a session of its
/// own.
pub open spec fn records_daemon(
    input: WriteConfigInput,
    host: Seq<char>,
    port: u16,
    mode: RuntimeMode,
    clears: bool,
) -> bool {
    &&& opt_text(input.host) == Some(host)
    &&& input.port == Some(port)
    &&& input.runtime_mode == Some(mode)
    &&& input.clear_auth == clears
    &&& input.allow_empty
    &&& input.username is None && input.shared_key is None
    &&& !input.refresh_created_at
    &&& input.reset_bridge_metadata
}

/// Whether an input puts on record how a launch went, and no bridge.
pub open spec fn records_launch(
    input: WriteConfigInput,
    strategy: Seq<char>,
    status: Seq<char>,
    error: Option<Seq<char>>,
) -> bool {
    &&& opt_text(input.last_launch_strategy) == Some(strategy)
    &&& opt_text(input.last_launch_status) == Some(status)
    &&& opt_text(input.last_launch_error) == error
    &&& input.bridge_status is None && input.bridge_browser is None
    &&& input.bridge_connected_at is None && input.bridge_last_error is None
}

/// Whether an input puts on record what is at the other end of a bridge, and no launch.
pub open spec fn records_bridge(
    input: WriteConfigInput,
    status: Seq<char>,
    browser: Option<Seq<char>>,
    connected_at: Option<Seq<char>>,
    error: Option<Seq<char>>,
) -> bool {
    &&& opt_text(input.bridge_status) == Some(status)
    &&& opt_text(input.bridge_browser) == browser
    &&& opt_text(input.bridge_connected_at) == connected_at
    &&& opt_text(input.bridge_last_error) == error
    &&& input.reset_launch_metadata
    &&& input.last_launch_status is None && input.last_launch_error is None
        && input.last_launch_strategy is None
}

/// How a launch went goes on record with the address and the mode of the daemon. Only a daemon that
/// serves clears the session.
pub proof fn law_launch_goes_on_record(
    host: &str,
    port: u16,
    context: &HelperLaunchContext,
    mode: RuntimeMode,
    launched: Option<WriteConfigInput>,
    serving: WriteConfigInput,
    strategy: &str,
    complaint: String,
    failed: WriteConfigInput,
)
    ensures
        call_ensures(persistence_for_launch, (host, port, context, mode), launched)
            ==> launched is Some && records_daemon(launched->0, host@, port, mode, false)
            && records_launch(
            launched->0,
            context.launch_strategy@,
            context.launch_status@,
            opt_text(context.launch_error),
        ),
        call_ensures(persistence_for_service, (host, port, context, mode), serving)
            ==> records_daemon(serving, host@, port, mode, true) && records_launch(
            serving,
            context.launch_strategy@,
            context.launch_status@,
            opt_text(context.launch_error),
        ),
        call_ensures(
            persistence_for_launch_error,
            (host, port, mode, strategy, complaint),
            failed,
        ) ==> records_daemon(failed, host@, port, mode, false) && records_launch(
            failed,
            strategy@,
            "failed"@,
            Some(complaint@),
        ),
{
}

/// A bridge that is waited for goes on record as waiting, and the session is cleared, but not on a
/// dry run for a browser. What is known of a bridge goes on record as it is.
pub proof fn law_bridge_goes_on_record(
    host: &str,
    port: u16,
    mode: RuntimeMode,
    dry_run: bool,
    native: WriteConfigInput,
    browser: WriteConfigInput,
    status: &str,
    name: Option<String>,
    connected_at: Option<String>,
    error: Option<String>,
    known: WriteConfigInput,
)
    ensures
        call_ensures(persist_native_waiting, (host, port, mode), native) ==> records_daemon(
            native,
            host@,
            port,
            mode,
            true,
        ) && records_bridge(native, "waiting"@, Some("native"@), None, None),
        call_ensures(persist_browser_waiting, (host, port, mode, dry_run), browser)
            ==> records_daemon(browser, host@, port, mode, !dry_run) && records_bridge(
            browser,
            "waiting"@,
            None,
            None,
            None,
        ),
        call_ensures(
            persistence_for_browser,
            (host, port, mode, status, name, connected_at, error),
            known,
        ) ==> records_daemon(known, host@, port, mode, false) && records_bridge(
            known,
            status@,
            opt_text(name),
            opt_text(connected_at),
            opt_text(error),
        ),
{
}

/// The daemon goes on to serve exactly where its helper was launched and it is no dry run. A dry run
/// and a failure go on record; a failure ends it with the error of the launch in front.
pub proof fn law_launch_decides_whether_to_serve(
    env: &PreflightEnvironment,
    host: &str,
    port: u16,
    mode: RuntimeMode,
    dry_run: bool,
    context: &HelperLaunchContext,
    r: LaunchConclusion,
)
    ensures
        call_ensures(conclude_launch, (env, host, port, mode, dry_run, context), r) ==> {
            let worked = context.launch_status@ == "ok"@;
            &&& worked ==> r.serves is Ok && r.serves->Ok_0 == !dry_run
            &&& !worked ==> r.serves is Err && r.serves->Err_0.code == Status::ProcessNotRunning
            &&& !worked && context.launch_error is Some ==> begins_with(
                r.serves->Err_0.message@,
                context.launch_error->0@,
            )
            &&& r.record is Some <==> dry_run || !worked
            &&& r.record matches Some(input) ==> records_daemon(input, host@, port, mode, false)
                && records_launch(
                input,
                context.launch_strategy@,
                context.launch_status@,
                opt_text(context.launch_error),
            )
        },
{
    if context.launch_error is Some {
        law_failure_begins_with_its_cause(*env, mode, context.launch_error->0@);
    }
}

/// A request that fails because the helper is gone puts that on record; no other failure does.
pub proof fn law_gone_helper_goes_on_record(
    host: &str,
    port: u16,
    mode: RuntimeMode,
    strategy: &str,
    error: &APWError,
    r: Option<WriteConfigInput>,
)
    ensures
        call_ensures(record_request_failure, (host, port, mode, strategy, error), r) ==> {
            &&& r is Some <==> error.code == Status::ProcessNotRunning
            &&& r matches Some(input) ==> records_daemon(input, host@, port, mode, false)
                && records_launch(input, strategy@, "failed"@, Some(error.message@))
        },
{
}

/// The daemon starts as it is told: at the given address, or at the machine's own where none is
/// given, on the given port, in the mode. The native host is served only where it is ready, and on
/// the default port where none is given.
pub proof fn law_daemon_starts_as_told(
    env: &PreflightEnvironment,
    options: DaemonOptions,
    manifest: Option<ManifestConfig>,
    state: HostState,
    r: Result<StartPlan>,
)
    ensures
        call_ensures(plan_start, (env, options, manifest), r) && call_ensures(
            native_host_preflight_state,
            (&env.host,),
            state,
        ) ==> {
            let address = if trimmed(options.host@).len() == 0 {
                "127.0.0.1"@
            } else {
                options.host@
            };
            match options.runtime_mode {
                RuntimeMode::Browser => r matches Ok(StartPlan::Browser { host, port, dry_run })
                    && host@ == address && port == options.port && dry_run == options.dry_run,
                RuntimeMode::Native => {
                    &&& r is Ok <==> env.on_macos && state == HostState::Ready
                    &&& r is Ok ==> (r->Ok_0 matches StartPlan::Native { host, port, dry_run }
                        && host@ == address && port == (if options.port == 0 {
                        10_000
                    } else {
                        options.port
                    }) && dry_run == options.dry_run)
                    &&& r is Err ==> r->Err_0.code == Status::ProcessNotRunning
                },
                _ => {
                    &&& r is Ok <==> manifest is Some
                    &&& r is Ok ==> (r->Ok_0 matches StartPlan::Helper {
                        host,
                        port,
                        recorded_port,
                        mode,
                        manifest: used,
                        dry_run,
                    } && host@ == address && port == options.port && recorded_port == (
                    if options.port == 0 {
                        10_000
                    } else {
                        options.port
                    }) && mode == options.runtime_mode && Some(used) == manifest && dry_run
                        == options.dry_run)
                },
            }
        },
{
}

/// In the automatic mode the daemon serves the native host from macOS 26 on, and launches a helper
/// before that; every other mode is the one that was asked for. A helper is launched only with a
/// manifest that could be read.
pub proof fn law_mode_decides_how_to_start(
    env: &PreflightEnvironment,
    options: DaemonOptions,
    r: Result<StartPlan>,
)
    ensures
        call_ensures(start_daemon, (env, options), r) && r is Ok ==> {
            let recent = env.macos_major_version is Some && env.macos_major_version->0 >= 26;
            &&& options.runtime_mode == RuntimeMode::Browser ==> r->Ok_0 is Browser
            &&& options.runtime_mode == RuntimeMode::Native ==> r->Ok_0 is Native
            &&& options.runtime_mode == RuntimeMode::Auto && recent ==> r->Ok_0 is Native
            &&& options.runtime_mode == RuntimeMode::Auto && !recent ==> r->Ok_0 is Helper
            &&& options.runtime_mode == RuntimeMode::Direct ==> r->Ok_0 is Helper
            &&& r->Ok_0 matches StartPlan::Helper { mode, port, manifest, .. } ==> {
                &&& mode == options.runtime_mode
                &&& port == options.port
                &&& env.on_macos && env.manifest.binary_executable && env.manifest.content is Some
                &&& json_parsed(encode_utf8(env.manifest.content->0@)) matches Some(value)
                    && value.get("path"@) == Some(Json::Str(manifest.path@))
            }
        },
{
    if call_ensures(start_daemon, (env, options), r) && r is Ok {
        let mode = resolved_mode(options.runtime_mode, env.macos_major_version);
        let resolved = DaemonOptions { runtime_mode: mode, ..options };
        if mode == RuntimeMode::Browser || mode == RuntimeMode::Native {
            let planned = choose|planned: Result<StartPlan>| #[trigger]
                plan_meets(*env, resolved, None, planned) && r == planned;
            assert(plan_meets(*env, resolved, None, r));
        } else {
            let read = choose|read: Result<ManifestConfig>|
                {
                    &&& #[trigger] manifest_read(env.on_macos, env.manifest, read)
                    &&& match read {
                        Ok(manifest) => explained_plan(*env, resolved, Some(manifest), r),
                        Err(error) => fails(
                            r,
                            error.code,
                            preflight_failure(*env, mode, error.message@),
                        ),
                    }
                };
            law_read_manifest_is_safe(env.on_macos, env.manifest, read);
            assert(explained_plan(*env, resolved, Some(read->Ok_0), r));
            assert(plan_meets(*env, resolved, Some(read->Ok_0), r));
        }
    }
}

/// What to do about a failure at the start is put behind it, and its status is kept.
pub proof fn law_start_failure_keeps_its_cause(
    env: &PreflightEnvironment,
    mode: RuntimeMode,
    error: APWError,
    r: APWError,
)
    ensures
        call_ensures(explain_start_failure, (env, mode, error), r) ==> {
            &&& r.code == error.code
            &&& begins_with(r.message@, error.message@)
        },
{
    law_failure_begins_with_its_cause(*env, mode, error.message@);
    assert(error.message@.subrange(0, error.message@.len() as int) =~= error.message@);
}

/// What is told of a helper that has ended names its exit code or its signal.
pub proof fn law_end_of_the_helper_is_told(
    code: i32,
    signal: Option<i32>,
    exited: String,
    killed: String,
    other: i32,
    ended: String,
    number: String,
)
    ensures
        call_ensures(helper_termination_message, (Some(code), signal), exited) && call_ensures(
            decimal_i64,
            (code as i64,),
            number,
        ) ==> exited@ == "Helper process exited with code "@ + number@ + "."@,
        call_ensures(helper_termination_message, (None, Some(9i32)), killed) ==> begins_with(
            killed@,
            "Helper process was terminated by SIGKILL"@,
        ),
        other != 9 && call_ensures(helper_termination_message, (None, Some(other)), ended)
            && call_ensures(decimal_i64, (other as i64,), number) ==> ended@
            == "Helper process terminated by signal "@ + number@ + "."@,
{
    lemma_sigkill();
}

proof fn lemma_sigkill()
    ensures
        begins_with(crate::daemon::SIGKILL_MESSAGE@, "Helper process was terminated by SIGKILL"@),
{
    reveal_strlit("Helper process was terminated by SIGKILL");
    reveal_strlit(
        "Helper process was terminated by SIGKILL (Code Signature Constraint Violation). Helper launch requires an approved browser/native host context on this OS and cannot be launched directly from this CLI today.",
    );
    assert(crate::daemon::SIGKILL_MESSAGE@.subrange(0, 40)
        =~= "Helper process was terminated by SIGKILL"@);
}

/// The helper's process is looked at at most forty times, and no longer once it has ended.
pub proof fn law_helper_is_watched_for_a_while(retries: u8, state: HelperState, r: PollStep)
    ensures
        call_ensures(poll_helper, (retries, state), r) ==> {
            &&& r matches PollStep::Again(n) ==> state is Running && n == retries + 1 && n < 40
            &&& retries >= 39 ==> r is End
            &&& !(state is Running) ==> r is End
        },
{
}

/// A request that failed is answered with the end of the helper, where it has ended.
pub proof fn law_failed_request_tells_of_the_end(
    error: APWError,
    code: Option<i32>,
    signal: Option<i32>,
    message: String,
    r: FailureStep,
)
    ensures
        call_ensures(
            map_request_failure,
            (error, &HelperState::Exited { code, signal }),
            r,
        ) && call_ensures(helper_termination_message, (code, signal), message) ==> (
        r matches FailureStep::Report(mapped) && mapped.code == Status::ProcessNotRunning
            && mapped.message@ == message@),
        call_ensures(map_request_failure, (error, &HelperState::Running), r) && error.code
            != Status::ProcessNotRunning ==> r == FailureStep::Report(error),
{
}

/// The user that the helper is launched for is the one in the environment, else the one that the
/// system reports.
pub proof fn law_helper_runs_for_the_user(
    environment: &Option<String>,
    reported: &Option<String>,
    n: u32,
    r: Option<u32>,
)
    ensures
        call_ensures(resolve_uid, (environment, reported), r) ==> {
            &&& environment matches Some(text) ==> (trimmed(text@) == decimal(n as nat) ==> r == Some(
                n,
            ))
            &&& environment is None && reported is Some && trimmed(reported->0@) == decimal(n as nat)
                ==> r == Some(n)
            &&& environment is None && reported is None ==> r is None
        },
{
    lemma_decimal_reads(n as nat);
}

/// A helper that is gone is told as not running, whether it is written to or read from; any other
/// failure tells its cause.
pub proof fn law_gone_helper_is_told(
    failure: HelperIoFailure,
    complaint: &str,
    writing: APWError,
    reading: APWError,
    status: Option<Status>,
)
    ensures
        call_ensures(helper_write_failure, (failure, complaint), writing) && call_ensures(
            helper_read_failure,
            (failure, complaint),
            reading,
        ) && call_ensures(map_helper_io_error, (failure,), status) ==> {
            &&& status is Some ==> status == Some(Status::ProcessNotRunning) && writing.code
                == Status::ProcessNotRunning && reading.code == Status::ProcessNotRunning
                && writing.message@ == reading.message@
            &&& status is None <==> failure is Other
            &&& status is None ==> occurs_in(writing.message@, complaint@) && occurs_in(
                reading.message@,
                complaint@,
            ) && writing.code == Status::GenericError && reading.code
                == Status::ProtoInvalidResponse
        },
{
    if call_ensures(helper_write_failure, (failure, complaint), writing) && call_ensures(
        helper_read_failure,
        (failure, complaint),
        reading,
    ) && failure is Other {
        let front = "Failed writing to helper process: "@;
        let start = "Failed reading helper response: "@;
        assert(writing.message@ =~= front + complaint@ + Seq::empty());
        assert(reading.message@ =~= start + complaint@ + Seq::empty());
        lemma_within(front, complaint@, Seq::empty());
        lemma_within(start, complaint@, Seq::empty());
    }
}

/// What the helper writes is read as the JSON object that it is, up to sixteen kilobytes.
pub proof fn law_helper_writes_an_object(raw: &[u8], r: Result<JsonValue>)
    ensures
        call_ensures(parse_helper_payload, (raw,), r) ==> {
            &&& r is Ok ==> json_parsed(raw@) == Some(r->Ok_0@) && r->Ok_0@ is Obj && raw@.len()
                <= 16 * 1024
            &&& raw@.len() <= 16 * 1024 && (json_parsed(raw@) matches Some(Json::Obj(_)))
                ==> r is Ok
            &&& r is Err ==> r->Err_0.code == Status::ProtoInvalidResponse
        },
{
}

/// A launched helper is ready where its process runs and answers. One whose process has ended is told
/// by how it ended, whatever it answered.
pub proof fn law_launched_helper_has_to_run_and_answer(
    state: HelperState,
    answer: Result<()>,
    ready: Result<()>,
    end: PollEnd,
    alive: Result<()>,
    fallback: String,
    told: String,
)
    ensures
        call_ensures(launch_readiness, (state, answer), ready) ==> {
            &&& ready is Ok <==> state is Running && answer is Ok
            &&& state is Running ==> ready == answer
            &&& !(state is Running) ==> ready->Err_0.code == Status::ProcessNotRunning
        },
        call_ensures(ensure_helper_stays_alive, (end,), alive) ==> {
            &&& alive is Ok <==> end is Alive
            &&& end matches PollEnd::Gone(message) ==> fails(
                alive,
                Status::ProcessNotRunning,
                message@,
            )
        },
        call_ensures(resolve_probe_failure_message, (end, fallback), told) ==> {
            &&& end is Alive ==> told@ == fallback@
            &&& end matches PollEnd::Gone(message) ==> told@ == message@
        },
{
}

/// A failed way to launch the helper is the last failure on record, and changes nothing else.
pub proof fn law_failed_way_is_noted(probe: &mut LaunchProbe, message: String)
    ensures
        call_ensures(LaunchProbe::note_failure, (probe, message), ()) ==> final(probe)@.last_error
            == Some(message@) && final(probe)@ == (crate::daemon::ProbeModel {
            last_error: Some(message@),
            ..old(probe)@
        }),
{
}

/// The daemon answers a success with its payload and a failure with its error, and the envelope says
/// which it is.
pub proof fn law_answer_in_an_envelope(
    code: Status,
    payload: Option<JsonValue>,
    error: Option<String>,
    r: APWResponseEnvelope<JsonValue>,
)
    ensures
        call_ensures(response_envelope, (code, payload, error), r) ==> {
            &&& r.ok <==> code == Status::Success
            &&& r.code == code
            &&& r.ok ==> r.payload == payload && r.error is None
            &&& !r.ok ==> r.payload is None && r.error is Some
            &&& !r.ok && error is Some ==> r.error->0@ == error->0@
        },
{
}

/// A request is passed on up to sixteen kilobytes, and the native host is talked to where it runs as
/// the same user.
pub proof fn law_request_is_let_through(
    size: usize,
    refused: Option<APWError>,
    peer_uid: u32,
    current_uid: u32,
    peer: Result<()>,
)
    ensures
        call_ensures(check_request_size, (size,), refused) ==> {
            &&& refused is None <==> size <= 16 * 1024
            &&& refused is Some ==> refused->0.code == Status::InvalidParam
        },
        call_ensures(verify_native_host_peer, (peer_uid, current_uid), peer) ==> {
            &&& peer is Ok <==> peer_uid == current_uid
            &&& peer is Err ==> peer->Err_0.code == Status::ProcessNotRunning
        },
{
}

/// A helper whose process has ended is told as not running, with what is told of its end.
pub proof fn law_ended_helper_is_not_running(
    code: Option<i32>,
    signal: Option<i32>,
    message: String,
    r: APWError,
)
    ensures
        call_ensures(report_termination_if_any, (code, signal), r) && call_ensures(
            helper_termination_message,
            (code, signal),
            message,
        ) ==> r.code == Status::ProcessNotRunning && r.message@ == message@,
{
}

} // verus!
