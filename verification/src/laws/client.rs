//! What a client sends, what it makes of the answers, and which session it goes on with.
use crate::client::{
    browser_bridge_remediation, canonical_daemon_host, helper_launch_profile,
    launch_error_from_config, native_host_remediation, parse_json_payload, parse_legacy_payload,
    parse_pake_type, parse_response_envelope, parse_smsg, resolve_daemon_target, APWMessages,
    ClientSendOpts,
};
use crate::daemon::{answer_client, carries_outcome, encode_answer, law_client_reads_the_outcome};
use crate::error::{fails, APWError, Result};
use crate::json::{json_parsed, plain, plain_members, Json, JsonValue};
use crate::laws::basics::lemma_within;
use crate::laws::names::{
    lemma_answer_names, lemma_bridge_words, lemma_launch_words, lemma_message_names,
};
use crate::laws::queries::{lemma_seals_under, opens_as, seals_under, writes_bytes};
use crate::laws::words::status_number;
use crate::manager::{
    accept_data, answer_opens, auth_read_options, decode_response, encode_request, has_entries,
    may_time_out, payload_parts, read_payload, receive_failure, retries_of, send_message, timed_out,
    waited, ApplePasswordManager,
};
use crate::preflight::{law_failure_begins_with_its_cause, PreflightEnvironment};
use crate::srp::{cipher_key, seals, SRPSession, SessionModel};
use crate::text::{begins_with, occurs_in, opt_text, trimmed};
use crate::types::{
    opt_json, opt_str_json, APWResponseEnvelope, APWRuntimeConfig, Message, Payload, RuntimeMode,
    SMSG, Status,
};
use crate::utils::{first_true, ConfigReadOptions};
use vstd::prelude::*;

verus! {

/// A number that may be left out, as it stands in a message.
pub open spec fn optional_number(n: Option<i32>) -> Option<Json> {
    match n {
        Some(n) => Some(Json::Int(n as int)),
        None => None,
    }
}

/// A message is sent as it is: what its text reads as has each part of it under its name and no part
/// that it does not have. It is never longer than sixteen kilobytes.
pub proof fn law_request_reads_as_the_message(message: &Message, r: Result<Vec<u8>>)
    ensures
        call_ensures(encode_request, (message,), r) && r is Ok ==> {
            &&& r->Ok_0@.len() <= 16 * 1024
            &&& plain_members(message.members()) ==> (json_parsed(r->Ok_0@) matches Some(read) && {
                &&& read.get("cmd"@) == Some(Json::Int(message.cmd as int))
                &&& read.get("payload"@) == opt_json(message.payload)
                &&& read.get("msg"@) == opt_json(message.msg)
                &&& read.get("capabilities"@) == opt_json(message.capabilities)
                &&& read.get("setUpTOTPPageURL"@) == opt_str_json(message.set_up_totp_page_url)
                &&& read.get("setUpTOTPURI"@) == opt_str_json(message.set_up_totp_uri)
                &&& read.get("url"@) == opt_str_json(message.url)
                &&& read.get("tabId"@) == optional_number(message.tab_id)
                &&& read.get("frameId"@) == optional_number(message.frame_id)
            })
        },
{
    lemma_message_names();
}

/// Whether an outcome is what an answer of the daemon says: the payload of a success, the status and
/// the message of a failure, or the whole of an answer without an envelope.
pub open spec fn says(answer: Json, r: Result<JsonValue>) -> bool {
    &&& answer.get("ok"@) == Some(Json::Bool(true)) && answer.get("payload"@) is Some ==> r is Ok
        && Some(r->Ok_0@) == answer.get("payload"@)
    &&& answer.get("ok"@) == Some(Json::Bool(true)) && answer.get("payload"@) is None ==> r is Err
    &&& answer.get("ok"@) == Some(Json::Bool(false)) ==> r is Err && {
        &&& answer.get("error"@) matches Some(Json::Str(text)) ==> r->Err_0.message@ == text
        &&& forall|status: Status|
            answer.get("code"@) == Some(Json::Int(#[trigger] status_number(status)))
                ==> r->Err_0.code == status
    }
    &&& answer.get("ok"@) is None && r is Ok ==> r->Ok_0@ == answer && answer.get(
        "STATUS"@,
    ) is Some && (answer.get("Entries"@) matches Some(Json::Arr(_)))
    &&& !(answer is Obj) ==> r is Err
}

/// What an answer of the daemon says is what comes out, and no answer that is too long is read.
pub proof fn law_answer_is_read_as_it_says(
    bytes: &[u8],
    answer: &JsonValue,
    read: Result<JsonValue>,
    parsed: Result<JsonValue>,
)
    ensures
        call_ensures(parse_response_envelope, (answer,), parsed) ==> says(answer@, parsed),
        call_ensures(decode_response, (bytes,), read) ==> {
            &&& bytes@.len() > 16 * 1024 ==> read is Err
            &&& bytes@.len() <= 16 * 1024 ==> match json_parsed(bytes@) {
                Some(value) => says(value, read),
                None => read is Err,
            }
        },
{
}

/// What the daemon answers, the client hears: the payload that the helper gave, or the error with
/// its status and its message.
pub proof fn law_client_hears_the_outcome(
    outcome: Result<JsonValue>,
    envelope: APWResponseEnvelope<JsonValue>,
    sent: Vec<u8>,
    received: &[u8],
    read: Result<JsonValue>,
)
    ensures
        call_ensures(answer_client, (outcome,), envelope) && call_ensures(
            encode_answer,
            (&envelope,),
            sent,
        ) && received@ == sent@ && sent@.len() <= 16 * 1024 && call_ensures(
            decode_response,
            (received,),
            read,
        ) && (outcome matches Ok(payload) ==> plain(payload@, 99)) && (outcome matches Err(error)
            ==> error.code != Status::Success) ==> match outcome {
            Ok(payload) => read is Ok && read->Ok_0@ == payload@,
            Err(error) => fails(read, error.code, error.message@),
        },
{
    if call_ensures(answer_client, (outcome,), envelope) && call_ensures(
        encode_answer,
        (&envelope,),
        sent,
    ) && received@ == sent@ && sent@.len() <= 16 * 1024 && call_ensures(
        decode_response,
        (received,),
        read,
    ) && (outcome matches Ok(payload) ==> plain(payload@, 99)) && (outcome matches Err(error)
        ==> error.code != Status::Success) {
        assert(carries_outcome(envelope, outcome));
        assert(plain_members(envelope.members()));
        law_client_reads_the_outcome(envelope, outcome, read);
    }
}

/// A daemon on every address of the machine is reached at the machine's own address; any other is
/// reached where it is.
pub proof fn law_daemon_is_reached_where_it_is(host: &str, r: String)
    ensures
        call_ensures(canonical_daemon_host, (host,), r) ==> {
            let name = trimmed(host@);
            &&& name.len() == 0 || name == "0.0.0.0"@ ==> r@ == "127.0.0.1"@
            &&& name == "::"@ || name == "[::]"@ ==> r@ == "::1"@
            &&& name.len() > 0 && name != "0.0.0.0"@ && name != "::"@ && name != "[::]"@ ==> r@
                == name
        },
{
    reveal_strlit("0.0.0.0");
    reveal_strlit("::");
    reveal_strlit("[::]");
}

pub(crate) proof fn lemma_first_true(flags: Seq<bool>)
    ensures
        match first_true(flags) {
            Some(i) => 0 <= i < flags.len() && flags[i] && forall|j: int|
                0 <= j < i ==> !#[trigger] flags[j],
            None => forall|j: int| 0 <= j < flags.len() ==> !#[trigger] flags[j],
        },
    decreases flags.len(),
{
    if flags.len() > 0 && !flags[0] {
        let rest = flags.subrange(1, flags.len() as int);
        lemma_first_true(rest);
        match first_true(rest) {
            Some(i) => {
                assert(rest[i] == flags[i + 1]);
                assert forall|j: int| 0 <= j < i + 1 implies !#[trigger] flags[j] by {
                    if j > 0 {
                        assert(rest[j - 1] == flags[j]);
                    }
                }
            },
            None => {
                assert forall|j: int| 0 <= j < flags.len() implies !#[trigger] flags[j] by {
                    if j > 0 {
                        assert(rest[j - 1] == flags[j]);
                    }
                }
            },
        }
    }
}

/// Of the addresses of a daemon the first of IPv4 is used, or the first of all where there is none
/// of IPv4. Where there is no address at all, that is the error.
pub proof fn law_first_ipv4_address_is_used(
    host: &str,
    port: u16,
    resolved: Vec<bool>,
    r: Result<usize>,
)
    ensures
        call_ensures(
            resolve_daemon_target,
            (host, port, &Ok::<Vec<bool>, String>(resolved)),
            r,
        ) ==> {
            &&& r is Ok <==> resolved@.len() > 0
            &&& r matches Ok(i) ==> i < resolved@.len() && forall|j: int|
                0 <= j < i ==> !#[trigger] resolved@[j]
            &&& r matches Ok(i) ==> !resolved@[i as int] ==> i == 0 && forall|j: int|
                0 <= j < resolved@.len() ==> !#[trigger] resolved@[j]
        },
{
    lemma_first_true(resolved@);
}

/// Whether a configuration has a daemon on record that serves.
pub open spec fn on_record_as_serving(config: APWRuntimeConfig) -> bool {
    if config.runtime_mode == RuntimeMode::Native || config.runtime_mode == RuntimeMode::Browser {
        opt_text(config.bridge_status) == Some("attached"@)
    } else {
        config.last_launch_status is None || opt_text(config.last_launch_status) == Some("ok"@)
    }
}

/// A client is told that the daemon does not serve exactly where that is on record: its bridge is
/// not attached, or its last launch did not work. Of a launch that failed with an error it is told
/// that error first.
pub proof fn law_recorded_failure_is_told(
    env: &PreflightEnvironment,
    config: &APWRuntimeConfig,
    r: Option<APWError>,
)
    ensures
        call_ensures(launch_error_from_config, (env, config), r) ==> {
            &&& r is None <==> on_record_as_serving(*config)
            &&& r matches Some(error) ==> error.code == Status::ProcessNotRunning
            &&& r matches Some(error) ==> (config.runtime_mode != RuntimeMode::Native
                && config.runtime_mode != RuntimeMode::Browser && opt_text(
                config.last_launch_status,
            ) == Some("failed"@) && config.last_launch_error is Some ==> begins_with(
                error.message@,
                config.last_launch_error->0@,
            ))
        },
{
    lemma_launch_words();
    lemma_bridge_words();
    if config.last_launch_error is Some {
        law_failure_begins_with_its_cause(
            *env,
            config.runtime_mode,
            config.last_launch_error->0@,
        );
    }
}

/// A message is sent only with a configuration whose daemon is not on record as failed, and with
/// that configuration.
pub proof fn law_profile_is_the_configuration(
    env: &PreflightEnvironment,
    config: APWRuntimeConfig,
    r: Result<APWRuntimeConfig>,
)
    ensures
        call_ensures(helper_launch_profile, (env, Ok::<APWRuntimeConfig, APWError>(config)), r) ==> {
            &&& r is Ok <==> on_record_as_serving(config)
            &&& r is Ok ==> r->Ok_0@ == config@
        },
{
    lemma_launch_words();
    lemma_bridge_words();
}

/// A client goes on with the session on record, at the address of the daemon on record: the same
/// user and the same key. Where there is none it keeps its own session.
pub proof fn law_recorded_session_is_gone_on_with(
    session: SRPSession,
    config: APWRuntimeConfig,
    r: ApplePasswordManager,
)
    ensures
        call_ensures(
            ApplePasswordManager::with_session,
            (session, Ok::<APWRuntimeConfig, APWError>(config)),
            r,
        ) ==> {
            &&& r@.remote_host == config.host@
            &&& r@.remote_port == config.port
            &&& if config.username@.len() > 0 && config.shared_key@ > 0 {
                r@.session == (SessionModel {
                    username: config.username@,
                    shared_key: Some(config.shared_key@),
                    ..session@
                })
            } else {
                r@.session == session@
            }
        },
{
}

/// Before a query the client takes over the session on record. That the daemon does not serve is
/// told before that there is no session; without a session there is no query.
pub proof fn law_query_needs_a_session(
    manager: &mut ApplePasswordManager,
    env: &PreflightEnvironment,
    config: APWRuntimeConfig,
    r: Result<APWRuntimeConfig>,
)
    ensures
        call_ensures(
            ApplePasswordManager::ensure_authenticated,
            (manager, env, Ok::<APWRuntimeConfig, APWError>(config)),
            r,
        ) ==> {
            let there = config.username@.len() > 0 && config.shared_key@ > 0;
            &&& r is Ok <==> there && on_record_as_serving(config)
            &&& !on_record_as_serving(config) ==> r is Err && r->Err_0.code
                == Status::ProcessNotRunning
            &&& on_record_as_serving(config) && !there ==> r is Err && r->Err_0.code
                == Status::InvalidSession
            &&& r is Ok ==> r->Ok_0@ == config@ && final(manager)@.session == (SessionModel {
                username: config.username@,
                shared_key: Some(config.shared_key@),
                ..old(manager)@.session
            })
            &&& r is Err ==> final(manager)@.session == old(manager)@.session
            &&& final(manager)@.remote_host == config.host@
            &&& final(manager)@.remote_port == config.port
        },
{
    lemma_launch_words();
    lemma_bridge_words();
}

/// After a logout nothing of the session is left: neither its key nor anything of an exchange.
pub proof fn law_logout_forgets_the_session(manager: &mut ApplePasswordManager, r: Result<()>)
    ensures
        call_ensures(ApplePasswordManager::logout, (manager,), r) ==> {
            &&& r is Ok
            &&& final(manager)@.session.shared_key is None
            &&& final(manager)@.session.server_public_key is None
            &&& final(manager)@.session.salt is None
            &&& final(manager)@.challenged_at is None
            &&& final(manager)@.remote_host == old(manager)@.remote_host
            &&& final(manager)@.remote_port == old(manager)@.remote_port
        },
{
}

/// Whether an answer carries bytes for a session in the encoding of the session.
pub open spec fn carries_bytes(payload: Json, session: SessionModel, bytes: Seq<u8>) -> bool {
    payload.get("SMSG"@) matches Some(smsg) && smsg is Obj && smsg.get("TID"@) == Some(
        Json::Str(session.username),
    ) && (smsg.get("SDATA"@) matches Some(Json::Str(text)) && writes_bytes(
        text,
        bytes,
        session.should_use_base64,
    ))
}

/// What the helper encrypts for the session is what comes out of its answer, where anything does.
pub proof fn law_answer_is_opened(
    manager: &ApplePasswordManager,
    payload: &JsonValue,
    bytes: Seq<u8>,
    value: Json,
    r: Result<JsonValue>,
)
    ensures
        call_ensures(ApplePasswordManager::decrypt_payload, (manager, payload), r)
            && manager@.session.shared_key is Some && carries_bytes(
            payload@,
            manager@.session,
            bytes,
        ) && opens_as(manager@.session.shared_key->0, bytes, value) ==> match r {
            Ok(read) => read@ == value,
            Err(error) => error.code == Status::ProtoInvalidResponse,
        },
{
    if call_ensures(ApplePasswordManager::decrypt_payload, (manager, payload), r)
        && manager@.session.shared_key is Some && carries_bytes(payload@, manager@.session, bytes)
        && opens_as(manager@.session.shared_key->0, bytes, value) {
        lemma_opened(manager@.session, payload@, bytes, value, r);
    }
}

proof fn lemma_opened(
    session: SessionModel,
    payload: Json,
    bytes: Seq<u8>,
    value: Json,
    r: Result<JsonValue>,
)
    requires
        answer_opens(session, payload, r),
        session.shared_key is Some,
        carries_bytes(payload, session, bytes),
        opens_as(session.shared_key->0, bytes, value),
    ensures
        match r {
            Ok(read) => read@ == value,
            Err(error) => error.code == Status::ProtoInvalidResponse,
        },
{
    lemma_answer_names();
    let key = session.shared_key->0;
    crate::codec::law_prefixed_hex_decodes(bytes);
    let text = choose|text: Seq<u8>| #[trigger]
        seals_under(key, text, bytes) && json_parsed(text) == Some(value);
    lemma_seals_under(key, text, bytes);
    assert(seals(cipher_key(key), text, bytes));
}

/// An answer for another session, or without anything encrypted in it, is refused.
pub proof fn law_answer_for_another_session_is_refused(
    manager: &ApplePasswordManager,
    payload: &JsonValue,
    r: Result<JsonValue>,
)
    ensures
        call_ensures(ApplePasswordManager::decrypt_payload, (manager, payload), r) ==> {
            &&& r is Ok ==> manager@.session.shared_key is Some
            &&& payload@.get("SMSG"@) matches Some(smsg) ==> (smsg is Obj && r is Ok ==> smsg.get(
                "TID"@,
            ) == Some(Json::Str(manager@.session.username)))
            &&& payload@ is Obj && payload@.get("SMSG"@) is None && payload@.get("SDATA"@) is None
                ==> r is Err
        },
{
    lemma_answer_names();
}

/// The status and the entries that the helper encrypts for the session are those that come out of
/// its answer, where anything does.
pub proof fn law_entries_come_out(
    manager: &ApplePasswordManager,
    payload: &JsonValue,
    bytes: Seq<u8>,
    value: Json,
    status: Status,
    r: Result<Payload>,
)
    ensures
        call_ensures(ApplePasswordManager::read_answer, (manager, payload), r)
            && manager@.session.shared_key is Some && carries_bytes(
            payload@,
            manager@.session,
            bytes,
        ) && opens_as(manager@.session.shared_key->0, bytes, value) && value.get("STATUS"@) == Some(
            Json::Int(status_number(status)),
        ) && value.get("Entries"@) is Some && value.get("Entries"@)->0 is Arr ==> match r {
            Ok(read) => {
                let entries = value.get("Entries"@)->0->Arr_0;
                &&& read.status == status
                &&& read.entries@.len() == entries.len()
                &&& forall|i: int|
                    0 <= i < entries.len() ==> (#[trigger] read.entries@[i])@ == entries[i]
            },
            Err(error) => error.code == Status::ProtoInvalidResponse,
        },
{
    if call_ensures(ApplePasswordManager::read_answer, (manager, payload), r)
        && manager@.session.shared_key is Some && carries_bytes(payload@, manager@.session, bytes)
        && opens_as(manager@.session.shared_key->0, bytes, value) && value.get("STATUS"@) == Some(
        Json::Int(status_number(status)),
    ) && value.get("Entries"@) is Some && value.get("Entries"@)->0 is Arr {
        lemma_answer_names();
        let opened = choose|opened: Result<JsonValue>|
            {
                &&& #[trigger] answer_opens(manager@.session, payload@, opened)
                &&& match opened {
                    Err(error) => fails(r, error.code, error.message@),
                    Ok(value) => match payload_parts(value@) {
                        Some((status, entries)) => r is Ok && r->Ok_0.status == status
                            && has_entries(r->Ok_0, entries),
                        None => fails(
                            r,
                            Status::ProtoInvalidResponse,
                            "Invalid helper response payload."@,
                        ),
                    },
                }
            };
        lemma_opened(manager@.session, payload@, bytes, value, opened);
    }
}

/// An answer without an envelope is one with a status number and a list of entries, and is given back
/// as it is.
pub proof fn law_bare_answer(payload: &JsonValue, n: int, r: Option<JsonValue>)
    ensures
        call_ensures(parse_legacy_payload, (payload,), r) ==> {
            &&& r is Some ==> r->0@ == payload@
            &&& payload@.get("STATUS"@) == Some(Json::Int(n)) && i64::MIN <= n <= u64::MAX && (
            payload@.get("Entries"@) matches Some(Json::Arr(_))) ==> r is Some
            &&& payload@.get("STATUS"@) is None || !(payload@.get("STATUS"@)->0 is Int) ==> r is None
            &&& payload@.get("Entries"@) is None || !(payload@.get("Entries"@)->0 is Arr)
                ==> r is None
        },
{
}

/// What is told of a bridge that is not attached tells the failure that is on record, and the browser.
pub proof fn law_remediation_tells_the_cause(
    env: &PreflightEnvironment,
    config: &APWRuntimeConfig,
    default_status: &str,
    native: String,
    browser: String,
)
    ensures
        call_ensures(native_host_remediation, (env, config, default_status), native)
            && config@.bridge.status == Some("error"@) && config@.bridge.last_error is Some
            ==> occurs_in(native@, config@.bridge.last_error->0),
        call_ensures(browser_bridge_remediation, (env, config, default_status), browser) ==> {
            &&& config@.bridge.status == Some("error"@) && config@.bridge.last_error is Some
                ==> occurs_in(browser@, config@.bridge.last_error->0)
            &&& config@.bridge.browser is Some ==> occurs_in(browser@, config@.bridge.browser->0)
        },
{
    lemma_bridge_words();
    if call_ensures(native_host_remediation, (env, config, default_status), native)
        && config@.bridge.status == Some("error"@) && config@.bridge.last_error is Some {
        let cause = config@.bridge.last_error->0;
        let front = crate::client::NATIVE_REPORTED@;
        let back = ". "@ + crate::host::host_note(env.host);
        assert(native@ =~= front + cause + back);
        lemma_within(front, cause, back);
    }
    if call_ensures(browser_bridge_remediation, (env, config, default_status), browser) {
        let status = crate::client::status_or(config@, default_status@);
        let note = " "@ + crate::preflight::preflight_note(*env, config@.runtime_mode);
        let mode = crate::client::BROWSER_MODE@;
        let reload = crate::client::BRIDGE_RELOAD@;
        let name = match config@.bridge.browser {
            Some(name) => name,
            None => "Chrome"@,
        };
        if config@.bridge.status == Some("error"@) && config@.bridge.last_error is Some {
            let cause = config@.bridge.last_error->0;
            let front = mode + "the "@ + name + " bridge reported an error: "@;
            let back = ". "@ + reload + note;
            assert(browser@ =~= front + cause + back);
            lemma_within(front, cause, back);
        }
        if status == "disconnected"@ {
            let front = mode + "the "@;
            let back = " bridge disconnected. "@ + reload + note;
            assert(browser@ =~= front + name + back);
            lemma_within(front, name, back);
        } else if status == "error"@ && config@.bridge.last_error is Some {
            let front = mode + "the "@;
            let back = " bridge reported an error: "@ + config@.bridge.last_error->0 + ". "@ + reload
                + note;
            assert(browser@ =~= front + name + back);
            lemma_within(front, name, back);
        } else {
            let front = mode + "no "@;
            let back = crate::client::BRIDGE_LOAD@ + note;
            assert(browser@ =~= front + name + back);
            lemma_within(front, name, back);
        }
    }
}

/// The session and the encrypted data of an answer are its `TID` and its `SDATA`, under `SMSG` where
/// there is one.
pub proof fn law_sealed_parts_of_an_answer(payload: &JsonValue, r: Result<SMSG>)
    ensures
        call_ensures(parse_smsg, (payload,), r) && payload@ is Obj ==> {
            let message = match payload@.get("SMSG"@) {
                Some(inner) => inner,
                None => payload@,
            };
            &&& message is Obj && r is Ok ==> message.get("TID"@) == Some(Json::Str(r->Ok_0.TID@))
                && message.get("SDATA"@) == Some(Json::Str(r->Ok_0.SDATA@))
            &&& message is Obj && (message.get("TID"@) matches Some(Json::Str(_))) && (message.get(
                "SDATA"@,
            ) matches Some(Json::Str(_))) ==> r is Ok
            &&& r is Err ==> r->Err_0.code == Status::ProtoInvalidResponse
        },
{
    lemma_answer_names();
}

/// The question for the helper's capabilities says that codes can be filled in.
pub proof fn law_capabilities_are_asked_for(r: Message)
    ensures
        call_ensures(APWMessages::get_capabilities, (), r) ==> r@.get("cmd"@) == Some(Json::Int(14))
            && (r@.get("capabilities"@) matches Some(value) && value.get("canFillOneTimeCodes"@)
            == Some(Json::Bool(true))),
{
    lemma_message_names();
}

/// The text of the key exchange is what stands under `PAKE`, and a part of a message is the number
/// that it writes.
pub proof fn law_parts_of_a_message(
    value: &JsonValue,
    field: &str,
    text: Seq<char>,
    n: int,
    pake: Result<String>,
    number: Result<i64>,
)
    ensures
        call_ensures(parse_json_payload, (value, field), pake) ==> {
            &&& value@.get("PAKE"@) == Some(Json::Str(text)) ==> pake is Ok && pake->Ok_0@ == text
            &&& pake is Ok ==> value@.get("PAKE"@) == Some(Json::Str(pake->Ok_0@))
            &&& pake is Err ==> pake->Err_0.code == Status::ProtoInvalidResponse
        },
        call_ensures(parse_pake_type, (value, field), number) ==> {
            &&& value@ == Json::Int(n) && i64::MIN <= n <= i64::MAX ==> number == Ok::<_, APWError>(
                n as i64,
            )
            &&& value@ is Null || value@ is Bool || value@ is Obj ==> number is Err
            &&& number is Err ==> number->Err_0.code == Status::ProtoInvalidResponse
        },
{
}

/// A try that does not time out is the last one. There is one try, and as many more as the options
/// allow; and the answer is that of the last.
pub proof fn law_message_is_sent_until_an_answer_comes<
    S: Fn(u8) -> Result<JsonValue>,
    W: Fn(u8, u64),
>(send_once: &S, wait: &W, opts: Option<ClientSendOpts>, r: Result<JsonValue>)
    ensures
        call_ensures(send_message::<S, W>, (send_once, wait, opts), r) ==> {
            &&& (forall|outcome: Result<JsonValue>| #[trigger]
                call_ensures(*send_once, (0u8,), outcome) ==> (outcome matches Err(error)
                    ==> error.code != Status::CommunicationTimeout)) ==> call_ensures(
                *send_once,
                (0u8,),
                r,
            )
            &&& opts is None ==> call_ensures(*send_once, (0u8,), r)
            &&& opts is Some && r is Err && r->Err_0.code == Status::CommunicationTimeout
                ==> call_ensures(*send_once, (opts->0.retries,), r)
        },
{
    if call_ensures(send_message::<S, W>, (send_once, wait, opts), r) {
        let last = choose|last: u8|
            {
                &&& last <= retries_of(opts)
                &&& #[trigger] call_ensures(*send_once, (last,), r)
                &&& timed_out(r) ==> last == retries_of(opts)
                &&& forall|attempt: u8|
                    attempt < last ==> #[trigger] may_time_out(*send_once, attempt) && waited(
                        *wait,
                        attempt,
                    )
            };
        if last > 0 {
            assert(may_time_out(*send_once, 0u8));
        }
    }
}

/// No answer in time is a timeout, and any other failure tells its cause.
pub proof fn law_missing_answer(timed_out: bool, complaint: &str, r: APWError)
    ensures
        call_ensures(receive_failure, (timed_out, complaint), r) ==> {
            &&& r.code == Status::CommunicationTimeout <==> timed_out
            &&& !timed_out ==> occurs_in(r.message@, complaint@)
        },
{
    if call_ensures(receive_failure, (timed_out, complaint), r) && !timed_out {
        let front = "No response from helper process: "@;
        assert(r.message@ =~= front + complaint@ + Seq::empty());
        lemma_within(front, complaint@, Seq::empty());
    }
}

/// The configuration for a query is never refused for a missing session, and is as old as asked for,
/// or thirty days.
pub proof fn law_query_reads_the_configuration(
    opts: Option<ConfigReadOptions>,
    r: ConfigReadOptions,
)
    ensures
        call_ensures(auth_read_options, (opts,), r) ==> {
            &&& !r.require_auth
            &&& opts is None ==> r.max_age_ms == 2_592_000_000 && !r.ignore_expiry
            &&& opts matches Some(options) ==> r.max_age_ms == options.max_age_ms && r.ignore_expiry
                == options.ignore_expiry
        },
{
}

/// The status and the entries of a decrypted answer are those that stand in it, and decrypted data is
/// the JSON value that it writes.
pub proof fn law_decrypted_answer_is_read(
    value: &JsonValue,
    status: Status,
    entries: Seq<Json>,
    r: Result<Payload>,
    opened: Result<Vec<u8>>,
    data: Result<JsonValue>,
)
    ensures
        call_ensures(read_payload, (value,), r) && value@ is Obj ==> {
            &&& value@.get("STATUS"@) == Some(Json::Int(status_number(status))) && value@.get(
                "Entries"@,
            ) == Some(Json::Arr(entries)) ==> r is Ok && r->Ok_0.status == status
                && r->Ok_0.entries@.len() == entries.len() && forall|i: int|
                0 <= i < entries.len() ==> (#[trigger] r->Ok_0.entries@[i])@ == entries[i]
            &&& value@.get("STATUS"@) is None || value@.get("Entries"@) is None ==> r is Err
        },
        call_ensures(accept_data, (opened,), data) ==> {
            &&& data is Ok ==> opened is Ok && json_parsed(opened->Ok_0@) == Some(data->Ok_0@)
            &&& opened is Ok && json_parsed(opened->Ok_0@) is Some ==> data is Ok
            &&& data is Err ==> data->Err_0.code == Status::ProtoInvalidResponse
        },
{
}

} // verus!
