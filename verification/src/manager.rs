//! The password manager's client: one session with the helper behind the daemon, from the key
//! exchange to encrypted queries.
use crate::bignum::{be_bytes, be_value, BigUint};
use crate::client::{
    capabilities_json, envelope_meets, launch_error, launch_error_from_config, lookup_url,
    normalize_lookup_url, parse_json_payload, parse_pake_message_code, parse_pake_type,
    parse_response_envelope, parse_smsg, query_meets, smsg_meets, APWMessages, ClientSendOpts,
    CHALLENGE_FRESH_MS, DEFAULT_RETRY_DELAY_MS, NO_SESSION_MESSAGE, UNAUTHENTICATED_DAEMON_MESSAGE,
};
use crate::client::{handshake_json, login_names_query, otp_query, password_query};
use crate::clock::{moment_of, stale, stale_config, Moment};
use crate::codec::{base64_bytes, base64_decode, base64_text, decode_base64_or_hex, fallback_bytes};
use crate::crypto::{random_u64, GCM_TAG_BYTES, NONCE_BYTES};
use crate::error::{fails, APWError, Result};
use crate::json::{
    json_parsed, json_text, member_text, object_text, parse_json, plain_members, text_or_null,
    Json, JsonValue,
};
use crate::preflight::{helper_preflight_status, preflight_report, PreflightEnvironment};
use crate::srp::{
    carries_value, check_record, cipher_key, client_proof, conveys, fresh_session, get_part,
    group_modulus, is_record, is_valid_pake_message, key_exchange_json, key_long_enough,
    numeric_token, public_key, record_part, seals, server_proof, session_key, text_reads_back,
    unmasked, updated, valid_pake, verification_json, SRPSession, SessionModel, SessionValues,
    ValuesModel,
};
use crate::text::{cat, copy_opt, decimal_i64, integer_text, opt_text, owned, str_eq};
use crate::types::{
    command_number, empty_runtime, mode_word, msg_number, opt_json, status_of_json,
    version_number, APWResponseEnvelope, APWRuntimeConfig, Action, Command, ConfigModel, MSGTypes,
    Message, Payload, RuntimeMode, RuntimeModel, SecretSessionVersion, Status, CONFIG_SCHEMA,
    DEFAULT_HOST, DEFAULT_PORT, MAX_MESSAGE_BYTES, PAKE_FIELD_B, PAKE_FIELD_ERR_CODE,
    PAKE_FIELD_HAMK, PAKE_FIELD_MSG, PAKE_FIELD_PROTO, PAKE_FIELD_S, PAKE_FIELD_TID,
};
use crate::utils::{
    expired, read_verdict, reads_back, valid_host, with_key, write_store, written,
    ConfigReadOptions, ReadVerdict, WriteConfigInput, SESSION_MAX_AGE_MS,
};
use vstd::prelude::*;

verus! {

/// A client with its session and the address of its daemon.
pub struct ApplePasswordManager {
    pub session: SRPSession,
    remote_host: String,
    remote_port: u16,
    challenged_at: Option<u64>,
}

/// The model of a client.
#[verifier::ext_equal]
pub struct ManagerModel {
    pub session: SessionModel,
    pub remote_host: Seq<char>,
    pub remote_port: u16,
    pub challenged_at: Option<u64>,
}

impl View for ApplePasswordManager {
    type V = ManagerModel;

    closed spec fn view(&self) -> ManagerModel {
        ManagerModel {
            session: self.session@,
            remote_host: self.remote_host@,
            remote_port: self.remote_port,
            challenged_at: self.challenged_at,
        }
    }
}

/// Whether a configuration has a session.
pub open spec fn has_session(config: RuntimeModel) -> bool {
    config.username.len() > 0 && config.shared_key != 0
}

fn holds_session(config: &APWRuntimeConfig) -> (r: bool)
    ensures
        r == has_session(config@),
{
    !config.username.as_str().is_empty() && !config.shared_key.is_zero()
}

/// The user and the key of a configuration as values of a session.
pub open spec fn session_values(config: RuntimeModel) -> ValuesModel {
    ValuesModel {
        username: Some(config.username),
        shared_key: Some(config.shared_key),
        client_private_key: None,
        salt: None,
        server_public_key: None,
    }
}

fn values_from(config: &APWRuntimeConfig) -> (r: SessionValues)
    ensures
        r@ == session_values(config@),
{
    SessionValues {
        username: Some(owned(config.username.as_str())),
        shared_key: Some(config.shared_key.copy()),
        client_private_key: None,
        salt: None,
        server_public_key: None,
    }
}

/// The text of a message as it is sent, unless it is too long.
pub fn encode_request(message: &Message) -> (r: Result<Vec<u8>>)
    ensures
        ({
            let text = object_text(message.members());
            if text.len() > MAX_MESSAGE_BYTES {
                fails(r, Status::ProtoInvalidResponse, "Request payload too large."@)
            } else {
                &&& r is Ok && r->Ok_0@ == text
                &&& plain_members(message.members()) ==> json_parsed(text) == Some(message@)
            }
        }),
{
    let payload = message.to_text();
    if payload.len() > MAX_MESSAGE_BYTES {
        Err(APWError::new(Status::ProtoInvalidResponse, "Request payload too large."))
    } else {
        Ok(payload)
    }
}

/// What the bytes of an answer say.
pub open spec fn response_meets(bytes: Seq<u8>, r: Result<JsonValue>) -> bool {
    if bytes.len() > MAX_MESSAGE_BYTES {
        fails(r, Status::ProtoInvalidResponse, "Response payload too large."@)
    } else {
        match json_parsed(bytes) {
            Some(value) => envelope_meets(value, r),
            None => fails(r, Status::ProtoInvalidResponse, "Invalid helper response JSON."@),
        }
    }
}

/// What the bytes of an answer say.
pub fn decode_response(bytes: &[u8]) -> (r: Result<JsonValue>)
    ensures
        response_meets(bytes@, r),
{
    if bytes.len() > MAX_MESSAGE_BYTES {
        return Err(APWError::new(Status::ProtoInvalidResponse, "Response payload too large."));
    }
    match parse_json(bytes) {
        Some(value) => parse_response_envelope(&value),
        None => Err(APWError::new(Status::ProtoInvalidResponse, "Invalid helper response JSON.")),
    }
}

/// The error where no answer came.
pub fn receive_failure(timed_out: bool, complaint: &str) -> (r: APWError)
    ensures
        timed_out ==> r.code == Status::CommunicationTimeout && r.message@
            == "No response from helper process"@,
        !timed_out ==> r.code == Status::GenericError && r.message@
            == "No response from helper process: "@ + complaint@,
{
    if timed_out {
        APWError::new(Status::CommunicationTimeout, "No response from helper process")
    } else {
        APWError {
            code: Status::GenericError,
            message: cat("No response from helper process: ", complaint),
        }
    }
}

/// Whether an outcome is a timeout.
pub open spec fn timed_out(outcome: Result<JsonValue>) -> bool {
    outcome is Err && outcome->Err_0.code == Status::CommunicationTimeout
}

/// Whether the numbered try can end in a timeout.
pub open spec fn may_time_out<S: Fn(u8) -> Result<JsonValue>>(send_once: S, attempt: u8) -> bool {
    exists|outcome: Result<JsonValue>| #[trigger]
        call_ensures(send_once, (attempt,), outcome) && timed_out(outcome)
}

/// Whether there was a wait after the numbered try, of the length that goes before another one.
pub open spec fn waited<W: Fn(u8, u64)>(wait: W, attempt: u8) -> bool {
    exists|delay: u64| #[trigger]
        call_ensures(wait, (attempt, delay), ()) && DEFAULT_RETRY_DELAY_MS <= delay < 2
            * DEFAULT_RETRY_DELAY_MS
}

/// The wait before a message is sent again: a fixed time and a random share of it.
pub fn retry_delay(random: u64) -> (r: u64)
    ensures
        r == DEFAULT_RETRY_DELAY_MS + random % DEFAULT_RETRY_DELAY_MS,
{
    DEFAULT_RETRY_DELAY_MS + random % DEFAULT_RETRY_DELAY_MS
}

/// Sends a message until an answer comes, at most once and as many times more as the options
/// allow. Only a timeout is followed by another try, after a wait. `send_once` makes the numbered
/// try, and `wait` waits so many milliseconds after the numbered one.
pub fn send_message<S: Fn(u8) -> Result<JsonValue>, W: Fn(u8, u64)>(
    send_once: &S,
    wait: &W,
    opts: Option<ClientSendOpts>,
) -> (r: Result<JsonValue>)
    requires
        forall|attempt: u8| #[trigger] call_requires(*send_once, (attempt,)),
        forall|attempt: u8, delay: u64| #[trigger] call_requires(*wait, (attempt, delay)),
    ensures
        exists|last: u8|
            {
                &&& last <= retries_of(opts)
                &&& #[trigger] call_ensures(*send_once, (last,), r)
                &&& timed_out(r) ==> last == retries_of(opts)
                &&& forall|attempt: u8|
                    attempt < last ==> #[trigger] may_time_out(*send_once, attempt) && waited(
                        *wait,
                        attempt,
                    )
            },
{
    let options = match opts {
        Some(options) => options,
        None => ClientSendOpts::default(),
    };
    let retries: u8 = options.retries;
    let mut attempt: u8 = 0;
    loop
        invariant
            retries == retries_of(opts),
            attempt <= retries,
            forall|attempt: u8| #[trigger] call_requires(*send_once, (attempt,)),
            forall|attempt: u8, delay: u64| #[trigger] call_requires(*wait, (attempt, delay)),
            forall|earlier: u8|
                earlier < attempt ==> #[trigger] may_time_out(*send_once, earlier) && waited(
                    *wait,
                    earlier,
                ),
        decreases retries - attempt,
    {
        let outcome = send_once(attempt);
        assert(call_ensures(*send_once, (attempt,), outcome));
        let again = match &outcome {
            Ok(_) => false,
            Err(error) => match error.code {
                Status::CommunicationTimeout => attempt < retries,
                _ => false,
            },
        };
        if !again {
            return outcome;
        }
        let delay: u64 = retry_delay(random_u64());
        wait(attempt, delay);
        assert(call_ensures(*wait, (attempt, delay), ()));
        assert(may_time_out(*send_once, attempt));
        assert(waited(*wait, attempt));
        attempt = attempt + 1;
    }
}

/// How many times more a message is sent.
pub open spec fn retries_of(opts: Option<ClientSendOpts>) -> u8 {
    match opts {
        Some(options) => options.retries,
        None => crate::client::DEFAULT_RETRIES,
    }
}

/// The options with which the configuration is read for a query: expiry as asked, and never an
/// error for a missing session.
pub fn auth_read_options(opts: Option<ConfigReadOptions>) -> (r: ConfigReadOptions)
    ensures
        !r.require_auth,
        match opts {
            Some(options) => r.max_age_ms == options.max_age_ms && r.ignore_expiry
                == options.ignore_expiry,
            None => r.max_age_ms == SESSION_MAX_AGE_MS && !r.ignore_expiry,
        },
{
    match opts {
        Some(options) => ConfigReadOptions {
            require_auth: false,
            max_age_ms: options.max_age_ms,
            ignore_expiry: options.ignore_expiry,
        },
        None => ConfigReadOptions {
            require_auth: false,
            max_age_ms: SESSION_MAX_AGE_MS,
            ignore_expiry: false,
        },
    }
}

/// The complaint about a missing session: whether there is a daemon on record.
pub open spec fn missing_session(config: RuntimeModel) -> Seq<char> {
    if config.launch.status is Some || config.bridge.status is Some || config.runtime_mode
        != RuntimeMode::Auto {
        UNAUTHENTICATED_DAEMON_MESSAGE@
    } else {
        NO_SESSION_MESSAGE@
    }
}

/// What an answer to the first message of the key exchange comes to.
pub enum ChallengeVerdict {
    Keys { server_public_key: nat, salt: nat },
    Failure(Status, Seq<char>),
}

/// The message that an answer carries under base64.
pub open spec fn carried_message(text: Seq<char>) -> Option<Json> {
    match base64_bytes(text) {
        Some(bytes) => json_parsed(bytes),
        None => None,
    }
}

fn read_carried(text: &str) -> (r: Option<JsonValue>)
    ensures
        opt_json(r) == carried_message(text@),
{
    match base64_decode(text) {
        Some(bytes) => parse_json(bytes.as_slice()),
        None => None,
    }
}

/// The text of a member, empty where it is not text.
pub open spec fn text_or_empty(value: Json, key: Seq<char>) -> Seq<char> {
    match value.get(key) {
        Some(Json::Str(text)) => text,
        _ => Seq::empty(),
    }
}

fn member_or_empty(value: &JsonValue, key: &str) -> (r: String)
    ensures
        r@ == text_or_empty(value@, key@),
{
    match value.get(key) {
        Some(member) => match member.as_str() {
            Some(text) => owned(text.as_str()),
            None => String::new(),
        },
        None => String::new(),
    }
}

/// The error code of a message: zero where there is none.
pub open spec fn error_code(message: Json) -> Option<i64> {
    let code = message.get_or_null(PAKE_FIELD_ERR_CODE@);
    if code is Null {
        Some(0)
    } else {
        numeric_token(code)
    }
}

/// What a message of the server in the key exchange comes to for a session.
pub open spec fn challenge_verdict(username: Seq<char>, message: Json) -> ChallengeVerdict {
    let kind = numeric_token(message.get_or_null(PAKE_FIELD_MSG@));
    let protocol = numeric_token(message.get_or_null(PAKE_FIELD_PROTO@));
    let server_key = message.get(PAKE_FIELD_B@);
    let salt = message.get(PAKE_FIELD_S@);
    if !valid_pake(message) {
        ChallengeVerdict::Failure(
            Status::ServerError,
            "Invalid server challenge: malformed PAKE message"@,
        )
    } else if kind is None {
        ChallengeVerdict::Failure(
            Status::ProtoInvalidResponse,
            "Invalid "@ + "message"@ + " message type."@,
        )
    } else if kind->0 != msg_number(MSGTypes::ServerKeyExchange) {
        ChallengeVerdict::Failure(
            Status::ServerError,
            "Invalid server challenge: unexpected message type"@,
        )
    } else if protocol is None {
        ChallengeVerdict::Failure(
            Status::ProtoInvalidResponse,
            "Invalid "@ + "protocol"@ + " message type."@,
        )
    } else if protocol->0 != version_number(SecretSessionVersion::SrpWithRfcVerification) {
        ChallengeVerdict::Failure(
            Status::ServerError,
            "Invalid server challenge: unsupported protocol"@,
        )
    } else if error_code(message) is None {
        ChallengeVerdict::Failure(Status::ProtoInvalidResponse, "Malformed PAKE numeric field."@)
    } else if error_code(message)->0 != 0 {
        ChallengeVerdict::Failure(
            Status::ServerError,
            "Invalid server challenge: error "@ + integer_text(error_code(message)->0 as int),
        )
    } else if text_or_empty(message, PAKE_FIELD_TID@) != username {
        ChallengeVerdict::Failure(
            Status::InvalidSession,
            "Invalid server challenge: session mismatch."@,
        )
    } else if !(server_key is Some && server_key->0 is Str) {
        ChallengeVerdict::Failure(
            Status::ServerError,
            "Invalid server challenge: missing server key"@,
        )
    } else if !(salt is Some && salt->0 is Str) {
        ChallengeVerdict::Failure(Status::ServerError, "Invalid server challenge: missing salt"@)
    } else {
        let key_bytes = fallback_bytes(server_key->0->Str_0, true);
        let salt_bytes = fallback_bytes(salt->0->Str_0, true);
        if key_bytes is None || salt_bytes is None {
            ChallengeVerdict::Failure(Status::ProtoInvalidResponse, "Invalid bigint encoding."@)
        } else if be_value(key_bytes->0) % group_modulus() == 0 {
            ChallengeVerdict::Failure(
                Status::InvalidSession,
                "Invalid server hello: invalid public key"@,
            )
        } else {
            ChallengeVerdict::Keys {
                server_public_key: be_value(key_bytes->0),
                salt: be_value(salt_bytes->0),
            }
        }
    }
}

/// What an answer in the key exchange comes to for a session.
pub open spec fn challenge_answer(username: Seq<char>, payload: Json) -> ChallengeVerdict {
    match payload.get("PAKE"@) {
        Some(Json::Str(text)) => if text.len() == 0 {
            ChallengeVerdict::Failure(Status::ServerError, "Invalid challenge response."@)
        } else {
            match carried_message(text) {
                Some(message) => challenge_verdict(username, message),
                None => ChallengeVerdict::Failure(
                    Status::ServerError,
                    "Invalid server challenge payload."@,
                ),
            }
        },
        _ => ChallengeVerdict::Failure(
            Status::ProtoInvalidResponse,
            "Invalid "@ + "challenge"@ + " payload."@,
        ),
    }
}

fn server_error<T>(message: &str) -> (r: Result<T>)
    ensures
        fails(r, Status::ServerError, message@),
{
    Err(APWError::new(Status::ServerError, message))
}

fn session_error<T>(message: &str) -> (r: Result<T>)
    ensures
        fails(r, Status::InvalidSession, message@),
{
    Err(APWError::new(Status::InvalidSession, message))
}

/// What the server's answer to the client's proof comes to: the error, or nothing where the
/// server has proved that it knows the session key.
pub open spec fn verification_error(
    session: SessionModel,
    proof_bytes: Seq<u8>,
    message: Json,
) -> Option<(Status, Seq<char>)> {
    let kind = numeric_token(message.get_or_null(PAKE_FIELD_MSG@));
    let hamk = message.get(PAKE_FIELD_HAMK@);
    if !valid_pake(message) {
        Some((Status::ServerError, "Invalid server verification."@))
    } else if kind is None {
        Some((Status::ProtoInvalidResponse, "Invalid "@ + "message"@ + " message type."@))
    } else if kind->0 != msg_number(MSGTypes::ServerVerification) {
        Some((Status::ServerError, "Invalid server verification type."@))
    } else if text_or_empty(message, PAKE_FIELD_TID@) != session.username {
        Some((Status::InvalidSession, "Invalid server response session."@))
    } else if error_code(message) is None {
        Some((Status::ProtoInvalidResponse, "Malformed PAKE numeric field."@))
    } else if error_code(message)->0 == 1 {
        Some((Status::InvalidSession, "Incorrect PIN."@))
    } else if error_code(message)->0 != 0 {
        Some((Status::ServerError, "Server verification failed."@))
    } else if !(hamk is Some && hamk->0 is Str) {
        Some((Status::ServerError, "Invalid verification: missing HAMK."@))
    } else {
        match fallback_bytes(hamk->0->Str_0, session.should_use_base64) {
            None => Some(
                (
                    Status::ProtoInvalidResponse,
                    if session.should_use_base64 {
                        "Invalid base64 value."@
                    } else {
                        "Invalid hex value."@
                    },
                ),
            ),
            Some(given) => if session.shared_key is None {
                Some((Status::InvalidSession, crate::srp::MISSING_KEY@))
            } else if given.len() == 0 || given != server_proof(session, proof_bytes) {
                Some((Status::ServerError, "Invalid verification proof."@))
            } else {
                None
            },
        }
    }
}

/// What an answer to the client's proof comes to.
pub open spec fn verification_answer(
    session: SessionModel,
    proof_bytes: Seq<u8>,
    payload: Json,
) -> Option<(Status, Seq<char>)> {
    match payload.get("PAKE"@) {
        Some(Json::Str(text)) => match carried_message(text) {
            Some(message) => verification_error(session, proof_bytes, message),
            None => Some((Status::ServerError, "Invalid server verification payload."@)),
        },
        _ => Some((Status::ProtoInvalidResponse, "Invalid "@ + "verification"@ + " payload."@)),
    }
}

/// What is written of a session that was verified.
pub open spec fn session_input(
    input: WriteConfigInput,
    manager: ManagerModel,
    shared_key: nat,
) -> bool {
    &&& opt_text(input.username) == Some(manager.session.username)
    &&& input.shared_key is Some && input.shared_key->0@ == shared_key
    &&& input.port == Some(manager.remote_port)
    &&& opt_text(input.host) == Some(manager.remote_host)
    &&& !input.allow_empty && !input.clear_auth && input.refresh_created_at
    &&& input.runtime_mode is None
    &&& input.last_launch_status is None && input.last_launch_error is None
    &&& input.last_launch_strategy is None && input.bridge_status is None
    &&& input.bridge_browser is None && input.bridge_connected_at is None
    &&& input.bridge_last_error is None
    &&& !input.reset_launch_metadata && !input.reset_bridge_metadata
}

/// The decrypted answer to a query: its status and its entries.
pub open spec fn payload_parts(value: Json) -> Option<(Status, Seq<Json>)> {
    if is_record(value, 2) {
        match (record_part(value, 0, "STATUS"@), record_part(value, 1, "Entries"@)) {
            (Some(status), Some(Json::Arr(entries))) => match status_of_json(status) {
                Some(status) => Some((status, entries)),
                None => None,
            },
            _ => None,
        }
    } else {
        None
    }
}

/// Whether a payload has the given entries.
pub open spec fn has_entries(payload: Payload, entries: Seq<Json>) -> bool {
    payload.entries@.len() == entries.len() && forall|i: int|
        0 <= i < entries.len() ==> (#[trigger] payload.entries@[i])@ == entries[i]
}

fn copy_items(items: &Vec<JsonValue>) -> (r: Vec<JsonValue>)
    ensures
        r@.len() == items@.len(),
        forall|i: int| 0 <= i < items@.len() ==> (#[trigger] r@[i])@ == items@[i]@,
{
    let mut out: Vec<JsonValue> = Vec::new();
    let mut i: usize = 0;
    while i < items.len()
        invariant
            i <= items.len(),
            out@.len() == i,
            forall|k: int| 0 <= k < i ==> (#[trigger] out@[k])@ == items@[k]@,
        decreases items.len() - i,
    {
        out.push(items[i].copy());
        i = i + 1;
    }
    out
}

/// The status and the entries of a decrypted answer.
pub fn read_payload(value: &JsonValue) -> (r: Result<Payload>)
    ensures
        match payload_parts(value@) {
            Some((status, entries)) => r is Ok && r->Ok_0.status == status && has_entries(
                r->Ok_0,
                entries,
            ),
            None => fails(r, Status::ProtoInvalidResponse, "Invalid helper response payload."@),
        },
{
    if check_record(value, 2) {
        let status = match get_part(value, 2, 0, "STATUS") {
            Some(part) => Status::deserialize(part),
            None => None,
        };
        match get_part(value, 2, 1, "Entries") {
            Some(part) => match part {
                JsonValue::Array(items) => match status {
                    Some(status) => {
                        let entries = copy_items(items);
                        let r = Payload { status, entries };
                        proof {
                            let model = part@->Arr_0;
                            assert forall|i: int| 0 <= i < model.len() implies (
                            #[trigger] r.entries@[i])@ == model[i] by {
                                assert(model[i] == items@[i]@);
                            }
                        }
                        return Ok(r);
                    },
                    None => {},
                },
                _ => {},
            },
            None => {},
        }
    }
    Err(APWError::new(Status::ProtoInvalidResponse, "Invalid helper response payload."))
}

impl ApplePasswordManager {
    /// A client that goes on with the session of a configuration, where it has one.
    pub fn with_session(session: SRPSession, config: Result<APWRuntimeConfig>) -> (r:
        ApplePasswordManager)
        ensures
            match config {
                Ok(config) => r@ == (ManagerModel {
                    session: if has_session(config@) {
                        updated(session@, session_values(config@))
                    } else {
                        session@
                    },
                    remote_host: config@.host,
                    remote_port: config@.port,
                    challenged_at: None,
                }),
                Err(_) => r@ == (ManagerModel {
                    session: session@,
                    remote_host: DEFAULT_HOST@,
                    remote_port: DEFAULT_PORT,
                    challenged_at: None,
                }),
            },
    {
        let mut session = session;
        match config {
            Ok(config) => {
                if holds_session(&config) {
                    session.update_with_values(values_from(&config));
                }
                ApplePasswordManager {
                    session,
                    remote_host: config.host,
                    remote_port: config.port,
                    challenged_at: None,
                }
            },
            Err(_) => ApplePasswordManager {
                session,
                remote_host: owned(DEFAULT_HOST),
                remote_port: DEFAULT_PORT,
                challenged_at: None,
            },
        }
    }

    /// A client with a new session, or with that of a configuration, where it has one.
    pub fn new(config: Result<APWRuntimeConfig>) -> (r: ApplePasswordManager)
        ensures
            r@.challenged_at is None,
            match config {
                Ok(config) => {
                    &&& r@.remote_host == config@.host && r@.remote_port == config@.port
                    &&& if has_session(config@) {
                        exists|new: SessionModel| #[trigger]
                            fresh_session(new, true) && r@.session == updated(
                                new,
                                session_values(config@),
                            )
                    } else {
                        fresh_session(r@.session, true)
                    }
                },
                Err(_) => r@.remote_host == DEFAULT_HOST@ && r@.remote_port == DEFAULT_PORT
                    && fresh_session(r@.session, true),
            },
    {
        let session = SRPSession::new(true);
        assert(fresh_session(session@, true));
        ApplePasswordManager::with_session(session, config)
    }

    /// The host of the daemon.
    pub fn remote_host(&self) -> (r: String)
        ensures
            r@ == self@.remote_host,
    {
        owned(self.remote_host.as_str())
    }

    /// The port of the daemon.
    pub fn remote_port(&self) -> (r: u16)
        ensures
            r == self@.remote_port,
    {
        self.remote_port
    }

    /// Takes over the address and the session of a configuration. An error on record comes before
    /// a missing session.
    pub fn ensure_authenticated(
        &mut self,
        env: &PreflightEnvironment,
        config: Result<APWRuntimeConfig>,
    ) -> (r: Result<APWRuntimeConfig>)
        ensures
            match config {
                Err(error) => fails(r, error.code, error.message@) && final(self)@ == old(self)@,
                Ok(config) => {
                    let moved = ManagerModel {
                        remote_host: config@.host,
                        remote_port: config@.port,
                        ..old(self)@
                    };
                    match launch_error(*env, config@) {
                        Some(message) => fails(r, Status::ProcessNotRunning, message) && final(self)@ == moved,
                        None => if has_session(config@) {
                            r is Ok && r->Ok_0@ == config@ && final(self)@ == (ManagerModel {
                                session: updated(old(self)@.session, session_values(config@)),
                                ..moved
                            })
                        } else {
                            fails(r, Status::InvalidSession, missing_session(config@)) && final(self)@ == moved
                        },
                    }
                },
            },
    {
        let config = match config {
            Ok(config) => config,
            Err(error) => {
                return Err(error);
            },
        };
        self.remote_host = owned(config.host.as_str());
        self.remote_port = config.port;
        match launch_error_from_config(env, &config) {
            Some(error) => {
                return Err(error);
            },
            None => {},
        }
        if holds_session(&config) {
            self.session.update_with_values(values_from(&config));
            return Ok(config);
        }
        let auto = match config.runtime_mode {
            RuntimeMode::Auto => true,
            _ => false,
        };
        if config.last_launch_status.is_some() || config.bridge_status.is_some() || !auto {
            session_error(UNAUTHENTICATED_DAEMON_MESSAGE)
        } else {
            session_error(NO_SESSION_MESSAGE)
        }
    }

    /// Begins a key exchange at the given time in milliseconds: the message to send, or nothing
    /// where one was begun a moment ago and there is a session key.
    pub fn request_challenge(&mut self, now_ms: u64) -> (r: Option<Result<Message>>)
        ensures
            ({
                let fresh = old(self)@.challenged_at matches Some(at) && now_ms - at
                    < CHALLENGE_FRESH_MS && old(self)@.session.shared_key is Some;
                if fresh {
                    r is None && final(self)@ == old(self)@
                } else {
                    &&& r is Some && r->0 is Ok
                    &&& r->0->Ok_0@ == Json::Obj(
                        Map::<Seq<char>, Json>::empty().insert(
                            "cmd"@,
                            Json::Int(command_number(Command::Handshake) as int),
                        ).insert(
                            "msg"@,
                            handshake_json(
                                "m0"@,
                                base64_text(json_text(key_exchange_json(old(self)@.session))),
                            ),
                        ).insert("capabilities"@, capabilities_json()),
                    )
                    &&& carries_value(
                        base64_text(json_text(key_exchange_json(old(self)@.session))),
                        key_exchange_json(old(self)@.session),
                    )
                    &&& text_reads_back(
                        old(self)@.session,
                        be_bytes(public_key(old(self)@.session)),
                        true,
                    )
                    &&& final(self)@ == (ManagerModel {
                        challenged_at: Some(now_ms),
                        ..old(self)@
                    })
                }
            }),
    {
        let fresh = match self.challenged_at {
            Some(at) => (now_ms < at || now_ms - at < CHALLENGE_FRESH_MS)
                && self.session.shared_key().is_some(),
            None => false,
        };
        if fresh {
            return None;
        }
        self.challenged_at = Some(now_ms);
        Some(APWMessages::request_challenge(&self.session))
    }

    /// Takes over the server's public key and salt from the answer in the key exchange.
    pub fn accept_challenge(&mut self, payload: &JsonValue) -> (r: Result<()>)
        ensures
            match challenge_answer(old(self)@.session.username, payload@) {
                ChallengeVerdict::Failure(code, message) => fails(r, code, message) && final(self)@ == old(self)@,
                ChallengeVerdict::Keys { server_public_key, salt } => r is Ok && final(self)@ == (
                ManagerModel {
                    session: SessionModel {
                        server_public_key: Some(server_public_key),
                        salt: Some(salt),
                        ..old(self)@.session
                    },
                    ..old(self)@
                }),
            },
    {
        let encoded = match parse_json_payload(payload, "challenge") {
            Ok(text) => text,
            Err(error) => {
                return Err(error);
            },
        };
        if encoded.as_str().is_empty() {
            return server_error("Invalid challenge response.");
        }
        let message = match read_carried(encoded.as_str()) {
            Some(message) => message,
            None => {
                return server_error("Invalid server challenge payload.");
            },
        };
        if !is_valid_pake_message(&message) {
            return server_error("Invalid server challenge: malformed PAKE message");
        }
        match parse_pake_type(&message.get_or_null(PAKE_FIELD_MSG), "message") {
            Ok(kind) => {
                if kind != MSGTypes::ServerKeyExchange.number() {
                    return server_error("Invalid server challenge: unexpected message type");
                }
            },
            Err(error) => {
                return Err(error);
            },
        }
        match parse_pake_type(&message.get_or_null(PAKE_FIELD_PROTO), "protocol") {
            Ok(version) => {
                if version != SecretSessionVersion::SrpWithRfcVerification.number() {
                    return server_error("Invalid server challenge: unsupported protocol");
                }
            },
            Err(error) => {
                return Err(error);
            },
        }
        match parse_pake_message_code(&message.get_or_null(PAKE_FIELD_ERR_CODE)) {
            Ok(code) => {
                if code != 0 {
                    let text = cat(
                        "Invalid server challenge: error ",
                        decimal_i64(code).as_str(),
                    );
                    return server_error(text.as_str());
                }
            },
            Err(error) => {
                return Err(error);
            },
        }
        let tid = member_or_empty(&message, PAKE_FIELD_TID);
        if !str_eq(tid.as_str(), self.session.name().as_str()) {
            return session_error("Invalid server challenge: session mismatch.");
        }
        let server_key = match member_text(&message, PAKE_FIELD_B) {
            Some(text) => text,
            None => {
                return server_error("Invalid server challenge: missing server key");
            },
        };
        let salt = match member_text(&message, PAKE_FIELD_S) {
            Some(text) => text,
            None => {
                return server_error("Invalid server challenge: missing salt");
            },
        };
        let server_key = match decode_base64_or_hex(server_key.as_str(), true) {
            Ok(number) => number,
            Err(error) => {
                return Err(error);
            },
        };
        let salt = match decode_base64_or_hex(salt.as_str(), true) {
            Ok(number) => number,
            Err(error) => {
                return Err(error);
            },
        };
        self.session.set_server_public_key(server_key, salt)
    }

    /// Computes the session key from the PIN: the key, the client's proof, and the message to
    /// send.
    pub fn verify_challenge(&mut self, pin: &str) -> (r: Result<(BigUint, Vec<u8>, Message)>)
        ensures
            ({
                let before = old(self)@.session;
                let after = SessionModel { shared_key: Some(session_key(before, pin@)), ..before };
                if before.server_public_key is None || before.salt is None {
                    fails(
                        r,
                        Status::InvalidSession,
                        "Invalid session state: missing handshake values"@,
                    ) && final(self)@ == old(self)@
                } else if unmasked(before, pin@) == 0 {
                    fails(r, Status::ServerError, "Invalid server hello: invalid public key"@)
                        && final(self)@ == old(self)@
                } else {
                    &&& r is Ok
                    &&& final(self)@ == (ManagerModel { session: after, ..old(self)@ })
                    &&& r->Ok_0.0@ == session_key(before, pin@)
                    &&& r->Ok_0.1@ == client_proof(after)
                    &&& r->Ok_0.2@ == Json::Obj(
                        Map::<Seq<char>, Json>::empty().insert(
                            "cmd"@,
                            Json::Int(command_number(Command::Handshake) as int),
                        ).insert(
                            "msg"@,
                            handshake_json(
                                "m2"@,
                                base64_text(
                                    json_text(verification_json(after, client_proof(after))),
                                ),
                            ),
                        ),
                    )
                    &&& carries_value(
                        base64_text(json_text(verification_json(after, client_proof(after)))),
                        verification_json(after, client_proof(after)),
                    )
                    &&& text_reads_back(after, client_proof(after), false)
                }
            }),
    {
        let shared_key = match self.session.set_shared_key(pin) {
            Ok(key) => key,
            Err(error) => {
                return Err(error);
            },
        };
        let proof_bytes = match self.session.compute_m() {
            Ok(bytes) => bytes,
            Err(error) => {
                return Err(error);
            },
        };
        let message = APWMessages::verify_challenge(&self.session, proof_bytes.as_slice());
        Ok((shared_key, proof_bytes, message))
    }

    /// What is to be written once the server has proved that it knows the session key; nothing is
    /// written otherwise.
    pub fn accept_verification(
        &self,
        shared_key: BigUint,
        proof_bytes: &Vec<u8>,
        response: &JsonValue,
    ) -> (r: Result<WriteConfigInput>)
        ensures
            match verification_answer(self@.session, proof_bytes@, response@) {
                Some((code, message)) => fails(r, code, message),
                None => r is Ok && session_input(r->Ok_0, self@, shared_key@),
            },
    {
        let encoded = match parse_json_payload(response, "verification") {
            Ok(text) => text,
            Err(error) => {
                return Err(error);
            },
        };
        let message = match read_carried(encoded.as_str()) {
            Some(message) => message,
            None => {
                return server_error("Invalid server verification payload.");
            },
        };
        if !is_valid_pake_message(&message) {
            return server_error("Invalid server verification.");
        }
        match parse_pake_type(&message.get_or_null(PAKE_FIELD_MSG), "message") {
            Ok(kind) => {
                if kind != MSGTypes::ServerVerification.number() {
                    return server_error("Invalid server verification type.");
                }
            },
            Err(error) => {
                return Err(error);
            },
        }
        let tid = member_or_empty(&message, PAKE_FIELD_TID);
        if !str_eq(tid.as_str(), self.session.name().as_str()) {
            return session_error("Invalid server response session.");
        }
        match parse_pake_message_code(&message.get_or_null(PAKE_FIELD_ERR_CODE)) {
            Ok(code) => {
                if code == 1 {
                    return session_error("Incorrect PIN.");
                }
                if code != 0 {
                    return server_error("Server verification failed.");
                }
            },
            Err(error) => {
                return Err(error);
            },
        }
        let hamk = match member_text(&message, PAKE_FIELD_HAMK) {
            Some(text) => text,
            None => {
                return server_error("Invalid verification: missing HAMK.");
            },
        };
        let expected = match self.session.deserialize(hamk.as_str()) {
            Ok(bytes) => bytes,
            Err(error) => {
                return Err(error);
            },
        };
        let computed = match self.session.compute_hmac(proof_bytes.as_slice()) {
            Ok(bytes) => bytes,
            Err(error) => {
                return Err(error);
            },
        };
        if !self.session.verify_hamk(expected.as_slice(), computed.as_slice()) {
            return server_error("Invalid verification proof.");
        }
        let mut input = WriteConfigInput::default();
        input.username = Some(self.session.name());
        input.shared_key = Some(shared_key);
        input.port = Some(self.remote_port);
        input.host = Some(owned(self.remote_host.as_str()));
        input.refresh_created_at = true;
        Ok(input)
    }

    /// The query for the accounts of a site.
    pub fn get_login_names_for_url(&self, url: &str) -> (r: Result<Message>)
        ensures
            query_meets(
                r,
                self@.session,
                Command::GetLoginNamesForUrl,
                "CmdGetLoginNames4URL"@,
                login_names_query(lookup_url(url@)),
                lookup_url(url@),
                1,
            ),
    {
        let url = normalize_lookup_url(url);
        APWMessages::get_login_names_for_url(&self.session, url.as_str())
    }

    /// The query for the password of an account.
    pub fn get_password_for_url(&self, url: &str, login_name: &str) -> (r: Result<Message>)
        ensures
            query_meets(
                r,
                self@.session,
                Command::GetPasswordForLoginName,
                "CmdGetPassword4LoginName"@,
                password_query(lookup_url(url@), login_name@),
                lookup_url(url@),
                0,
            ),
    {
        let url = normalize_lookup_url(url);
        APWMessages::get_password_for_url(&self.session, url.as_str(), login_name)
    }

    /// The query for a one-time code.
    pub fn get_otp_for_url(&self, url: &str) -> (r: Result<Message>)
        ensures
            query_meets(
                r,
                self@.session,
                Command::DidFillOneTimeCode,
                "CmdDidFillOneTimeCode"@,
                otp_query(Action::Search, lookup_url(url@)),
                lookup_url(url@),
                0,
            ),
    {
        let url = normalize_lookup_url(url);
        APWMessages::get_otp_for_url(&self.session, url.as_str())
    }

    /// The query for the accounts that have one-time codes.
    pub fn list_otp_for_url(&self, url: &str) -> (r: Result<Message>)
        ensures
            query_meets(
                r,
                self@.session,
                Command::GetOneTimeCodes,
                "CmdDidFillOneTimeCode"@,
                otp_query(Action::GhostSearch, lookup_url(url@)),
                lookup_url(url@),
                0,
            ),
    {
        let url = normalize_lookup_url(url);
        APWMessages::list_otp_for_url(&self.session, url.as_str())
    }

    /// The decrypted data of an answer for this session. What comes out is the JSON value of the
    /// one text that seals to the data under the session key.
    pub fn decrypt_payload(&self, payload: &JsonValue) -> (r: Result<JsonValue>)
        ensures
            answer_opens(self@.session, payload@, r),
    {
        let smsg = match parse_smsg(payload) {
            Ok(smsg) => smsg,
            Err(error) => {
                return Err(error);
            },
        };
        if !str_eq(smsg.TID.as_str(), self.session.name().as_str()) {
            return session_error("Response destined to another session.");
        }
        let encrypted = match self.session.deserialize(smsg.SDATA.as_str()) {
            Ok(bytes) => bytes,
            Err(error) => {
                return Err(error);
            },
        };
        accept_data(self.session.decrypt(encrypted.as_slice()))
    }

    /// The status and the entries of an answer for this session.
    pub fn read_answer(&self, payload: &JsonValue) -> (r: Result<Payload>)
        ensures
            exists|opened: Result<JsonValue>|
                {
                    &&& #[trigger] answer_opens(self@.session, payload@, opened)
                    &&& match opened {
                        Err(error) => fails(r, error.code, error.message@),
                        Ok(value) => match payload_parts(value@) {
                            Some((status, entries)) => r is Ok && r->Ok_0.status == status
                                && has_entries(r->Ok_0, entries),
                            None => fails(
                                r,
                                Status::ProtoInvalidResponse,
                                "Invalid helper response payload."@,
                            ),
                        },
                    }
                },
    {
        let opened = self.decrypt_payload(payload);
        assert(answer_opens(self@.session, payload@, opened));
        match opened {
            Ok(value) => read_payload(&value),
            Err(error) => Err(error),
        }
    }

    /// Forgets the session: there is a new one without values, and the next challenge is not
    /// taken as fresh. The configuration is to be cleared as well.
    pub fn logout(&mut self) -> (r: Result<()>)
        ensures
            r is Ok,
            fresh_session(final(self)@.session, true),
            final(self)@.challenged_at is None,
            final(self)@.remote_host == old(self)@.remote_host,
            final(self)@.remote_port == old(self)@.remote_port,
    {
        self.session = SRPSession::new(true);
        self.challenged_at = None;
        Ok(())
    }

    /// Goes on with a key exchange whose values were kept elsewhere.
    pub fn set_session_for_response(
        &mut self,
        username: String,
        client_private_key: BigUint,
        server_public_key: BigUint,
        salt: BigUint,
    )
        ensures
            final(self)@ == (ManagerModel {
                session: SessionModel {
                    username: username@,
                    client_private_key: client_private_key@,
                    server_public_key: Some(server_public_key@),
                    salt: Some(salt@),
                    ..old(self)@.session
                },
                ..old(self)@
            }),
    {
        self.session.update_with_values(
            SessionValues {
                username: Some(username),
                shared_key: None,
                client_private_key: Some(client_private_key),
                salt: Some(salt),
                server_public_key: Some(server_public_key),
            },
        );
    }

    /// The report on the daemon, the app and the session. Where the configuration cannot be read,
    /// it is that of an empty one.
    pub fn status(
        env: &PreflightEnvironment,
        config: Result<APWRuntimeConfig>,
        app_status: JsonValue,
        now: &Moment,
    ) -> (r: JsonValue)
        ensures
            match config {
                Ok(config) => r@ == status_report(*env, config@, app_status@, *now),
                Err(_) => r@ == status_report(
                    *env,
                    empty_runtime(integer_text(now.secs as int)),
                    app_status@,
                    *now,
                ),
            },
    {
        let config = match config {
            Ok(config) => config,
            Err(_) => APWRuntimeConfig::empty(decimal_i64(now.secs)),
        };
        let expired = stale_config(config.created_at.as_str(), now, SESSION_MAX_AGE_MS);
        let preflight = helper_preflight_status(env, config.runtime_mode);
        let version = match preflight.get("appBundle") {
            Some(bundle) => bundle.get_or_null("version"),
            None => JsonValue::Null,
        };
        let browser = match config.runtime_mode {
            RuntimeMode::Browser => copy_opt(&config.bridge_browser),
            _ => None,
        };
        let release = JsonValue::object().with("target", JsonValue::text("v2.0.0")).with(
            "legacyParityRetained",
            JsonValue::Bool(true),
        ).with("primaryContract", JsonValue::text("credential_broker"));
        let daemon = JsonValue::object().with("host", JsonValue::text(config.host.as_str())).with(
            "port",
            JsonValue::integer(config.port as i64),
        ).with("schema", JsonValue::integer(config.schema as i64)).with(
            "runtimeMode",
            JsonValue::text(config.runtime_mode.as_str()),
        ).with("lastLaunchStatus", JsonValue::opt(&config.last_launch_status)).with(
            "lastLaunchError",
            JsonValue::opt(&config.last_launch_error),
        ).with("lastLaunchStrategy", JsonValue::opt(&config.last_launch_strategy)).with(
            "preflight",
            preflight,
        );
        let host = JsonValue::object().with("status", JsonValue::opt(&config.bridge_status)).with(
            "connectedAt",
            JsonValue::opt(&config.bridge_connected_at),
        ).with("bundleVersion", version).with("lastError", JsonValue::opt(&config.bridge_last_error));
        let bridge = JsonValue::object().with("status", JsonValue::opt(&config.bridge_status)).with(
            "browser",
            JsonValue::opt(&browser),
        ).with("connectedAt", JsonValue::opt(&config.bridge_connected_at)).with(
            "lastError",
            JsonValue::opt(&config.bridge_last_error),
        );
        let session = JsonValue::object().with(
            "username",
            JsonValue::text(config.username.as_str()),
        ).with("createdAt", JsonValue::text(config.created_at.as_str())).with(
            "expired",
            JsonValue::Bool(expired),
        ).with("authenticated", JsonValue::Bool(holds_session(&config) && !expired));
        JsonValue::object().with("releaseLine", release).with("app", app_status).with(
            "daemon",
            daemon,
        ).with("host", host).with("bridge", bridge).with("session", session)
    }

    /// A report in the envelope of a success.
    pub fn status_envelope(report: JsonValue) -> (r: APWResponseEnvelope<JsonValue>)
        ensures
            r.ok && r.code == Status::Success && r.error is None && r.request_id is None,
            opt_json(r.payload) == Some(report@),
    {
        APWResponseEnvelope {
            ok: true,
            code: Status::Success,
            payload: Some(report),
            error: None,
            request_id: None,
        }
    }
}

/// The JSON value of decrypted data.
pub fn accept_data(opened: Result<Vec<u8>>) -> (r: Result<JsonValue>)
    ensures
        match opened {
            Ok(plain) => match json_parsed(plain@) {
                Some(value) => r is Ok && r->Ok_0@ == value,
                None => fails(r, Status::ProtoInvalidResponse, "Invalid data payload."@),
            },
            Err(_) => fails(r, Status::ProtoInvalidResponse, "Invalid data payload."@),
        },
{
    match opened {
        Ok(plain) => match parse_json(plain.as_slice()) {
            Some(value) => Ok(value),
            None => Err(APWError::new(Status::ProtoInvalidResponse, "Invalid data payload.")),
        },
        Err(_) => Err(APWError::new(Status::ProtoInvalidResponse, "Invalid data payload.")),
    }
}

/// Whether an outcome is what an answer for a session comes to.
pub open spec fn answer_opens(session: SessionModel, payload: Json, r: Result<JsonValue>) -> bool {
    exists|container: Result<crate::types::SMSG>|
        {
            &&& #[trigger] smsg_meets(payload, container)
            &&& match container {
                Err(error) => fails(r, error.code, error.message@),
                Ok(smsg) => decrypts(session, smsg.TID@, smsg.SDATA@, r),
            }
        }
}

/// Whether an outcome is what encrypted data for a session comes to.
pub open spec fn decrypts(
    session: SessionModel,
    tid: Seq<char>,
    data: Seq<char>,
    r: Result<JsonValue>,
) -> bool {
    if tid != session.username {
        fails(r, Status::InvalidSession, "Response destined to another session."@)
    } else {
        match fallback_bytes(data, session.should_use_base64) {
            None => fails(
                r,
                Status::ProtoInvalidResponse,
                if session.should_use_base64 {
                    "Invalid base64 value."@
                } else {
                    "Invalid hex value."@
                },
            ),
            Some(bytes) => {
                &&& session.shared_key is None || !key_long_enough(session.shared_key->0)
                    || bytes.len() <= NONCE_BYTES + GCM_TAG_BYTES ==> r is Err
                &&& r is Ok ==> session.shared_key is Some && forall|plain: Seq<u8>| #[trigger]
                    seals(cipher_key(session.shared_key->0), plain, bytes) ==> json_parsed(plain)
                        == Some(r->Ok_0@)
                &&& r is Ok ==> exists|plain: Seq<u8>| #[trigger]
                    seals(cipher_key(session.shared_key->0), plain, bytes) && json_parsed(plain)
                        == Some(r->Ok_0@)
                &&& r is Err ==> fails(r, Status::ProtoInvalidResponse, "Invalid data payload."@)
            },
        }
    }
}

/// An answer that conveys a value to a session, in the text encoding of the session, is read as that
/// value where it is read at all; the only failure is that of its data.
pub proof fn law_answer_conveys_its_value(
    session: SessionModel,
    data: Seq<char>,
    sealed: Seq<u8>,
    value: Json,
    r: Result<JsonValue>,
)
    requires
        session.shared_key is Some,
    ensures
        fallback_bytes(data, session.should_use_base64) == Some(sealed) && conveys(
            cipher_key(session.shared_key->0),
            value,
            sealed,
        ) && decrypts(session, session.username, data, r) ==> match r {
            Ok(read) => read@ == value,
            Err(_) => fails(r, Status::ProtoInvalidResponse, "Invalid data payload."@),
        },
{
}

/// A session that was verified and put on record is the one that the next run goes on with, as
/// long as the record is readable and has not expired: the same user and the same key, at the same
/// address if its host can be used.
pub proof fn law_verified_session_is_resumed(
    manager: ManagerModel,
    shared_key: nat,
    input: WriteConfigInput,
    existing: Option<ConfigModel>,
    keychain: bool,
    written_at: Seq<char>,
    options: ConfigReadOptions,
    now: Moment,
    found: Option<Seq<char>>,
    new: SessionModel,
)
    requires
        session_input(input, manager, shared_key),
        shared_key > 0,
        manager.session.username.len() > 0,
    ensures
        ({
            let config = written(existing, input, keychain, written_at);
            let store = write_store(existing, input, keychain);
            let read = with_key(config, CONFIG_SCHEMA, shared_key);
            let kept = store matches Some((user, secret)) ==> found == Some(secret);
            reads_back(config, shared_key, store) && !expired(config, options, now) && kept ==> {
                &&& read_verdict(config, options, now, found) == ReadVerdict::Config(read, false)
                &&& has_session(read)
                &&& updated(new, session_values(read)).username == manager.session.username
                &&& updated(new, session_values(read)).shared_key == Some(shared_key)
                &&& read.port == manager.remote_port
                &&& valid_host(manager.remote_host) ==> read.host == manager.remote_host
            }
        }),
{
}

/// The report on the daemon, the app and the session.
pub open spec fn status_report(
    env: PreflightEnvironment,
    config: RuntimeModel,
    app_status: Json,
    now: Moment,
) -> Json {
    let expired = stale(moment_of(config.created_at), now, SESSION_MAX_AGE_MS);
    let preflight = preflight_report(env, config.runtime_mode);
    let version = match preflight.get("appBundle"@) {
        Some(bundle) => bundle.get_or_null("version"@),
        None => Json::Null,
    };
    let empty = Map::<Seq<char>, Json>::empty();
    Json::Obj(
        empty.insert(
            "releaseLine"@,
            Json::Obj(
                empty.insert("target"@, Json::Str("v2.0.0"@)).insert(
                    "legacyParityRetained"@,
                    Json::Bool(true),
                ).insert("primaryContract"@, Json::Str("credential_broker"@)),
            ),
        ).insert("app"@, app_status).insert(
            "daemon"@,
            Json::Obj(
                empty.insert("host"@, Json::Str(config.host)).insert(
                    "port"@,
                    Json::Int(config.port as int),
                ).insert("schema"@, Json::Int(config.schema as int)).insert(
                    "runtimeMode"@,
                    Json::Str(mode_word(config.runtime_mode)),
                ).insert("lastLaunchStatus"@, text_or_null(config.launch.status)).insert(
                    "lastLaunchError"@,
                    text_or_null(config.launch.error),
                ).insert("lastLaunchStrategy"@, text_or_null(config.launch.strategy)).insert(
                    "preflight"@,
                    preflight,
                ),
            ),
        ).insert(
            "host"@,
            Json::Obj(
                empty.insert("status"@, text_or_null(config.bridge.status)).insert(
                    "connectedAt"@,
                    text_or_null(config.bridge.connected_at),
                ).insert("bundleVersion"@, version).insert(
                    "lastError"@,
                    text_or_null(config.bridge.last_error),
                ),
            ),
        ).insert(
            "bridge"@,
            Json::Obj(
                empty.insert("status"@, text_or_null(config.bridge.status)).insert(
                    "browser"@,
                    text_or_null(
                        if config.runtime_mode == RuntimeMode::Browser {
                            config.bridge.browser
                        } else {
                            None
                        },
                    ),
                ).insert("connectedAt"@, text_or_null(config.bridge.connected_at)).insert(
                    "lastError"@,
                    text_or_null(config.bridge.last_error),
                ),
            ),
        ).insert(
            "session"@,
            Json::Obj(
                empty.insert("username"@, Json::Str(config.username)).insert(
                    "createdAt"@,
                    Json::Str(config.created_at),
                ).insert("expired"@, Json::Bool(expired)).insert(
                    "authenticated"@,
                    Json::Bool(has_session(config) && !expired),
                ),
            ),
        ),
    )
}

} // verus!
