//! The bridge between the daemon and what stands in for the helper: a browser extension or the
//! native host. It knows which connection is attached and which requests wait for an answer. The
//! sockets are the caller's: it reports what happened and carries out what comes back.
use crate::client::{
    bridge_complaint, browser_bridge_complaint, BRIDGE_STATUS_ATTACHED, BRIDGE_STATUS_DISCONNECTED,
    BRIDGE_STATUS_ERROR, BRIDGE_STATUS_WAITING, NATIVE_DISCONNECTED, NATIVE_NOT_ATTACHED,
    NATIVE_REPORTED,
};
use crate::error::{fails, APWError, Result};
use crate::host::{host_note, native_host_status_note, HostEnvironment};
use crate::json::{
    json_parsed, listed, object_of, object_text, object_to_json, parse_json, plain, Json, JsonValue,
};
use crate::secrets::texts;
use crate::text::{
    cat, cat3, copy_opt, decimal, decimal_u64, lemma_decimal_differs, opt_text, owned, str_eq,
    utf8_text,
};
use crate::types::{RuntimeMode, Status};
use crate::utils::WriteConfigInput;
use vstd::prelude::*;
use vstd::utf8::{decode_utf8, decode_utf8_encode_utf8, encode_utf8, valid_utf8};

verus! {

/// A message to the other end of the bridge.
#[derive(Debug)]
pub enum BridgeToBrowserMessage {
    Request { request_id: String, payload: JsonValue },
}

/// A request as it goes over the bridge.
pub open spec fn request_json(request_id: Seq<char>, payload: Json) -> Json {
    Json::Obj(
        Map::<Seq<char>, Json>::empty().insert("type"@, Json::Str("request"@)).insert(
            "request_id"@,
            Json::Str(request_id),
        ).insert("payload"@, payload),
    )
}

/// The members of a request in the order in which they are printed.
pub open spec fn request_members(request_id: Seq<char>, payload: Json) -> Seq<(Seq<char>, Json)> {
    seq![
        ("type"@, Json::Str("request"@)),
        ("request_id"@, Json::Str(request_id)),
        ("payload"@, payload),
    ]
}

proof fn lemma_request_members(request_id: Seq<char>, payload: Json)
    ensures
        Json::Obj(object_of(request_members(request_id, payload))) == request_json(
            request_id,
            payload,
        ),
{
    let all = request_members(request_id, payload);
    let two = all.drop_last();
    let one = two.drop_last();
    assert(one.drop_last() =~= Seq::<(Seq<char>, Json)>::empty());
    assert(object_of(one.drop_last()) =~= Map::<Seq<char>, Json>::empty());
    let first = Map::<Seq<char>, Json>::empty().insert("type"@, Json::Str("request"@));
    assert(object_of(one) == first);
    let second = first.insert("request_id"@, Json::Str(request_id));
    assert(object_of(two) == second);
    assert(object_of(all) == second.insert("payload"@, payload));
}

impl BridgeToBrowserMessage {
    /// The JSON text of this message, with its members in their order. Reading it gives the message
    /// back, as long as its payload is plain.
    pub fn to_bytes(&self) -> (r: Vec<u8>)
        ensures
            match *self {
                BridgeToBrowserMessage::Request { request_id, payload } => {
                    &&& r@ == object_text(request_members(request_id@, payload@))
                    &&& plain(payload@, 99) ==> json_parsed(r@) == Some(
                        request_json(request_id@, payload@),
                    )
                },
            },
            valid_utf8(r@),
    {
        match self {
            BridgeToBrowserMessage::Request { request_id, payload } => {
                let mut members: Vec<(String, JsonValue)> = Vec::new();
                members.push((owned("type"), JsonValue::text("request")));
                members.push((owned("request_id"), JsonValue::text(request_id.as_str())));
                members.push((owned("payload"), payload.copy()));
                proof {
                    assert(listed(members@) =~= request_members(request_id@, payload@));
                    lemma_request_members(request_id@, payload@);
                }
                object_to_json(&members)
            },
        }
    }

    /// The JSON text of this message as a string.
    pub fn to_text(&self) -> (r: String)
        ensures
            match *self {
                BridgeToBrowserMessage::Request { request_id, payload } => encode_utf8(r@)
                    == object_text(request_members(request_id@, payload@)),
            },
    {
        let bytes = self.to_bytes();
        match utf8_text(bytes.as_slice()) {
            Some(text) => {
                proof {
                    decode_utf8_encode_utf8(bytes@);
                }
                text
            },
            None => String::new(),
        }
    }

    /// The JSON value of this message.
    pub fn to_value(&self) -> (r: JsonValue)
        ensures
            match *self {
                BridgeToBrowserMessage::Request { request_id, payload } => r@ == request_json(
                    request_id@,
                    payload@,
                ),
            },
    {
        match self {
            BridgeToBrowserMessage::Request { request_id, payload } => JsonValue::object().with(
                "type",
                JsonValue::text("request"),
            ).with("request_id", JsonValue::text(request_id.as_str())).with(
                "payload",
                payload.copy(),
            ),
        }
    }
}

/// A message from the other end of the bridge.
#[derive(Debug)]
pub enum BridgeFromBrowserMessage {
    Hello { browser: String, version: Option<String> },
    Response {
        request_id: String,
        ok: bool,
        payload: Option<JsonValue>,
        code: Option<Status>,
        error: Option<String>,
    },
    Status { status: String, error: Option<String> },
}

/// A frame of the connection to the browser.
#[derive(Debug)]
pub enum BridgeFrame {
    Text(String),
    Binary(Vec<u8>),
    Close,
    Control,
    Raw,
}

/// What is known of the other end of the bridge.
#[derive(Debug)]
pub struct BridgeSnapshot {
    pub status: String,
    pub browser: Option<String>,
    pub connected_at: Option<String>,
    pub last_error: Option<String>,
}

/// The model of what is known of the other end.
#[verifier::ext_equal]
pub struct SnapshotModel {
    pub status: Seq<char>,
    pub browser: Option<Seq<char>>,
    pub connected_at: Option<Seq<char>>,
    pub last_error: Option<Seq<char>>,
}

impl View for BridgeSnapshot {
    type V = SnapshotModel;

    open spec fn view(&self) -> SnapshotModel {
        SnapshotModel {
            status: self.status@,
            browser: opt_text(self.browser),
            connected_at: opt_text(self.connected_at),
            last_error: opt_text(self.last_error),
        }
    }
}

/// Nothing is known yet: the other end is waited for.
pub open spec fn waiting() -> SnapshotModel {
    SnapshotModel {
        status: BRIDGE_STATUS_WAITING@,
        browser: None,
        connected_at: None,
        last_error: None,
    }
}

impl Default for BridgeSnapshot {
    fn default() -> (r: BridgeSnapshot)
        ensures
            r@ == waiting(),
    {
        BridgeSnapshot {
            status: owned(BRIDGE_STATUS_WAITING),
            browser: None,
            connected_at: None,
            last_error: None,
        }
    }
}

/// The daemon's end of the bridge.
#[derive(Debug)]
pub struct BrowserBridge {
    host: String,
    port: u16,
    runtime_mode: RuntimeMode,
    snapshot: BridgeSnapshot,
    active_connection_id: Option<u64>,
    pending: Vec<String>,
    next_request: u64,
}

/// The model of the daemon's end of the bridge: the connection that is attached, and the requests
/// that wait for an answer.
#[verifier::ext_equal]
pub struct BridgeState {
    pub host: Seq<char>,
    pub port: u16,
    pub runtime_mode: RuntimeMode,
    pub snapshot: SnapshotModel,
    pub active: Option<u64>,
    pub pending: Set<Seq<char>>,
    pub next_request: u64,
}

impl View for BrowserBridge {
    type V = BridgeState;

    closed spec fn view(&self) -> BridgeState {
        BridgeState {
            host: self.host@,
            port: self.port,
            runtime_mode: self.runtime_mode,
            snapshot: self.snapshot@,
            active: self.active_connection_id,
            pending: texts(self.pending@).to_set(),
            next_request: self.next_request,
        }
    }
}

/// Requests wait only on an attached connection, and the status says attached only where there
/// is one.
pub open spec fn sound(bridge: BridgeState) -> bool {
    &&& bridge.active is None ==> bridge.pending == Set::<Seq<char>>::empty()
    &&& bridge.snapshot.status == BRIDGE_STATUS_ATTACHED@ ==> bridge.active is Some
}

/// Whether a list holds each text of a set once, and no others.
pub open spec fn lists(list: Seq<String>, ids: Set<Seq<char>>) -> bool {
    texts(list).no_duplicates() && texts(list).to_set() == ids
}

/// Requests that end with an error.
#[derive(Debug)]
pub struct Settled {
    pub request_ids: Vec<String>,
    pub error: APWError,
}

/// Whether exactly the given requests end, with the given error.
pub open spec fn settles(
    settled: Settled,
    ids: Set<Seq<char>>,
    code: Status,
    message: Seq<char>,
) -> bool {
    lists(settled.request_ids@, ids) && settled.error.code == code && settled.error.message@
        == message
}

/// The state once a connection is attached.
pub open spec fn attached(
    bridge: BridgeState,
    connection_id: u64,
    browser: Seq<char>,
    now: Seq<char>,
) -> BridgeState {
    BridgeState {
        snapshot: SnapshotModel {
            status: BRIDGE_STATUS_ATTACHED@,
            browser: Some(browser),
            connected_at: Some(now),
            last_error: None,
        },
        active: Some(connection_id),
        pending: Set::empty(),
        ..bridge
    }
}

/// Whether a status ends a connection.
pub open spec fn ends_connection(status: Seq<char>) -> bool {
    status == BRIDGE_STATUS_DISCONNECTED@ || status == BRIDGE_STATUS_ERROR@
}

/// The state once a connection has reported a status. Only the attached connection has a say.
pub open spec fn marked(
    bridge: BridgeState,
    connection_id: u64,
    status: Seq<char>,
    error: Option<Seq<char>>,
) -> BridgeState {
    if bridge.active != Some(connection_id) {
        bridge
    } else {
        BridgeState {
            snapshot: SnapshotModel {
                status,
                browser: bridge.snapshot.browser,
                connected_at: if status == BRIDGE_STATUS_ATTACHED@ {
                    bridge.snapshot.connected_at
                } else {
                    None
                },
                last_error: error,
            },
            active: if ends_connection(status) {
                None
            } else {
                bridge.active
            },
            pending: if ends_connection(status) {
                Set::empty()
            } else {
                bridge.pending
            },
            ..bridge
        }
    }
}

/// The state once a request has been answered.
pub open spec fn answered(bridge: BridgeState, request_id: Seq<char>) -> BridgeState {
    BridgeState { pending: bridge.pending.remove(request_id), ..bridge }
}

/// The name of a numbered request.
pub open spec fn request_name(number: u64) -> Seq<char> {
    "bridge-"@ + decimal(number as nat)
}

/// The number behind another; behind the last comes zero.
pub open spec fn next_number(number: u64) -> u64 {
    if number == u64::MAX {
        0
    } else {
        (number + 1) as u64
    }
}

/// The state once a request has been numbered.
pub open spec fn numbered(bridge: BridgeState) -> BridgeState {
    BridgeState { next_request: next_number(bridge.next_request), ..bridge }
}

/// The state once a request has been numbered and waits for its answer.
pub open spec fn enqueued(bridge: BridgeState) -> BridgeState {
    BridgeState {
        pending: bridge.pending.insert(request_name(bridge.next_request)),
        ..numbered(bridge)
    }
}

/// Whatever happens on the bridge, it stays sound.
pub proof fn law_bridge_stays_sound(
    bridge: BridgeState,
    connection_id: u64,
    text: Seq<char>,
    error: Option<Seq<char>>,
)
    requires
        sound(bridge),
    ensures
        sound(attached(bridge, connection_id, text, text)),
        sound(marked(bridge, connection_id, text, error)),
        sound(answered(bridge, text)),
        bridge.snapshot.status == BRIDGE_STATUS_ATTACHED@ ==> sound(enqueued(bridge)),
{
    reveal_strlit("attached");
    reveal_strlit("disconnected");
    reveal_strlit("error");
    assert(BRIDGE_STATUS_ATTACHED@.len() != BRIDGE_STATUS_DISCONNECTED@.len());
    assert(BRIDGE_STATUS_ATTACHED@.len() != BRIDGE_STATUS_ERROR@.len());
    assert(bridge.active is None ==> answered(bridge, text).pending =~= Set::<Seq<char>>::empty());
}

/// A connection that was replaced by another no longer changes anything.
pub proof fn law_replaced_connection_is_ignored(
    bridge: BridgeState,
    replaced: u64,
    connection_id: u64,
    browser: Seq<char>,
    now: Seq<char>,
    status: Seq<char>,
    error: Option<Seq<char>>,
)
    requires
        replaced != connection_id,
    ensures
        ({
            let now_attached = attached(
                attached(bridge, replaced, browser, now),
                connection_id,
                browser,
                now,
            );
            marked(now_attached, replaced, status, error) == now_attached
        }),
{
}

/// Once the attached connection has ended, none is attached and no request waits.
pub proof fn law_ended_connection_leaves_nothing(
    bridge: BridgeState,
    connection_id: u64,
    status: Seq<char>,
    error: Option<Seq<char>>,
)
    requires
        bridge.active == Some(connection_id),
        ends_connection(status),
    ensures
        ({
            let after = marked(bridge, connection_id, status, error);
            &&& after.active is None
            &&& after.pending == Set::<Seq<char>>::empty()
            &&& after.snapshot.status == status
            &&& after.snapshot.connected_at is None
            &&& after.snapshot.last_error == error
            &&& marked(after, connection_id, status, error) == after
        }),
{
    reveal_strlit("attached");
    reveal_strlit("disconnected");
    reveal_strlit("error");
    assert(BRIDGE_STATUS_ATTACHED@.len() != BRIDGE_STATUS_DISCONNECTED@.len());
    assert(BRIDGE_STATUS_ATTACHED@.len() != BRIDGE_STATUS_ERROR@.len());
}

/// A request that waits is answered once: after that it no longer waits, and no other request is
/// touched.
pub proof fn law_request_is_answered_once(
    bridge: BridgeState,
    request_id: Seq<char>,
    other: Seq<char>,
)
    requires
        other != request_id,
    ensures
        !answered(bridge, request_id).pending.contains(request_id),
        answered(bridge, request_id).pending.contains(other) == bridge.pending.contains(other),
        answered(answered(bridge, request_id), request_id) == answered(bridge, request_id),
{
    assert(answered(answered(bridge, request_id), request_id).pending =~= answered(
        bridge,
        request_id,
    ).pending);
}

/// Requests of different numbers have different names.
pub proof fn law_request_names_differ(a: u64, b: u64)
    requires
        a != b,
    ensures
        request_name(a) != request_name(b),
{
    lemma_decimal_differs(a as nat, b as nat);
    let prefix = "bridge-"@;
    assert(request_name(a).skip(prefix.len() as int) =~= decimal(a as nat));
    assert(request_name(b).skip(prefix.len() as int) =~= decimal(b as nat));
}

/// What to tell where nothing is attached to the bridge.
pub open spec fn not_attached(
    env: HostEnvironment,
    mode: RuntimeMode,
    browser: Option<Seq<char>>,
    status: Seq<char>,
    last_error: Option<Seq<char>>,
) -> Seq<char> {
    if mode == RuntimeMode::Native {
        if status == BRIDGE_STATUS_DISCONNECTED@ {
            NATIVE_DISCONNECTED@ + " "@ + host_note(env)
        } else if status == BRIDGE_STATUS_ERROR@ && last_error is Some {
            NATIVE_REPORTED@ + last_error->0 + ". "@ + host_note(env)
        } else {
            NATIVE_NOT_ATTACHED@ + " "@ + host_note(env)
        }
    } else {
        bridge_complaint(browser, status, last_error)
    }
}

fn is_native(mode: RuntimeMode) -> (r: bool)
    ensures
        r == (mode == RuntimeMode::Native),
{
    match mode {
        RuntimeMode::Native => true,
        _ => false,
    }
}

/// What to tell where nothing is attached to the bridge.
pub fn browser_bridge_not_attached_message(
    env: &HostEnvironment,
    runtime_mode: RuntimeMode,
    browser: &Option<String>,
    status: &str,
    last_error: &Option<String>,
) -> (r: String)
    ensures
        r@ == not_attached(*env, runtime_mode, opt_text(*browser), status@, opt_text(*last_error)),
{
    if !is_native(runtime_mode) {
        return browser_bridge_complaint(browser, status, last_error);
    }
    let note = native_host_status_note(env);
    if str_eq(status, BRIDGE_STATUS_DISCONNECTED) {
        return cat3(NATIVE_DISCONNECTED, " ", note.as_str());
    }
    if str_eq(status, BRIDGE_STATUS_ERROR) {
        match last_error {
            Some(error) => {
                let text = cat3(NATIVE_REPORTED, error.as_str(), ". ");
                return cat(text.as_str(), note.as_str());
            },
            None => {},
        }
    }
    cat3(NATIVE_NOT_ATTACHED, " ", note.as_str())
}

/// What an input writes of a bridge: its address, its mode and what is known of the other end, in
/// place of all that was on record of a launch or a bridge.
pub open spec fn writes_bridge(
    input: WriteConfigInput,
    host: Seq<char>,
    port: u16,
    mode: RuntimeMode,
    snapshot: SnapshotModel,
    clear_auth: bool,
) -> bool {
    &&& input.username is None && input.shared_key is None
    &&& input.port == Some(port) && opt_text(input.host) == Some(host)
    &&& input.allow_empty && input.clear_auth == clear_auth
    &&& input.runtime_mode == Some(mode)
    &&& input.last_launch_status is None && input.last_launch_error is None
    &&& input.last_launch_strategy is None
    &&& opt_text(input.bridge_status) == Some(snapshot.status)
    &&& opt_text(input.bridge_browser) == snapshot.browser
    &&& opt_text(input.bridge_connected_at) == snapshot.connected_at
    &&& opt_text(input.bridge_last_error) == snapshot.last_error
    &&& input.reset_launch_metadata && input.reset_bridge_metadata
    &&& !input.refresh_created_at
}

/// What is written of a bridge.
pub fn persistence_for_browser(
    host: &str,
    port: u16,
    runtime_mode: RuntimeMode,
    bridge_status: &str,
    bridge_browser: Option<String>,
    bridge_connected_at: Option<String>,
    bridge_last_error: Option<String>,
) -> (r: WriteConfigInput)
    ensures
        writes_bridge(
            r,
            host@,
            port,
            runtime_mode,
            (SnapshotModel {
                status: bridge_status@,
                browser: opt_text(bridge_browser),
                connected_at: opt_text(bridge_connected_at),
                last_error: opt_text(bridge_last_error),
            }),
            false,
        ),
{
    let mut input = WriteConfigInput::default();
    input.port = Some(port);
    input.host = Some(owned(host));
    input.allow_empty = true;
    input.runtime_mode = Some(runtime_mode);
    input.bridge_status = Some(owned(bridge_status));
    input.bridge_browser = bridge_browser;
    input.bridge_connected_at = bridge_connected_at;
    input.bridge_last_error = bridge_last_error;
    input.reset_launch_metadata = true;
    input.reset_bridge_metadata = true;
    input
}

/// What a frame from the browser comes to before its text is read.
pub open spec fn frame_text(frame: BridgeFrame) -> std::result::Result<Seq<char>, (Status, Seq<char>)> {
    match frame {
        BridgeFrame::Text(text) => Ok(text@),
        BridgeFrame::Binary(bytes) => if valid_utf8(bytes@) {
            Ok(decode_utf8(bytes@))
        } else {
            Err((Status::ProtoInvalidResponse, "Browser bridge sent invalid UTF-8 payload."@))
        },
        BridgeFrame::Close => Err(
            (Status::ProcessNotRunning, "Browser bridge closed the connection."@),
        ),
        BridgeFrame::Control => Err(
            (
                Status::ProtoInvalidResponse,
                "Browser bridge control frame cannot be decoded as JSON."@,
            ),
        ),
        BridgeFrame::Raw => Err(
            (Status::ProtoInvalidResponse, "Browser bridge frame cannot be decoded as JSON."@),
        ),
    }
}

/// The text of a frame from the browser.
pub fn bridge_frame_text(frame: BridgeFrame) -> (r: Result<String>)
    ensures
        match frame_text(frame) {
            Ok(text) => r is Ok && r->Ok_0@ == text,
            Err((code, message)) => fails(r, code, message),
        },
{
    match frame {
        BridgeFrame::Text(text) => Ok(text),
        BridgeFrame::Binary(bytes) => match utf8_text(bytes.as_slice()) {
            Some(text) => Ok(text),
            None => Err(
                APWError::new(
                    Status::ProtoInvalidResponse,
                    "Browser bridge sent invalid UTF-8 payload.",
                ),
            ),
        },
        BridgeFrame::Close => Err(
            APWError::new(Status::ProcessNotRunning, "Browser bridge closed the connection."),
        ),
        BridgeFrame::Control => Err(
            APWError::new(
                Status::ProtoInvalidResponse,
                "Browser bridge control frame cannot be decoded as JSON.",
            ),
        ),
        BridgeFrame::Raw => Err(
            APWError::new(
                Status::ProtoInvalidResponse,
                "Browser bridge frame cannot be decoded as JSON.",
            ),
        ),
    }
}

/// The message in a frame from the browser. `read` reads the text of a message.
pub fn parse_bridge_message<R: Fn(String) -> Option<BridgeFromBrowserMessage>>(
    raw: BridgeFrame,
    read: &R,
) -> (r: Result<BridgeFromBrowserMessage>)
    requires
        forall|text: String| #[trigger] call_requires(*read, (text,)),
    ensures
        message_meets(raw, *read, r),
{
    let text = match bridge_frame_text(raw) {
        Ok(text) => text,
        Err(error) => {
            return Err(error);
        },
    };
    let ghost given = text;
    let outcome = read(text);
    assert(call_ensures(*read, (given,), outcome));
    match outcome {
        Some(message) => Ok(message),
        None => Err(
            APWError::new(Status::ProtoInvalidResponse, "Browser bridge sent malformed JSON."),
        ),
    }
}

/// Why no first message came over a connection.
#[derive(Debug)]
pub enum HelloFailure {
    TimedOut,
    Closed,
    Receive(String),
}

/// The error where no first message came over a connection.
pub fn hello_failure(failure: HelloFailure) -> (r: APWError)
    ensures
        r.code == Status::ProcessNotRunning,
        r.message@ == match failure {
            HelloFailure::TimedOut => "Browser bridge did not send an identity message in time."@,
            HelloFailure::Closed =>
                "Browser bridge disconnected before sending an identity message."@,
            HelloFailure::Receive(complaint) => "Browser bridge receive failed: "@ + complaint@,
        },
{
    match failure {
        HelloFailure::TimedOut => APWError::new(
            Status::ProcessNotRunning,
            "Browser bridge did not send an identity message in time.",
        ),
        HelloFailure::Closed => APWError::new(
            Status::ProcessNotRunning,
            "Browser bridge disconnected before sending an identity message.",
        ),
        HelloFailure::Receive(complaint) => APWError {
            code: Status::ProcessNotRunning,
            message: cat("Browser bridge receive failed: ", complaint.as_str()),
        },
    }
}

/// What the answer of a browser comes to.
pub open spec fn browser_answer(
    ok: bool,
    payload: Option<JsonValue>,
    code: Option<Status>,
    error: Option<String>,
    r: Result<JsonValue>,
) -> bool {
    if ok {
        match payload {
            Some(value) => r is Ok && r->Ok_0@ == value@,
            None => fails(
                r,
                Status::ProtoInvalidResponse,
                "Browser bridge response was missing helper payload."@,
            ),
        }
    } else {
        failed_answer(code, error, "Browser bridge returned an unknown error."@, r)
    }
}

/// What the answer of the native host comes to.
pub open spec fn native_answer(
    ok: bool,
    payload: Option<JsonValue>,
    code: Option<Status>,
    error: Option<String>,
    r: Result<JsonValue>,
) -> bool {
    if ok {
        match payload {
            Some(value) => r is Ok && r->Ok_0@ == value@,
            None => r is Ok && r->Ok_0@ is Null,
        }
    } else {
        failed_answer(code, error, "Native host request failed."@, r)
    }
}

/// What a failed answer comes to.
pub open spec fn failed_answer(
    code: Option<Status>,
    error: Option<String>,
    otherwise: Seq<char>,
    r: Result<JsonValue>,
) -> bool {
    fails(
        r,
        match code {
            Some(code) => code,
            None => Status::GenericError,
        },
        match error {
            Some(text) => text@,
            None => otherwise,
        },
    )
}

fn fail_answer(code: Option<Status>, error: Option<String>, otherwise: &str) -> (r: Result<
    JsonValue,
>)
    ensures
        failed_answer(code, error, otherwise@, r),
{
    let code = match code {
        Some(code) => code,
        None => Status::GenericError,
    };
    match error {
        Some(message) => Err(APWError { code, message }),
        None => Err(APWError::new(code, otherwise)),
    }
}

fn read_browser_answer(
    ok: bool,
    payload: Option<JsonValue>,
    code: Option<Status>,
    error: Option<String>,
) -> (r: Result<JsonValue>)
    ensures
        browser_answer(ok, payload, code, error, r),
{
    if ok {
        match payload {
            Some(value) => Ok(value),
            None => Err(
                APWError::new(
                    Status::ProtoInvalidResponse,
                    "Browser bridge response was missing helper payload.",
                ),
            ),
        }
    } else {
        fail_answer(code, error, "Browser bridge returned an unknown error.")
    }
}

fn read_native_answer(
    ok: bool,
    payload: Option<JsonValue>,
    code: Option<Status>,
    error: Option<String>,
) -> (r: Result<JsonValue>)
    ensures
        native_answer(ok, payload, code, error, r),
{
    if ok {
        match payload {
            Some(value) => Ok(value),
            None => Ok(JsonValue::Null),
        }
    } else {
        fail_answer(code, error, "Native host request failed.")
    }
}

/// What is to be done about a message.
#[derive(Debug)]
pub enum BridgeReaction {
    /// Nothing.
    Ignore,
    /// The snapshot is to be written, and the requests end.
    Settle(Settled),
    /// The input is to be written.
    Refresh(WriteConfigInput),
    /// The request ends with the answer.
    Answer { request_id: String, response: Result<JsonValue> },
}

/// What the first message over a connection comes to.
#[derive(Debug)]
pub enum Opening {
    /// The connection is attached; requests on the one before it end.
    Attached(Settled),
    /// The connection is refused.
    Refused { settled: Option<Settled>, error: APWError },
}

/// The error on requests whose connection was replaced.
pub open spec fn replaced_message(mode: RuntimeMode) -> Seq<char> {
    if mode == RuntimeMode::Native {
        "Native host was replaced before pending requests completed."@
    } else {
        "Browser bridge was replaced before pending requests completed."@
    }
}

pub const HELLO_FIRST: &'static str =
    "Browser bridge must send a hello message before request forwarding.";

/// What the end of a connection with an error comes to.
pub open spec fn error_settles(
    bridge: BridgeState,
    connection_id: u64,
    error: Seq<char>,
    r: Option<Settled>,
) -> bool {
    if bridge.active != Some(connection_id) {
        r is None
    } else {
        r is Some && settles(r->0, bridge.pending, Status::ProcessNotRunning, error)
    }
}

/// What the end of a connection comes to.
pub open spec fn disconnect_settles(
    env: HostEnvironment,
    bridge: BridgeState,
    connection_id: u64,
    error: Option<Seq<char>>,
    r: Option<Settled>,
) -> bool {
    if bridge.active != Some(connection_id) {
        r is None
    } else {
        r is Some && settles(
            r->0,
            bridge.pending,
            Status::ProcessNotRunning,
            not_attached(
                env,
                bridge.runtime_mode,
                bridge.snapshot.browser,
                BRIDGE_STATUS_DISCONNECTED@,
                error,
            ),
        )
    }
}

/// What a settlement comes to as a reaction.
pub open spec fn settlement(settled: Option<Settled>) -> BridgeReaction {
    match settled {
        Some(settled) => BridgeReaction::Settle(settled),
        None => BridgeReaction::Ignore,
    }
}

/// The error that a status reports, or the one given.
pub open spec fn reported(error: Option<String>, otherwise: Seq<char>) -> Seq<char> {
    match error {
        Some(text) => text@,
        None => otherwise,
    }
}

fn report(error: Option<String>, otherwise: &str) -> (r: String)
    ensures
        r@ == reported(error, otherwise@),
{
    match error {
        Some(text) => text,
        None => owned(otherwise),
    }
}

/// Whether a reaction, and a new state, are those of ending a connection with an error.
pub open spec fn ends_in_error(
    before: BridgeState,
    after: BridgeState,
    connection_id: u64,
    error: Seq<char>,
    reaction: BridgeReaction,
) -> bool {
    &&& after == marked(before, connection_id, BRIDGE_STATUS_ERROR@, Some(error))
    &&& exists|settled: Option<Settled>| #[trigger]
        error_settles(before, connection_id, error, settled) && reaction == settlement(settled)
}

/// Whether a reaction, and a new state, are those of a connection that went away.
pub open spec fn ends_disconnected(
    env: HostEnvironment,
    before: BridgeState,
    after: BridgeState,
    connection_id: u64,
    error: Option<Seq<char>>,
    reaction: BridgeReaction,
) -> bool {
    &&& after == marked(before, connection_id, BRIDGE_STATUS_DISCONNECTED@, error)
    &&& exists|settled: Option<Settled>| #[trigger]
        disconnect_settles(env, before, connection_id, error, settled) && reaction == settlement(
            settled,
        )
}

/// What a message of an attached browser comes to.
pub open spec fn browser_reacts(
    env: HostEnvironment,
    before: BridgeState,
    after: BridgeState,
    connection_id: u64,
    message: BridgeFromBrowserMessage,
    r: BridgeReaction,
) -> bool {
    match message {
        BridgeFromBrowserMessage::Hello { .. } => r is Ignore && after == before,
        BridgeFromBrowserMessage::Status { status, error } => {
            if status@ == BRIDGE_STATUS_ERROR@ {
                let complaint = reported(error, "Browser bridge reported an unknown error."@);
                ends_in_error(before, after, connection_id, complaint, r)
            } else if status@ == BRIDGE_STATUS_DISCONNECTED@ {
                ends_disconnected(env, before, after, connection_id, opt_text(error), r)
            } else if status@ == BRIDGE_STATUS_ATTACHED@ {
                &&& after == before
                &&& r matches BridgeReaction::Refresh(input)
                &&& writes_bridge(
                    input,
                    before.host,
                    before.port,
                    before.runtime_mode,
                    (SnapshotModel {
                        status: BRIDGE_STATUS_ATTACHED@,
                        last_error: None,
                        ..before.snapshot
                    }),
                    false,
                )
            } else {
                r is Ignore && after == before
            }
        },
        BridgeFromBrowserMessage::Response { request_id, ok, payload, code, error } => {
            &&& after == answered(before, request_id@)
            &&& if before.pending.contains(request_id@) {
                &&& r matches BridgeReaction::Answer { request_id: id, response }
                &&& id@ == request_id@
                &&& browser_answer(ok, payload, code, error, response)
            } else {
                r is Ignore
            }
        },
    }
}

/// What a message of the attached native host comes to: what is to be done, and whether the
/// connection is over.
pub open spec fn native_reacts(
    env: HostEnvironment,
    before: BridgeState,
    after: BridgeState,
    connection_id: u64,
    message: BridgeFromBrowserMessage,
    r: (BridgeReaction, bool),
) -> bool {
    match message {
        BridgeFromBrowserMessage::Hello { .. } => r.0 is Ignore && !r.1 && after == before,
        BridgeFromBrowserMessage::Status { status, error } => {
            if status@ == BRIDGE_STATUS_ERROR@ {
                let complaint = reported(error, "Native host reported an unknown error."@);
                &&& r.1
                &&& ends_in_error(before, after, connection_id, complaint, r.0)
            } else if status@ == BRIDGE_STATUS_DISCONNECTED@ {
                &&& r.1
                &&& ends_disconnected(env, before, after, connection_id, opt_text(error), r.0)
            } else {
                r.0 is Ignore && !r.1 && after == before
            }
        },
        BridgeFromBrowserMessage::Response { request_id, ok, payload, code, error } => {
            &&& !r.1
            &&& after == answered(before, request_id@)
            &&& if before.pending.contains(request_id@) {
                &&& r.0 matches BridgeReaction::Answer { request_id: id, response }
                &&& id@ == request_id@
                &&& native_answer(ok, payload, code, error, response)
            } else {
                r.0 is Ignore
            }
        },
    }
}

/// What happens on the connection of an attached browser.
#[derive(Debug)]
pub enum BrowserEvent {
    /// There is nothing more to send.
    OutboundEnded,
    /// A message could not be sent, with the complaint.
    SendFailed(String),
    /// The browser closed the connection, or it ended.
    Closed,
    /// Nothing could be received, with the complaint.
    ReceiveFailed(String),
    /// A message was received, or what stood in its place.
    Received(Result<BridgeFromBrowserMessage>),
}

/// What happens on the connection of the attached native host.
#[derive(Debug)]
pub enum NativeEvent {
    /// A frame could not be written, with the complaint.
    WriteFailed(String),
    /// No frame could be read, with the complaint.
    ReadFailed(String),
    /// A frame is no message, with the complaint.
    Malformed(String),
    /// A message was received.
    Received(BridgeFromBrowserMessage),
}

/// Whether a result is what the message in a frame comes to, where `read` reads its text.
pub open spec fn message_meets<R: Fn(String) -> Option<BridgeFromBrowserMessage>>(
    raw: BridgeFrame,
    read: R,
    r: Result<BridgeFromBrowserMessage>,
) -> bool {
    match frame_text(raw) {
        Err((code, message)) => fails(r, code, message),
        Ok(text) => exists|given: String, outcome: Option<BridgeFromBrowserMessage>|
            {
                &&& given@ == text
                &&& #[trigger] call_ensures(read, (given,), outcome)
                &&& match outcome {
                    Some(message) => r == Ok::<_, APWError>(message),
                    None => fails(
                        r,
                        Status::ProtoInvalidResponse,
                        "Browser bridge sent malformed JSON."@,
                    ),
                }
            },
    }
}

/// What a frame of an attached browser is: the end of the connection, or a message.
pub fn inbound_event<R: Fn(String) -> Option<BridgeFromBrowserMessage>>(
    raw: BridgeFrame,
    read: &R,
) -> (r: BrowserEvent)
    requires
        forall|text: String| #[trigger] call_requires(*read, (text,)),
    ensures
        raw is Close ==> r is Closed,
        !(raw is Close) ==> r is Received && message_meets(raw, *read, r->Received_0),
{
    match raw {
        BridgeFrame::Close => BrowserEvent::Closed,
        other => BrowserEvent::Received(parse_bridge_message(other, read)),
    }
}

fn react(settled: Option<Settled>) -> (r: BridgeReaction)
    ensures
        r == settlement(settled),
{
    match settled {
        Some(settled) => BridgeReaction::Settle(settled),
        None => BridgeReaction::Ignore,
    }
}

fn index_of(list: &Vec<String>, text: &str) -> (r: Option<usize>)
    ensures
        match r {
            Some(i) => i < list@.len() && list@[i as int]@ == text@,
            None => !texts(list@).contains(text@),
        },
{
    let mut i: usize = 0;
    while i < list.len()
        invariant
            i <= list@.len(),
            forall|k: int| 0 <= k < i ==> (#[trigger] list@[k])@ != text@,
        decreases list.len() - i,
    {
        if str_eq(list[i].as_str(), text) {
            return Some(i);
        }
        i = i + 1;
    }
    proof {
        assert forall|k: int| 0 <= k < texts(list@).len() implies #[trigger] texts(list@)[k]
            != text@ by {
            assert(list@[k]@ != text@);
        }
    }
    None
}

proof fn lemma_removed(list: Seq<Seq<char>>, i: int)
    requires
        list.no_duplicates(),
        0 <= i < list.len(),
    ensures
        list.remove(i).no_duplicates(),
        list.remove(i).to_set() == list.to_set().remove(list[i]),
{
    let less = list.remove(i);
    assert forall|text: Seq<char>| less.to_set().contains(text) == list.to_set().remove(
        list[i],
    ).contains(text) by {
        if less.contains(text) {
            let k = choose|k: int| 0 <= k < less.len() && less[k] == text;
            let original = if k < i { k } else { k + 1 };
            assert(list[original] == text);
        }
        if list.contains(text) && text != list[i] {
            let k = choose|k: int| 0 <= k < list.len() && list[k] == text;
            let place = if k < i { k } else { k - 1 };
            assert(less[place] == text);
        }
    }
    assert(less.to_set() =~= list.to_set().remove(list[i]));
}

proof fn lemma_added(list: Seq<Seq<char>>, text: Seq<char>)
    requires
        list.no_duplicates(),
        !list.contains(text),
    ensures
        list.push(text).no_duplicates(),
        list.push(text).to_set() == list.to_set().insert(text),
{
    let more = list.push(text);
    assert forall|t: Seq<char>| more.to_set().contains(t) == list.to_set().insert(
        text,
    ).contains(t) by {
        if list.contains(t) {
            let k = choose|k: int| 0 <= k < list.len() && list[k] == t;
            assert(more[k] == t);
        }
        if t == text {
            assert(more[list.len() as int] == t);
        }
        if more.contains(t) && t != text {
            let k = choose|k: int| 0 <= k < more.len() && more[k] == t;
            assert(list[k] == t);
        }
    }
    assert(more.to_set() =~= list.to_set().insert(text));
}

impl BrowserBridge {
    /// Whether each request is held once and the state is sound.
    pub closed spec fn wf(&self) -> bool {
        texts(self.pending@).no_duplicates() && sound(self@)
    }

    /// A bridge that nothing is attached to.
    pub fn new(host: String, port: u16, runtime_mode: RuntimeMode) -> (r: BrowserBridge)
        ensures
            r.wf(),
            r@ == (BridgeState {
                host: host@,
                port,
                runtime_mode,
                snapshot: waiting(),
                active: None,
                pending: Set::empty(),
                next_request: 1,
            }),
    {
        let r = BrowserBridge {
            host,
            port,
            runtime_mode,
            snapshot: BridgeSnapshot::default(),
            active_connection_id: None,
            pending: Vec::new(),
            next_request: 1,
        };
        proof {
            reveal_strlit("waiting");
            reveal_strlit("attached");
            assert(BRIDGE_STATUS_WAITING@.len() != BRIDGE_STATUS_ATTACHED@.len());
            assert(r@.pending =~= Set::<Seq<char>>::empty());
        }
        r
    }

    /// What is known of the other end.
    pub fn snapshot(&self) -> (r: BridgeSnapshot)
        ensures
            r@ == self@.snapshot,
    {
        BridgeSnapshot {
            status: owned(self.snapshot.status.as_str()),
            browser: copy_opt(&self.snapshot.browser),
            connected_at: copy_opt(&self.snapshot.connected_at),
            last_error: copy_opt(&self.snapshot.last_error),
        }
    }

    /// Whether the other end is attached.
    pub fn is_attached(&self) -> (r: bool)
        ensures
            r == (self@.snapshot.status == BRIDGE_STATUS_ATTACHED@),
    {
        str_eq(self.snapshot.status.as_str(), BRIDGE_STATUS_ATTACHED)
    }

    /// What is written of the other end.
    pub fn persist_snapshot(&self) -> (r: WriteConfigInput)
        ensures
            writes_bridge(
                r,
                self@.host,
                self@.port,
                self@.runtime_mode,
                self@.snapshot,
                false,
            ),
    {
        let snapshot = self.snapshot();
        persistence_for_browser(
            self.host.as_str(),
            self.port,
            self.runtime_mode,
            snapshot.status.as_str(),
            snapshot.browser,
            snapshot.connected_at,
            snapshot.last_error,
        )
    }

    /// Attaches a connection, in place of any other. Requests on that one end. The snapshot is to
    /// be written.
    pub fn attach(&mut self, connection_id: u64, browser: String, now: String) -> (r: Settled)
        requires
            old(self).wf(),
        ensures
            final(self).wf(),
            final(self)@ == attached(old(self)@, connection_id, browser@, now@),
            settles(
                r,
                old(self)@.pending,
                Status::ProcessNotRunning,
                replaced_message(old(self)@.runtime_mode),
            ),
    {
        let mut stale: Vec<String> = Vec::new();
        std::mem::swap(&mut stale, &mut self.pending);
        self.active_connection_id = Some(connection_id);
        self.snapshot = BridgeSnapshot {
            status: owned(BRIDGE_STATUS_ATTACHED),
            browser: Some(browser),
            connected_at: Some(now),
            last_error: None,
        };
        proof {
            assert(self@.pending =~= Set::<Seq<char>>::empty());
        }
        let message = if is_native(self.runtime_mode) {
            "Native host was replaced before pending requests completed."
        } else {
            "Browser bridge was replaced before pending requests completed."
        };
        Settled { request_ids: stale, error: APWError::new(Status::ProcessNotRunning, message) }
    }

    /// Takes an answer to a request: whether the request was waiting for it.
    pub fn complete_response(&mut self, request_id: &str) -> (r: bool)
        requires
            old(self).wf(),
        ensures
            final(self).wf(),
            final(self)@ == answered(old(self)@, request_id@),
            r == old(self)@.pending.contains(request_id@),
    {
        match index_of(&self.pending, request_id) {
            Some(i) => {
                let ghost before = texts(self.pending@);
                self.pending.remove(i);
                proof {
                    assert(before[i as int] == request_id@);
                    lemma_removed(before, i as int);
                    assert(texts(self.pending@) =~= before.remove(i as int));
                    assert(texts(self.pending@).no_duplicates());
                    assert(before.to_set().contains(before[i as int]));
                    assert(old(self)@.active is Some);
                    assert(self@ =~= answered(old(self)@, request_id@));
                    assert(sound(self@));
                }
                true
            },
            None => {
                proof {
                    assert(self@.pending.remove(request_id@) =~= self@.pending);
                    assert(self@ =~= answered(old(self)@, request_id@));
                }
                false
            },
        }
    }

    /// Takes a status that a connection reports: the requests that end by it, where the connection
    /// is the attached one. The snapshot is to be written then.
    pub fn mark_status(&mut self, connection_id: u64, status: &str, error: Option<String>) -> (r:
        Option<Vec<String>>)
        requires
            old(self).wf(),
        ensures
            final(self).wf(),
            final(self)@ == marked(old(self)@, connection_id, status@, opt_text(error)),
            r is Some == (old(self)@.active == Some(connection_id)),
            r is Some ==> lists(
                r->0@,
                if ends_connection(status@) {
                    old(self)@.pending
                } else {
                    Set::empty()
                },
            ),
    {
        let active = match self.active_connection_id {
            Some(id) => id == connection_id,
            None => false,
        };
        if !active {
            return None;
        }
        let mut ended: Vec<String> = Vec::new();
        if str_eq(status, BRIDGE_STATUS_DISCONNECTED) || str_eq(status, BRIDGE_STATUS_ERROR) {
            std::mem::swap(&mut ended, &mut self.pending);
            self.active_connection_id = None;
            proof {
                assert(texts(self.pending@).to_set() =~= Set::<Seq<char>>::empty());
            }
        } else {
            proof {
                assert(texts(ended@).to_set() =~= Set::<Seq<char>>::empty());
            }
        }
        if !str_eq(status, BRIDGE_STATUS_ATTACHED) {
            self.snapshot.connected_at = None;
        }
        self.snapshot.status = owned(status);
        self.snapshot.last_error = error;
        proof {
            law_bridge_stays_sound(old(self)@, connection_id, status@, opt_text(error));
        }
        Some(ended)
    }

    /// Ends a connection with an error, where it is the attached one. The snapshot is to be written
    /// then.
    pub fn mark_error(&mut self, connection_id: u64, error: String) -> (r: Option<Settled>)
        requires
            old(self).wf(),
        ensures
            final(self).wf(),
            final(self)@ == marked(
                old(self)@,
                connection_id,
                BRIDGE_STATUS_ERROR@,
                Some(error@),
            ),
            error_settles(old(self)@, connection_id, error@, r),
    {
        let kept = owned(error.as_str());
        match self.mark_status(connection_id, BRIDGE_STATUS_ERROR, Some(kept)) {
            Some(request_ids) => Some(
                Settled {
                    request_ids,
                    error: APWError { code: Status::ProcessNotRunning, message: error },
                },
            ),
            None => None,
        }
    }

    /// Ends a connection, where it is the attached one. The snapshot is to be written then.
    pub fn mark_disconnected(
        &mut self,
        env: &HostEnvironment,
        connection_id: u64,
        error: Option<String>,
    ) -> (r: Option<Settled>)
        requires
            old(self).wf(),
        ensures
            final(self).wf(),
            final(self)@ == marked(
                old(self)@,
                connection_id,
                BRIDGE_STATUS_DISCONNECTED@,
                opt_text(error),
            ),
            disconnect_settles(*env, old(self)@, connection_id, opt_text(error), r),
    {
        let kept = copy_opt(&error);
        match self.mark_status(connection_id, BRIDGE_STATUS_DISCONNECTED, kept) {
            Some(request_ids) => {
                let message = browser_bridge_not_attached_message(
                    env,
                    self.runtime_mode,
                    &self.snapshot.browser,
                    BRIDGE_STATUS_DISCONNECTED,
                    &error,
                );
                Some(
                    Settled {
                        request_ids,
                        error: APWError { code: Status::ProcessNotRunning, message },
                    },
                )
            },
            None => None,
        }
    }

    fn not_attached_error(&self, env: &HostEnvironment, status: &str) -> (r: APWError)
        ensures
            r.code == Status::ProcessNotRunning,
            r.message@ == not_attached(
                *env,
                self@.runtime_mode,
                self@.snapshot.browser,
                status@,
                self@.snapshot.last_error,
            ),
    {
        APWError {
            code: Status::ProcessNotRunning,
            message: browser_bridge_not_attached_message(
                env,
                self.runtime_mode,
                &self.snapshot.browser,
                status,
                &self.snapshot.last_error,
            ),
        }
    }

    /// Takes a client's request: the message to send over the attached connection. The request
    /// waits from then on.
    pub fn enqueue_request(&mut self, env: &HostEnvironment, request: &[u8]) -> (r: Result<
        BridgeToBrowserMessage,
    >)
        requires
            old(self).wf(),
        ensures
            final(self).wf(),
            match json_parsed(request@) {
                None => fails(
                    r,
                    Status::InvalidMessageFormat,
                    "Daemon received malformed client payload."@,
                ) && final(self)@ == old(self)@,
                Some(value) => if old(self)@.snapshot.status == BRIDGE_STATUS_ATTACHED@ {
                    &&& r matches Ok(BridgeToBrowserMessage::Request { request_id, payload })
                    &&& request_id@ == request_name(old(self)@.next_request)
                    &&& payload@ == value
                    &&& final(self)@ == enqueued(old(self)@)
                } else {
                    &&& fails(
                        r,
                        Status::ProcessNotRunning,
                        not_attached(
                            *env,
                            old(self)@.runtime_mode,
                            old(self)@.snapshot.browser,
                            old(self)@.snapshot.status,
                            old(self)@.snapshot.last_error,
                        ),
                    )
                    &&& final(self)@ == numbered(old(self)@)
                },
            },
    {
        let payload = match parse_json(request) {
            Some(payload) => payload,
            None => {
                return Err(
                    APWError::new(
                        Status::InvalidMessageFormat,
                        "Daemon received malformed client payload.",
                    ),
                );
            },
        };
        let request_id = cat("bridge-", decimal_u64(self.next_request).as_str());
        self.next_request = if self.next_request == u64::MAX {
            0
        } else {
            self.next_request + 1
        };
        if self.active_connection_id.is_none() || !self.is_attached() {
            let status = owned(self.snapshot.status.as_str());
            return Err(self.not_attached_error(env, status.as_str()));
        }
        match index_of(&self.pending, request_id.as_str()) {
            Some(i) => {
                proof {
                    assert(texts(self.pending@)[i as int] == request_id@);
                    assert(self@.pending.insert(request_id@) =~= self@.pending);
                }
            },
            None => {
                let ghost before = texts(self.pending@);
                self.pending.push(owned(request_id.as_str()));
                proof {
                    lemma_added(before, request_id@);
                    assert(texts(self.pending@) =~= before.push(request_id@));
                }
            },
        }
        Ok(BridgeToBrowserMessage::Request { request_id, payload })
    }

    /// Takes back a request that could not be sent: the error that it ends with.
    pub fn send_failed(&mut self, env: &HostEnvironment, request_id: &str) -> (r: APWError)
        requires
            old(self).wf(),
        ensures
            final(self).wf(),
            final(self)@ == answered(old(self)@, request_id@),
            r.code == Status::ProcessNotRunning,
            r.message@ == not_attached(
                *env,
                old(self)@.runtime_mode,
                old(self)@.snapshot.browser,
                BRIDGE_STATUS_DISCONNECTED@,
                old(self)@.snapshot.last_error,
            ),
    {
        let _waited = self.complete_response(request_id);
        self.not_attached_error(env, BRIDGE_STATUS_DISCONNECTED)
    }

    /// The error where no answer came in time.
    pub fn response_timed_out(&self) -> (r: APWError)
        ensures
            r.code == Status::CommunicationTimeout,
            r.message@ == if self@.runtime_mode == RuntimeMode::Native {
                "Native host response timed out."@
            } else {
                "Browser bridge response timed out."@
            },
    {
        if is_native(self.runtime_mode) {
            APWError::new(Status::CommunicationTimeout, "Native host response timed out.")
        } else {
            APWError::new(Status::CommunicationTimeout, "Browser bridge response timed out.")
        }
    }

    /// The error where the connection went away before the answer.
    pub fn response_dropped(&self) -> (r: APWError)
        ensures
            r.code == Status::ProcessNotRunning,
            r.message@ == if self@.runtime_mode == RuntimeMode::Native {
                "Native host disconnected before returning a response."@
            } else {
                "Browser bridge disconnected before returning a response."@
            },
    {
        if is_native(self.runtime_mode) {
            APWError::new(
                Status::ProcessNotRunning,
                "Native host disconnected before returning a response.",
            )
        } else {
            APWError::new(
                Status::ProcessNotRunning,
                "Browser bridge disconnected before returning a response.",
            )
        }
    }

    /// Takes the first message of a browser: it has to be a greeting.
    pub fn open_browser_connection(
        &mut self,
        connection_id: u64,
        hello: BridgeFromBrowserMessage,
        now: String,
    ) -> (r: Opening)
        requires
            old(self).wf(),
        ensures
            final(self).wf(),
            match hello {
                BridgeFromBrowserMessage::Hello { browser, .. } => {
                    &&& final(self)@ == attached(old(self)@, connection_id, browser@, now@)
                    &&& r matches Opening::Attached(settled)
                    &&& settles(
                        settled,
                        old(self)@.pending,
                        Status::ProcessNotRunning,
                        replaced_message(old(self)@.runtime_mode),
                    )
                },
                _ => {
                    &&& final(self)@ == marked(
                        old(self)@,
                        connection_id,
                        BRIDGE_STATUS_ERROR@,
                        Some(HELLO_FIRST@),
                    )
                    &&& r matches Opening::Refused { settled, error }
                    &&& error_settles(old(self)@, connection_id, HELLO_FIRST@, settled)
                    &&& error.code == Status::ProtoInvalidResponse
                    &&& error.message@ == "Browser bridge must send a hello message first."@
                },
            },
    {
        match hello {
            BridgeFromBrowserMessage::Hello { browser, version: _ } => Opening::Attached(
                self.attach(connection_id, browser, now),
            ),
            _ => {
                let settled = self.mark_error(connection_id, owned(HELLO_FIRST));
                Opening::Refused {
                    settled,
                    error: APWError::new(
                        Status::ProtoInvalidResponse,
                        "Browser bridge must send a hello message first.",
                    ),
                }
            },
        }
    }

    /// Takes the first message of the native host: the name under which it is attached, and the
    /// requests that end, where the message is a greeting.
    pub fn open_native_connection(
        &mut self,
        connection_id: u64,
        hello: BridgeFromBrowserMessage,
        now: String,
    ) -> (r: Option<(String, Settled)>)
        requires
            old(self).wf(),
        ensures
            final(self).wf(),
            match hello {
                BridgeFromBrowserMessage::Hello { browser, version } => {
                    let identity = reported(version, browser@);
                    &&& final(self)@ == attached(old(self)@, connection_id, identity, now@)
                    &&& r matches Some((name, settled))
                    &&& name@ == identity
                    &&& settles(
                        settled,
                        old(self)@.pending,
                        Status::ProcessNotRunning,
                        replaced_message(old(self)@.runtime_mode),
                    )
                },
                _ => r is None && final(self)@ == old(self)@,
            },
    {
        match hello {
            BridgeFromBrowserMessage::Hello { browser, version } => {
                let identity = report(version, browser.as_str());
                let name = owned(identity.as_str());
                let settled = self.attach(connection_id, identity, now);
                Some((name, settled))
            },
            _ => None,
        }
    }

    fn answer(&mut self, request_id: String, response: Result<JsonValue>) -> (r: BridgeReaction)
        requires
            old(self).wf(),
        ensures
            final(self).wf(),
            final(self)@ == answered(old(self)@, request_id@),
            if old(self)@.pending.contains(request_id@) {
                r == (BridgeReaction::Answer { request_id, response })
            } else {
                r is Ignore
            },
    {
        if self.complete_response(request_id.as_str()) {
            BridgeReaction::Answer { request_id, response }
        } else {
            BridgeReaction::Ignore
        }
    }

    /// Takes a message of an attached browser.
    pub fn browser_message(
        &mut self,
        env: &HostEnvironment,
        connection_id: u64,
        message: BridgeFromBrowserMessage,
    ) -> (r: BridgeReaction)
        requires
            old(self).wf(),
        ensures
            final(self).wf(),
            browser_reacts(*env, old(self)@, final(self)@, connection_id, message, r),
    {
        match message {
            BridgeFromBrowserMessage::Hello { .. } => BridgeReaction::Ignore,
            BridgeFromBrowserMessage::Status { status, error } => {
                if str_eq(status.as_str(), BRIDGE_STATUS_ERROR) {
                    let complaint = report(error, "Browser bridge reported an unknown error.");
                    let settled = self.mark_error(connection_id, complaint);
                    react(settled)
                } else if str_eq(status.as_str(), BRIDGE_STATUS_DISCONNECTED) {
                    let settled = self.mark_disconnected(env, connection_id, error);
                    react(settled)
                } else if str_eq(status.as_str(), BRIDGE_STATUS_ATTACHED) {
                    let snapshot = self.snapshot();
                    BridgeReaction::Refresh(
                        persistence_for_browser(
                            self.host.as_str(),
                            self.port,
                            self.runtime_mode,
                            BRIDGE_STATUS_ATTACHED,
                            snapshot.browser,
                            snapshot.connected_at,
                            None,
                        ),
                    )
                } else {
                    BridgeReaction::Ignore
                }
            },
            BridgeFromBrowserMessage::Response { request_id, ok, payload, code, error } => {
                let response = read_browser_answer(ok, payload, code, error);
                self.answer(request_id, response)
            },
        }
    }

    /// Takes a message of the attached native host: what is to be done, and whether the connection
    /// is over.
    pub fn native_message(
        &mut self,
        env: &HostEnvironment,
        connection_id: u64,
        message: BridgeFromBrowserMessage,
    ) -> (r: (BridgeReaction, bool))
        requires
            old(self).wf(),
        ensures
            final(self).wf(),
            native_reacts(*env, old(self)@, final(self)@, connection_id, message, r),
    {
        match message {
            BridgeFromBrowserMessage::Hello { .. } => (BridgeReaction::Ignore, false),
            BridgeFromBrowserMessage::Status { status, error } => {
                if str_eq(status.as_str(), BRIDGE_STATUS_ERROR) {
                    let complaint = report(error, "Native host reported an unknown error.");
                    let settled = self.mark_error(connection_id, complaint);
                    (react(settled), true)
                } else if str_eq(status.as_str(), BRIDGE_STATUS_DISCONNECTED) {
                    let settled = self.mark_disconnected(env, connection_id, error);
                    (react(settled), true)
                } else {
                    (BridgeReaction::Ignore, false)
                }
            },
            BridgeFromBrowserMessage::Response { request_id, ok, payload, code, error } => {
                let response = read_native_answer(ok, payload, code, error);
                (self.answer(request_id, response), false)
            },
        }
    }

    /// Takes what happens on the connection of an attached browser: what is to be done, and how the
    /// connection is over, where it is.
    pub fn browser_event(
        &mut self,
        env: &HostEnvironment,
        connection_id: u64,
        event: BrowserEvent,
    ) -> (r: (BridgeReaction, Option<Result<()>>))
        requires
            old(self).wf(),
        ensures
            final(self).wf(),
            match event {
                BrowserEvent::OutboundEnded => {
                    &&& final(self)@ == old(self)@ && r.0 is Ignore
                    &&& r.1 is Some && r.1->0 is Ok
                },
                BrowserEvent::SendFailed(complaint) => {
                    &&& final(self)@ == old(self)@ && r.0 is Ignore
                    &&& r.1 is Some && fails(
                        r.1->0,
                        Status::ProcessNotRunning,
                        "Browser bridge send failed: "@ + complaint@,
                    )
                },
                BrowserEvent::Closed => {
                    &&& ends_disconnected(
                        *env,
                        old(self)@,
                        final(self)@,
                        connection_id,
                        None,
                        r.0,
                    )
                    &&& r.1 is Some && r.1->0 is Ok
                },
                BrowserEvent::ReceiveFailed(complaint) => {
                    &&& final(self)@ == old(self)@ && r.0 is Ignore
                    &&& r.1 is Some && fails(
                        r.1->0,
                        Status::ProcessNotRunning,
                        "Browser bridge receive failed: "@ + complaint@,
                    )
                },
                BrowserEvent::Received(Err(error)) => {
                    &&& final(self)@ == old(self)@ && r.0 is Ignore
                    &&& r.1 is Some && fails(r.1->0, error.code, error.message@)
                },
                BrowserEvent::Received(Ok(message)) => {
                    &&& browser_reacts(
                        *env,
                        old(self)@,
                        final(self)@,
                        connection_id,
                        message,
                        r.0,
                    )
                    &&& r.1 is None
                },
            },
    {
        match event {
            BrowserEvent::OutboundEnded => (BridgeReaction::Ignore, Some(Ok(()))),
            BrowserEvent::SendFailed(complaint) => {
                let message = cat("Browser bridge send failed: ", complaint.as_str());
                let error = APWError { code: Status::ProcessNotRunning, message };
                (BridgeReaction::Ignore, Some(Err(error)))
            },
            BrowserEvent::Closed => {
                let settled = self.mark_disconnected(env, connection_id, None);
                (react(settled), Some(Ok(())))
            },
            BrowserEvent::ReceiveFailed(complaint) => {
                let message = cat("Browser bridge receive failed: ", complaint.as_str());
                let error = APWError { code: Status::ProcessNotRunning, message };
                (BridgeReaction::Ignore, Some(Err(error)))
            },
            BrowserEvent::Received(Err(error)) => (BridgeReaction::Ignore, Some(Err(error))),
            BrowserEvent::Received(Ok(message)) => {
                (self.browser_message(env, connection_id, message), None)
            },
        }
    }

    /// Takes what happens on the connection of the attached native host: what is to be done, and
    /// whether the connection is over.
    pub fn native_event(
        &mut self,
        env: &HostEnvironment,
        connection_id: u64,
        event: NativeEvent,
    ) -> (r: (BridgeReaction, bool))
        requires
            old(self).wf(),
        ensures
            final(self).wf(),
            match event {
                NativeEvent::WriteFailed(complaint) | NativeEvent::ReadFailed(complaint) => {
                    &&& ends_disconnected(
                        *env,
                        old(self)@,
                        final(self)@,
                        connection_id,
                        Some(complaint@),
                        r.0,
                    )
                    &&& r.1
                },
                NativeEvent::Malformed(complaint) => {
                    &&& ends_in_error(
                        old(self)@,
                        final(self)@,
                        connection_id,
                        "Malformed native host response: "@ + complaint@,
                        r.0,
                    )
                    &&& r.1
                },
                NativeEvent::Received(message) => native_reacts(
                    *env,
                    old(self)@,
                    final(self)@,
                    connection_id,
                    message,
                    r,
                ),
            },
    {
        match event {
            NativeEvent::WriteFailed(complaint) | NativeEvent::ReadFailed(complaint) => {
                let settled = self.mark_disconnected(env, connection_id, Some(complaint));
                (react(settled), true)
            },
            NativeEvent::Malformed(complaint) => {
                let text = cat("Malformed native host response: ", complaint.as_str());
                let settled = self.mark_error(connection_id, text);
                (react(settled), true)
            },
            NativeEvent::Received(message) => self.native_message(env, connection_id, message),
        }
    }
}

} // verus!
