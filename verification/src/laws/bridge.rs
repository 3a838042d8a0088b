//! What happens to the requests that go over a bridge.
use crate::bridge::{
    bridge_frame_text, browser_bridge_not_attached_message, hello_failure, inbound_event,
    parse_bridge_message, BridgeFrame, BridgeFromBrowserMessage, BridgeReaction, BridgeState,
    BridgeToBrowserMessage, BrowserBridge, BrowserEvent, HelloFailure, NativeEvent, Opening,
    Settled, SnapshotModel,
};
use crate::error::{fails, APWError, Result};
use crate::host::HostEnvironment;
use crate::json::{json_parsed, plain, Json, JsonValue};
use crate::laws::basics::lemma_within;
use crate::laws::daemon::{records_bridge, records_daemon};
use crate::laws::names::{lemma_bridge_request_names, lemma_bridge_words};
use crate::secrets::texts;
use crate::text::{occurs_in, opt_text};
use crate::types::{RuntimeMode, Status};
use crate::utils::WriteConfigInput;
use vstd::prelude::*;
use vstd::utf8::{decode_utf8, valid_utf8};

verus! {

/// A bridge begins with nothing attached and nothing asked, at the address and in the mode that are
/// given.
pub proof fn law_bridge_begins_empty(
    host: String,
    port: u16,
    mode: RuntimeMode,
    r: BrowserBridge,
    attached: bool,
)
    ensures
        call_ensures(BrowserBridge::new, (host, port, mode), r) ==> {
            &&& r.wf()
            &&& r@.host == host@ && r@.port == port && r@.runtime_mode == mode
            &&& r@.active is None
            &&& r@.pending == Set::<Seq<char>>::empty()
            &&& call_ensures(BrowserBridge::is_attached, (&r,), attached) ==> !attached
        },
{
    lemma_bridge_words();
}

/// A client's request goes over an attached bridge as it is, and waits for its answer from then on;
/// without a bridge it is refused, and what is no JSON is refused in any case.
pub proof fn law_request_goes_over_the_bridge(
    bridge: &mut BrowserBridge,
    env: &HostEnvironment,
    request: &[u8],
    r: Result<BridgeToBrowserMessage>,
    attached: bool,
)
    ensures
        call_ensures(BrowserBridge::enqueue_request, (bridge, env, request), r) && old(bridge).wf()
            && call_ensures(BrowserBridge::is_attached, (old(bridge),), attached) ==> {
            &&& r is Ok <==> attached && json_parsed(request@) is Some
            &&& r matches Ok(BridgeToBrowserMessage::Request { request_id, payload }) ==> {
                &&& json_parsed(request@) == Some(payload@)
                &&& final(bridge)@.pending == old(bridge)@.pending.insert(request_id@)
                &&& final(bridge)@.active == old(bridge)@.active
                &&& final(bridge)@.snapshot == old(bridge)@.snapshot
                &&& old(bridge)@.next_request < u64::MAX ==> final(bridge)@.next_request
                    == old(bridge)@.next_request + 1
            }
            &&& r is Err ==> final(bridge)@.pending == old(bridge)@.pending
            &&& attached && r is Err ==> r->Err_0.code == Status::InvalidMessageFormat
            &&& !attached && json_parsed(request@) is Some ==> r is Err && r->Err_0.code
                == Status::ProcessNotRunning
        },
{
}

/// Two requests of different numbers go over the bridge under different ids.
pub proof fn law_request_ids_differ(
    a: &mut BrowserBridge,
    b: &mut BrowserBridge,
    env: &HostEnvironment,
    first: &[u8],
    second: &[u8],
    of_a: Result<BridgeToBrowserMessage>,
    of_b: Result<BridgeToBrowserMessage>,
)
    ensures
        call_ensures(BrowserBridge::enqueue_request, (a, env, first), of_a) && call_ensures(
            BrowserBridge::enqueue_request,
            (b, env, second),
            of_b,
        ) && old(a).wf() && old(b).wf() && of_a is Ok && of_b is Ok && old(a)@.next_request != old(
            b,
        )@.next_request ==> (of_a->Ok_0 matches BridgeToBrowserMessage::Request {
            request_id: one,
            ..
        } && (of_b->Ok_0 matches BridgeToBrowserMessage::Request { request_id: other, .. } && one@
            != other@)),
{
    if old(a)@.next_request != old(b)@.next_request {
        crate::bridge::law_request_names_differ(old(a)@.next_request, old(b)@.next_request);
    }
}

/// What goes over the bridge reads as a request with its id and what was asked.
pub proof fn law_bridge_request_reads_back(
    request_id: String,
    payload: JsonValue,
    bytes: Vec<u8>,
    value: JsonValue,
)
    ensures
        call_ensures(
            BridgeToBrowserMessage::to_bytes,
            (&BridgeToBrowserMessage::Request { request_id, payload },),
            bytes,
        ) && plain(payload@, 99) ==> (json_parsed(bytes@) matches Some(read) && {
            &&& read.get("type"@) == Some(Json::Str("request"@))
            &&& read.get("request_id"@) == Some(Json::Str(request_id@))
            &&& read.get("payload"@) == Some(payload@)
        }),
        call_ensures(
            BridgeToBrowserMessage::to_value,
            (&BridgeToBrowserMessage::Request { request_id, payload },),
            value,
        ) ==> {
            &&& value@.get("type"@) == Some(Json::Str("request"@))
            &&& value@.get("request_id"@) == Some(Json::Str(request_id@))
            &&& value@.get("payload"@) == Some(payload@)
        },
{
    lemma_bridge_request_names();
}

/// Whether a reaction ends a request with an answer.
pub open spec fn answers(
    reaction: BridgeReaction,
    request_id: Seq<char>,
    payload: Option<JsonValue>,
    code: Option<Status>,
    error: Option<String>,
    ok: bool,
) -> bool {
    reaction matches BridgeReaction::Answer { request_id: id, response } && {
        &&& id@ == request_id
        &&& ok && payload is Some ==> response is Ok && response->Ok_0@ == payload->0@
        &&& !ok ==> response is Err
        &&& !ok && code is Some ==> response->Err_0.code == code->0
        &&& !ok && code is None ==> response->Err_0.code == Status::GenericError
        &&& !ok && error is Some ==> response->Err_0.message@ == error->0@
    }
}

/// An answer that comes over the bridge ends the request that it names, with what it says, and no
/// other request; an answer to no request that waits changes nothing. So it is with a browser and
/// with the native host.
pub proof fn law_answer_ends_its_request(
    bridge: &mut BrowserBridge,
    env: &HostEnvironment,
    connection_id: u64,
    request_id: String,
    ok: bool,
    payload: Option<JsonValue>,
    code: Option<Status>,
    error: Option<String>,
    of_browser: BridgeReaction,
    of_native: (BridgeReaction, bool),
)
    ensures
        call_ensures(
            BrowserBridge::browser_message,
            (
                bridge,
                env,
                connection_id,
                BridgeFromBrowserMessage::Response { request_id, ok, payload, code, error },
            ),
            of_browser,
        ) && old(bridge).wf() ==> {
            &&& final(bridge)@ == (BridgeState {
                pending: old(bridge)@.pending.remove(request_id@),
                ..old(bridge)@
            })
            &&& old(bridge)@.pending.contains(request_id@) ==> answers(
                of_browser,
                request_id@,
                payload,
                code,
                error,
                ok,
            )
            &&& !old(bridge)@.pending.contains(request_id@) ==> of_browser is Ignore
        },
        call_ensures(
            BrowserBridge::native_message,
            (
                bridge,
                env,
                connection_id,
                BridgeFromBrowserMessage::Response { request_id, ok, payload, code, error },
            ),
            of_native,
        ) && old(bridge).wf() ==> {
            &&& final(bridge)@ == (BridgeState {
                pending: old(bridge)@.pending.remove(request_id@),
                ..old(bridge)@
            })
            &&& !of_native.1
            &&& old(bridge)@.pending.contains(request_id@) ==> answers(
                of_native.0,
                request_id@,
                payload,
                code,
                error,
                ok,
            )
            &&& !old(bridge)@.pending.contains(request_id@) ==> of_native.0 is Ignore
        },
{
}

/// A client's request that goes over the bridge is answered by what comes back for it: the client
/// gets the payload of the answer, once.
pub proof fn law_request_gets_its_answer(
    bridge: &mut BrowserBridge,
    env: &HostEnvironment,
    request: &[u8],
    sent: Result<BridgeToBrowserMessage>,
    later: &mut BrowserBridge,
    connection_id: u64,
    answer: JsonValue,
    request_id: String,
    code: Option<Status>,
    error: Option<String>,
    r: BridgeReaction,
)
    ensures
        call_ensures(BrowserBridge::enqueue_request, (bridge, env, request), sent) && old(
            bridge,
        ).wf() && sent is Ok && (sent->Ok_0 matches BridgeToBrowserMessage::Request {
            request_id: id,
            ..
        } && id@ == request_id@) && old(later)@ == final(bridge)@ && old(later).wf()
            && call_ensures(
            BrowserBridge::browser_message,
            (
                later,
                env,
                connection_id,
                BridgeFromBrowserMessage::Response {
                    request_id,
                    ok: true,
                    payload: Some(answer),
                    code,
                    error,
                },
            ),
            r,
        ) ==> {
            &&& r matches BridgeReaction::Answer { request_id: id, response } && id@ == request_id@
                && response is Ok && response->Ok_0@ == answer@
            &&& !final(later)@.pending.contains(request_id@)
        },
{
}

/// Whether requests end: exactly those that waited, each once, because the helper is gone.
pub open spec fn all_end(settled: Settled, waited: Set<Seq<char>>) -> bool {
    &&& texts(settled.request_ids@).no_duplicates()
    &&& texts(settled.request_ids@).to_set() == waited
    &&& settled.error.code == Status::ProcessNotRunning
}

/// A connection that greets is attached in place of any other, and the requests on that one end. A
/// browser that does not greet is refused, and the native host is then not attached.
pub proof fn law_greeting_attaches(
    bridge: &mut BrowserBridge,
    connection_id: u64,
    hello: BridgeFromBrowserMessage,
    now: String,
    opening: Opening,
    opened: Option<(String, Settled)>,
)
    ensures
        call_ensures(
            BrowserBridge::open_browser_connection,
            (bridge, connection_id, hello, now),
            opening,
        ) && old(bridge).wf() ==> {
            &&& hello matches BridgeFromBrowserMessage::Hello { browser, .. } ==> {
                &&& final(bridge)@.active == Some(connection_id)
                &&& final(bridge)@.pending == Set::<Seq<char>>::empty()
                &&& final(bridge)@.snapshot.status == "attached"@
                &&& final(bridge)@.snapshot.browser == Some(browser@)
                &&& final(bridge)@.snapshot.connected_at == Some(now@)
                &&& final(bridge)@.snapshot.last_error is None
                &&& opening matches Opening::Attached(settled) && all_end(
                    settled,
                    old(bridge)@.pending,
                )
            }
            &&& !(hello is Hello) ==> (opening matches Opening::Refused { error, .. } && error.code
                == Status::ProtoInvalidResponse)
            &&& !(hello is Hello) && old(bridge)@.active != Some(connection_id) ==> final(bridge)@
                == old(bridge)@
        },
        call_ensures(
            BrowserBridge::open_native_connection,
            (bridge, connection_id, hello, now),
            opened,
        ) && old(bridge).wf() ==> {
            &&& hello matches BridgeFromBrowserMessage::Hello { browser, version } ==> {
                &&& final(bridge)@.active == Some(connection_id)
                &&& final(bridge)@.pending == Set::<Seq<char>>::empty()
                &&& final(bridge)@.snapshot.status == "attached"@
                &&& opened matches Some((name, settled)) && all_end(settled, old(bridge)@.pending)
                    && final(bridge)@.snapshot.browser == Some(name@) && name@ == match version {
                    Some(version) => version@,
                    None => browser@,
                }
            }
            &&& !(hello is Hello) ==> opened is None && final(bridge)@ == old(bridge)@
        },
{
}

/// Whether a bridge has lost its connection.
pub open spec fn lost(
    before: BridgeState,
    after: BridgeState,
    status: Seq<char>,
    error: Option<Seq<char>>,
) -> bool {
    &&& after.active is None
    &&& after.pending == Set::<Seq<char>>::empty()
    &&& after.snapshot == (SnapshotModel {
        status,
        browser: before.snapshot.browser,
        connected_at: None,
        last_error: error,
    })
    &&& after.host == before.host && after.port == before.port && after.runtime_mode
        == before.runtime_mode
}

/// The end of the attached connection ends every request that waits, and nothing is attached then.
/// The end of a connection that is not attached any more changes nothing.
pub proof fn law_lost_connection_ends_all(
    bridge: &mut BrowserBridge,
    env: &HostEnvironment,
    connection_id: u64,
    complaint: String,
    error: Option<String>,
    failed: Option<Settled>,
    gone: Option<Settled>,
)
    ensures
        call_ensures(BrowserBridge::mark_error, (bridge, connection_id, complaint), failed) && old(
            bridge,
        ).wf() ==> if old(bridge)@.active == Some(connection_id) {
            &&& lost(old(bridge)@, final(bridge)@, "error"@, Some(complaint@))
            &&& failed is Some && all_end(failed->0, old(bridge)@.pending)
            &&& failed->0.error.message@ == complaint@
        } else {
            failed is None && final(bridge)@ == old(bridge)@
        },
        call_ensures(BrowserBridge::mark_disconnected, (bridge, env, connection_id, error), gone)
            && old(bridge).wf() ==> if old(bridge)@.active == Some(connection_id) {
            &&& lost(old(bridge)@, final(bridge)@, "disconnected"@, opt_text(error))
            &&& gone is Some && all_end(gone->0, old(bridge)@.pending)
        } else {
            gone is None && final(bridge)@ == old(bridge)@
        },
{
    lemma_bridge_words();
}

/// What happens on the connection of a browser: its end ends the requests, a failure to send or to
/// receive ends the connection with that failure, and a message is taken.
pub proof fn law_browser_events(
    bridge: &mut BrowserBridge,
    env: &HostEnvironment,
    connection_id: u64,
    complaint: String,
    error: APWError,
    r: (BridgeReaction, Option<Result<()>>),
)
    ensures
        old(bridge).wf() && old(bridge)@.active == Some(connection_id) ==> {
            &&& call_ensures(
                BrowserBridge::browser_event,
                (bridge, env, connection_id, BrowserEvent::Closed),
                r,
            ) ==> {
                &&& lost(old(bridge)@, final(bridge)@, "disconnected"@, None)
                &&& r.0 matches BridgeReaction::Settle(settled) && all_end(
                    settled,
                    old(bridge)@.pending,
                )
                &&& r.1 is Some && r.1->0 is Ok
            }
            &&& call_ensures(
                BrowserBridge::browser_event,
                (bridge, env, connection_id, BrowserEvent::SendFailed(complaint)),
                r,
            ) ==> r.1 is Some && fails(
                r.1->0,
                Status::ProcessNotRunning,
                "Browser bridge send failed: "@ + complaint@,
            )
            &&& call_ensures(
                BrowserBridge::browser_event,
                (bridge, env, connection_id, BrowserEvent::ReceiveFailed(complaint)),
                r,
            ) ==> r.1 is Some && fails(
                r.1->0,
                Status::ProcessNotRunning,
                "Browser bridge receive failed: "@ + complaint@,
            )
            &&& call_ensures(
                BrowserBridge::browser_event,
                (
                    bridge,
                    env,
                    connection_id,
                    BrowserEvent::Received(Err::<BridgeFromBrowserMessage, APWError>(error)),
                ),
                r,
            ) ==> r.1 is Some && fails(r.1->0, error.code, error.message@)
        },
{
    lemma_bridge_words();
}

/// What happens on the connection of the native host: any failure ends the connection and the
/// requests, and is what is on record then.
pub proof fn law_native_events(
    bridge: &mut BrowserBridge,
    env: &HostEnvironment,
    connection_id: u64,
    complaint: String,
    r: (BridgeReaction, bool),
)
    ensures
        old(bridge).wf() && old(bridge)@.active == Some(connection_id) ==> {
            &&& call_ensures(
                BrowserBridge::native_event,
                (bridge, env, connection_id, NativeEvent::WriteFailed(complaint)),
                r,
            ) || call_ensures(
                BrowserBridge::native_event,
                (bridge, env, connection_id, NativeEvent::ReadFailed(complaint)),
                r,
            ) ==> {
                &&& lost(old(bridge)@, final(bridge)@, "disconnected"@, Some(complaint@))
                &&& r.0 matches BridgeReaction::Settle(settled) && all_end(
                    settled,
                    old(bridge)@.pending,
                )
                &&& r.1
            }
            &&& call_ensures(
                BrowserBridge::native_event,
                (bridge, env, connection_id, NativeEvent::Malformed(complaint)),
                r,
            ) ==> {
                &&& lost(
                    old(bridge)@,
                    final(bridge)@,
                    "error"@,
                    Some("Malformed native host response: "@ + complaint@),
                )
                &&& r.0 matches BridgeReaction::Settle(settled) && all_end(
                    settled,
                    old(bridge)@.pending,
                )
                &&& r.1
            }
        },
{
    lemma_bridge_words();
}

/// A status that the other end reports is acted on: an error and a disconnection end the connection,
/// and that it is attached is put on record.
pub proof fn law_reported_status(
    bridge: &mut BrowserBridge,
    env: &HostEnvironment,
    connection_id: u64,
    status: String,
    error: Option<String>,
    r: BridgeReaction,
    of_native: (BridgeReaction, bool),
)
    ensures
        call_ensures(
            BrowserBridge::browser_message,
            (bridge, env, connection_id, BridgeFromBrowserMessage::Status { status, error }),
            r,
        ) && old(bridge).wf() && old(bridge)@.active == Some(connection_id) ==> {
            &&& status@ == "disconnected"@ ==> lost(
                old(bridge)@,
                final(bridge)@,
                "disconnected"@,
                opt_text(error),
            ) && (r matches BridgeReaction::Settle(settled) && all_end(
                settled,
                old(bridge)@.pending,
            ))
            &&& status@ == "error"@ && error is Some ==> lost(
                old(bridge)@,
                final(bridge)@,
                "error"@,
                opt_text(error),
            ) && (r matches BridgeReaction::Settle(settled) && all_end(
                settled,
                old(bridge)@.pending,
            ))
            &&& status@ == "attached"@ ==> final(bridge)@ == old(bridge)@ && (
            r matches BridgeReaction::Refresh(input) && records_daemon(
                input,
                old(bridge)@.host,
                old(bridge)@.port,
                old(bridge)@.runtime_mode,
                false,
            ) && records_bridge(
                input,
                "attached"@,
                old(bridge)@.snapshot.browser,
                old(bridge)@.snapshot.connected_at,
                None,
            ))
        },
        call_ensures(
            BrowserBridge::native_message,
            (bridge, env, connection_id, BridgeFromBrowserMessage::Status { status, error }),
            of_native,
        ) && old(bridge).wf() && old(bridge)@.active == Some(connection_id) ==> {
            &&& status@ == "disconnected"@ ==> of_native.1 && lost(
                old(bridge)@,
                final(bridge)@,
                "disconnected"@,
                opt_text(error),
            )
            &&& status@ == "error"@ && error is Some ==> of_native.1 && lost(
                old(bridge)@,
                final(bridge)@,
                "error"@,
                opt_text(error),
            )
        },
{
    lemma_bridge_words();
}

/// What is known of the other end goes on record as it is.
pub proof fn law_snapshot_goes_on_record(bridge: &BrowserBridge, r: WriteConfigInput)
    ensures
        call_ensures(BrowserBridge::persist_snapshot, (bridge,), r) ==> {
            let known = bridge@.snapshot;
            &&& records_daemon(r, bridge@.host, bridge@.port, bridge@.runtime_mode, false)
            &&& records_bridge(
                r,
                known.status,
                known.browser,
                known.connected_at,
                known.last_error,
            )
        },
{
}

/// The text of a frame is its text, or that of its bytes where they are UTF-8; no other frame has
/// one.
pub proof fn law_frame_text(text: String, bytes: Vec<u8>, r: Result<String>)
    ensures
        call_ensures(bridge_frame_text, (BridgeFrame::Text(text),), r) ==> r is Ok && r->Ok_0@
            == text@,
        call_ensures(bridge_frame_text, (BridgeFrame::Binary(bytes),), r) ==> {
            &&& r is Ok <==> valid_utf8(bytes@)
            &&& r is Ok ==> r->Ok_0@ == decode_utf8(bytes@)
        },
        call_ensures(bridge_frame_text, (BridgeFrame::Close,), r) ==> r is Err && r->Err_0.code
            == Status::ProcessNotRunning,
{
}

/// A connection that is attached takes the place of any other, whose requests end.
pub proof fn law_attached_connection(
    bridge: &mut BrowserBridge,
    connection_id: u64,
    browser: String,
    now: String,
    settled: Settled,
)
    ensures
        call_ensures(BrowserBridge::attach, (bridge, connection_id, browser, now), settled) && old(
            bridge,
        ).wf() ==> {
            &&& final(bridge)@.active == Some(connection_id)
            &&& final(bridge)@.pending == Set::<Seq<char>>::empty()
            &&& final(bridge)@.snapshot.status == "attached"@
            &&& final(bridge)@.snapshot.browser == Some(browser@)
            &&& final(bridge)@.snapshot.connected_at == Some(now@)
            &&& final(bridge)@.snapshot.last_error is None
            &&& all_end(settled, old(bridge)@.pending)
        },
{
}

/// An answer is taken by the request that waits for it, which then waits no more; every other request
/// waits on.
pub proof fn law_answer_is_taken_once(
    bridge: &mut BrowserBridge,
    env: &HostEnvironment,
    request_id: &str,
    other: Seq<char>,
    r: bool,
    error: APWError,
)
    ensures
        call_ensures(BrowserBridge::complete_response, (bridge, request_id), r) && old(bridge).wf()
            ==> {
            &&& r <==> old(bridge)@.pending.contains(request_id@)
            &&& !final(bridge)@.pending.contains(request_id@)
            &&& other != request_id@ ==> (final(bridge)@.pending.contains(other) <==> old(
                bridge,
            )@.pending.contains(other))
            &&& final(bridge)@.active == old(bridge)@.active && final(bridge)@.snapshot == old(
                bridge,
            )@.snapshot
        },
        call_ensures(BrowserBridge::send_failed, (bridge, env, request_id), error) && old(bridge).wf()
            ==> {
            &&& error.code == Status::ProcessNotRunning
            &&& !final(bridge)@.pending.contains(request_id@)
            &&& other != request_id@ ==> (final(bridge)@.pending.contains(other) <==> old(
                bridge,
            )@.pending.contains(other))
            &&& final(bridge)@.active == old(bridge)@.active && final(bridge)@.snapshot == old(
                bridge,
            )@.snapshot
        },
{
}

/// A status counts where the attached connection reports it: it goes on record with its error, and
/// one that ends the connection ends what waits.
pub proof fn law_status_of_the_attached_connection(
    bridge: &mut BrowserBridge,
    connection_id: u64,
    status: &str,
    error: Option<String>,
    r: Option<Vec<String>>,
)
    ensures
        call_ensures(BrowserBridge::mark_status, (bridge, connection_id, status, error), r) && old(
            bridge,
        ).wf() ==> {
            let ends = status@ == "disconnected"@ || status@ == "error"@;
            &&& r is Some <==> old(bridge)@.active == Some(connection_id)
            &&& r is None ==> final(bridge)@ == old(bridge)@
            &&& r is Some ==> {
                &&& final(bridge)@.snapshot.status == status@
                &&& final(bridge)@.snapshot.last_error == opt_text(error)
                &&& final(bridge)@.snapshot.browser == old(bridge)@.snapshot.browser
                &&& ends ==> final(bridge)@.active is None && final(bridge)@.pending == Set::<
                    Seq<char>,
                >::empty() && texts(r->0@).to_set() == old(bridge)@.pending
                &&& !ends ==> final(bridge)@.active == old(bridge)@.active && final(bridge)@.pending
                    == old(bridge)@.pending && texts(r->0@).to_set() == Set::<Seq<char>>::empty()
            }
        },
{
    lemma_bridge_words();
}

/// A message is what is read of the text in its frame. A frame that has no text is no message, and one
/// that closes the connection is the end of it.
pub proof fn law_message_in_a_frame<R: Fn(String) -> Option<BridgeFromBrowserMessage>>(
    text: String,
    frame: BridgeFrame,
    read: &R,
    message: BridgeFromBrowserMessage,
    r: Result<BridgeFromBrowserMessage>,
    event: BrowserEvent,
)
    ensures
        call_ensures(parse_bridge_message::<R>, (BridgeFrame::Text(text), read), r) ==> {
            &&& (forall|given: String, outcome: Option<BridgeFromBrowserMessage>|
                given@ == text@ && #[trigger] call_ensures(*read, (given,), outcome) ==> outcome
                    == Some(message)) ==> r == Ok::<_, APWError>(message)
            &&& r is Err ==> r->Err_0.code == Status::ProtoInvalidResponse
        },
        call_ensures(parse_bridge_message::<R>, (frame, read), r) && (frame is Control || frame is Raw
            || frame is Close) ==> r is Err,
        call_ensures(inbound_event::<R>, (frame, read), event) ==> (event is Closed
            <==> frame is Close),
{
}

/// What is told where nothing is attached tells the failure that is on record, and the browser.
pub proof fn law_missing_bridge_tells_the_cause(
    env: &HostEnvironment,
    mode: RuntimeMode,
    browser: &Option<String>,
    status: &str,
    last_error: &Option<String>,
    r: String,
)
    ensures
        call_ensures(
            browser_bridge_not_attached_message,
            (env, mode, browser, status, last_error),
            r,
        ) ==> {
            &&& status@ == "error"@ && last_error is Some ==> occurs_in(r@, last_error->0@)
            &&& mode != RuntimeMode::Native && browser is Some ==> occurs_in(r@, browser->0@)
        },
{
    if call_ensures(
        browser_bridge_not_attached_message,
        (env, mode, browser, status, last_error),
        r,
    ) {
        lemma_bridge_words();
        let start = crate::client::BROWSER_MODE@;
        let reload = crate::client::BRIDGE_RELOAD@;
        let name = match browser {
            Some(name) => name@,
            None => "Chrome"@,
        };
        if status@ == "error"@ && last_error is Some {
            let cause = last_error->0@;
            let front = if mode == RuntimeMode::Native {
                crate::client::NATIVE_REPORTED@
            } else {
                start + "the "@ + name + " bridge reported an error: "@
            };
            let back = ". "@ + if mode == RuntimeMode::Native {
                crate::host::host_note(*env)
            } else {
                reload
            };
            assert(r@ =~= front + cause + back);
            lemma_within(front, cause, back);
        }
        if mode != RuntimeMode::Native {
            if status@ == "disconnected"@ {
                assert(r@ =~= (start + "the "@) + name + (" bridge disconnected. "@ + reload));
                lemma_within(start + "the "@, name, " bridge disconnected. "@ + reload);
            } else if status@ == "error"@ && last_error is Some {
                let back = " bridge reported an error: "@ + last_error->0@ + ". "@ + reload;
                assert(r@ =~= (start + "the "@) + name + back);
                lemma_within(start + "the "@, name, back);
            } else {
                let back = crate::client::BRIDGE_LOAD@;
                assert(r@ =~= (start + "no "@) + name + back);
                lemma_within(start + "no "@, name, back);
            }
        }
    }
}

/// A request that gets no answer in time ends in a timeout; one whose connection goes away does not,
/// nor does a connection on which nothing is said.
pub proof fn law_request_without_an_answer(
    bridge: &BrowserBridge,
    timeout: APWError,
    dropped: APWError,
    failure: HelloFailure,
    unheard: APWError,
)
    ensures
        call_ensures(BrowserBridge::response_timed_out, (bridge,), timeout) ==> timeout.code
            == Status::CommunicationTimeout,
        call_ensures(BrowserBridge::response_dropped, (bridge,), dropped) ==> dropped.code
            == Status::ProcessNotRunning,
        call_ensures(hello_failure, (failure,), unheard) ==> unheard.code
            == Status::ProcessNotRunning && (failure matches HelloFailure::Receive(complaint)
            ==> occurs_in(unheard.message@, complaint@)),
{
    if call_ensures(hello_failure, (failure,), unheard) && failure is Receive {
        let front = "Browser bridge receive failed: "@;
        let cause = failure->Receive_0@;
        assert(unheard.message@ =~= front + cause + Seq::empty());
        lemma_within(front, cause, Seq::empty());
    }
}

/// The text of a request over the bridge is that of its bytes.
pub proof fn law_bridge_request_text(message: &BridgeToBrowserMessage, text: String, bytes: Vec<u8>)
    ensures
        call_ensures(BridgeToBrowserMessage::to_text, (message,), text) && call_ensures(
            BridgeToBrowserMessage::to_bytes,
            (message,),
            bytes,
        ) ==> vstd::utf8::encode_utf8(text@) == bytes@,
{
}

} // verus!
