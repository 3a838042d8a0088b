//! What a helper that shares the session key finds in a query.
use crate::bignum::be_bytes;
use crate::client::{
    encloses, login_names_query, lookup_url, normalize_lookup_url, otp_query, password_query,
    query_json, query_meets, query_message, APWMessages,
};
use crate::codec::{base64_bytes, hex_text};
use crate::crypto::gcm_sealed;
use crate::error::Result;
use crate::json::{json_parsed, json_text, plain, Json};
use crate::laws::names::{lemma_message_names, lemma_query_names};
use crate::manager::ApplePasswordManager;
use crate::srp::{cipher_key, conveys, seals, serialized, SRPSession, SessionModel};
use crate::text::{occurs_in, trimmed};
use crate::types::{command_number, Action, Command, Message};
use vstd::prelude::*;
use vstd::utf8::encode_utf8;

verus! {

/// Whether bytes are a nonce of sixteen bytes, what AES-128-GCM makes of a plaintext under the first
/// sixteen bytes of a session key, and a tag of sixteen bytes.
pub open spec fn seals_under(key: nat, plain: Seq<u8>, bytes: Seq<u8>) -> bool {
    let n = bytes.len() as int;
    &&& n >= 32
    &&& gcm_sealed(be_bytes(key).subrange(0, 16), bytes.subrange(0, 16), plain) == (
        bytes.subrange(16, n - 16),
        bytes.subrange(n - 16, n),
    )
}

/// Whether text writes bytes in the encoding of a session.
pub open spec fn writes_bytes(text: Seq<char>, bytes: Seq<u8>, should_use_base64: bool) -> bool {
    if should_use_base64 {
        base64_bytes(text) == Some(bytes)
    } else {
        text == "0x"@ + hex_text(bytes)
    }
}

/// Whether what is opened from bytes under a session key is the JSON text of a value: there is such
/// a text, and where the cipher leaves only one plaintext, it is that one.
pub open spec fn opens_as(key: nat, bytes: Seq<u8>, value: Json) -> bool {
    &&& exists|plain: Seq<u8>| #[trigger]
        seals_under(key, plain, bytes) && json_parsed(plain) == Some(value)
    &&& forall|opened: Seq<u8>|
        (#[trigger] seals_under(key, opened, bytes) && forall|other: Seq<u8>| #[trigger]
            seals_under(key, other, bytes) ==> other == opened) ==> json_parsed(opened) == Some(
            value,
        )
}

/// Whether a message asks the helper of a session for something: what the helper opens from the
/// message under the session key is the query.
pub open spec fn asks(message: Json, session: SessionModel, qid: Seq<char>, query: Json) -> bool {
    exists|envelope: Json, data: Seq<char>, bytes: Seq<u8>|
        {
            &&& #[trigger] writes_bytes(data, bytes, session.should_use_base64)
            &&& message.get("payload"@) matches Some(Json::Str(text)) && encode_utf8(text)
                == #[trigger] json_text(envelope)
            &&& envelope.get("QID"@) == Some(Json::Str(qid))
            &&& envelope.get("SMSG"@) matches Some(smsg) && smsg.get("TID"@) == Some(
                Json::Str(session.username),
            ) && smsg.get("SDATA"@) == Some(Json::Str(data))
            &&& session.shared_key is Some
            &&& opens_as(session.shared_key->0, bytes, query)
        }
}

pub(crate) proof fn lemma_seals_under(key: nat, plain: Seq<u8>, bytes: Seq<u8>)
    ensures
        seals(cipher_key(key), plain, bytes) == seals_under(key, plain, bytes),
{
}

proof fn lemma_asks(
    message: Message,
    session: SessionModel,
    command: Command,
    qid: Seq<char>,
    sealed: Seq<u8>,
    query: Json,
    url: Seq<char>,
    frame: i32,
)
    requires
        session.shared_key is Some,
        encloses(message, session, command, qid, sealed, url, frame),
        conveys(cipher_key(session.shared_key->0), query, sealed),
    ensures
        asks(message@, session, qid, query),
        message@.get("url"@) == Some(Json::Str(url)),
        message@.get("cmd"@) == Some(Json::Int(message.cmd as int)),
        message@.get("tabId"@) == Some(Json::Int(frame as int)),
        message@.get("frameId"@) == Some(Json::Int(frame as int)),
        message@.get("msg"@) is None,
        message@.get("capabilities"@) is None,
{
    lemma_message_names();
    lemma_query_names();
    let envelope = query_json(session, qid, sealed);
    let data = serialized(session, sealed, true);
    let key = session.shared_key->0;
    assert forall|text: Seq<u8>| seals(cipher_key(key), text, sealed) == #[trigger] seals_under(
        key,
        text,
        sealed,
    ) by {
        lemma_seals_under(key, text, sealed);
    }
    let text = choose|text: Seq<u8>| #[trigger]
        seals(cipher_key(key), text, sealed) && json_parsed(text) == Some(query);
    assert(seals_under(key, text, sealed));
    assert(opens_as(key, sealed, query));
    assert(writes_bytes(data, sealed, session.should_use_base64));
    assert(envelope.get("SMSG"@)->0.get("SDATA"@) == Some(Json::Str(data)));
    assert(message@.get("payload"@) == Some(message.payload->0@));
    assert(encode_utf8(message.payload->0@->Str_0) == json_text(envelope));
}

proof fn lemma_queries_are_plain(action: Action, url: Seq<char>, login_name: Seq<char>)
    ensures
        plain(login_names_query(url), 100),
        plain(password_query(url, login_name), 100),
        plain(otp_query(action, url), 100),
{
    reveal_with_fuel(plain, 4);
    lemma_query_names();
    let names = login_names_query(url)->Obj_0;
    assert forall|k: Seq<char>| names.dom().contains(k) implies plain(#[trigger] names[k], 99) by {
        assert(k == "ACT"@ || k == "URL"@);
    }
    let password = password_query(url, login_name)->Obj_0;
    assert forall|k: Seq<char>| password.dom().contains(k) implies plain(
        #[trigger] password[k],
        99,
    ) by {
        assert(k == "ACT"@ || k == "URL"@ || k == "USR"@);
    }
    let otp = otp_query(action, url)->Obj_0;
    assert forall|k: Seq<char>| otp.dom().contains(k) implies plain(#[trigger] otp[k], 99) by {
        assert(k == "ACT"@ || k == "TYPE"@ || k == "frameURLs"@);
    }
}

proof fn lemma_query_asks(
    r: Result<Message>,
    session: SessionModel,
    command: Command,
    qid: Seq<char>,
    query: Json,
    url: Seq<char>,
    frame: i32,
)
    requires
        query_meets(r, session, command, qid, query, url, frame),
        r is Ok,
        plain(query, 100),
    ensures
        asks(r->Ok_0@, session, qid, query),
        r->Ok_0@.get("url"@) == Some(Json::Str(url)),
        r->Ok_0@.get("cmd"@) == Some(Json::Int(command_number(command) as int)),
        r->Ok_0@.get("tabId"@) == Some(Json::Int(frame as int)),
        r->Ok_0@.get("frameId"@) == Some(Json::Int(frame as int)),
{
    let key = cipher_key(session.shared_key->0);
    let sealed = choose|sealed: Seq<u8>| #[trigger]
        seals(key, json_text(query), sealed) && encloses(
            r->Ok_0,
            session,
            command,
            qid,
            sealed,
            url,
            frame,
        ) && (plain(query, 100) ==> conveys(key, query, sealed));
    lemma_asks(r->Ok_0, session, command, qid, sealed, query, url, frame);
}

/// The URL that a lookup is made for: the given one without the white space around it, behind
/// `http://` where it has no scheme.
pub open spec fn looked_up(raw: Seq<char>, url: Seq<char>) -> bool {
    &&& occurs_in(trimmed(raw), "://"@) ==> url == trimmed(raw)
    &&& !occurs_in(trimmed(raw), "://"@) ==> url == "http://"@ + trimmed(raw)
}

/// Whether a message is addressed as a command for a URL in a frame.
pub open spec fn addressed(message: Json, command: int, url: Seq<char>, frame: int) -> bool {
    &&& message.get("cmd"@) == Some(Json::Int(command))
    &&& message.get("url"@) == Some(Json::Str(url))
    &&& message.get("tabId"@) == Some(Json::Int(frame))
    &&& message.get("frameId"@) == Some(Json::Int(frame))
}

/// A query for the password of an account asks the helper for that account at that site: what it
/// opens from the message has the URL under `URL` and the name under `USR`, and asks for a search.
pub proof fn law_password_query_names_the_account(
    session: &SRPSession,
    url: &str,
    login_name: &str,
    r: Result<Message>,
)
    ensures
        call_ensures(APWMessages::get_password_for_url, (session, url, login_name), r) && r is Ok
            ==> exists|query: Json| #[trigger]
            asks(r->Ok_0@, session@, "CmdGetPassword4LoginName"@, query) && {
                &&& query.get("URL"@) == Some(Json::Str(url@))
                &&& query.get("USR"@) == Some(Json::Str(login_name@))
                &&& query.get("ACT"@) == Some(Json::Str("Search"@))
                &&& addressed(r->Ok_0@, 5, url@, 0)
            },
{
    if call_ensures(APWMessages::get_password_for_url, (session, url, login_name), r) && r is Ok {
        let query = password_query(url@, login_name@);
        lemma_queries_are_plain(Action::Search, url@, login_name@);
        lemma_query_names();
        lemma_query_asks(
            r,
            session@,
            Command::GetPasswordForLoginName,
            "CmdGetPassword4LoginName"@,
            query,
            url@,
            0,
        );
    }
}

/// A query for the accounts of a site asks the helper for that site: what it opens from the message
/// has the URL under `URL`, names no account, and asks for a search that shows no passwords.
pub proof fn law_account_query_names_the_site(
    session: &SRPSession,
    url: &str,
    r: Result<Message>,
)
    ensures
        call_ensures(APWMessages::get_login_names_for_url, (session, url), r) && r is Ok
            ==> exists|query: Json| #[trigger]
            asks(r->Ok_0@, session@, "CmdGetLoginNames4URL"@, query) && {
                &&& query.get("URL"@) == Some(Json::Str(url@))
                &&& query.get("USR"@) is None
                &&& query.get("ACT"@) == Some(Json::Str("GhostSearch"@))
                &&& addressed(r->Ok_0@, 4, url@, 1)
            },
{
    if call_ensures(APWMessages::get_login_names_for_url, (session, url), r) && r is Ok {
        let query = login_names_query(url@);
        lemma_queries_are_plain(Action::GhostSearch, url@, url@);
        lemma_query_names();
        lemma_query_asks(
            r,
            session@,
            Command::GetLoginNamesForUrl,
            "CmdGetLoginNames4URL"@,
            query,
            url@,
            1,
        );
    }
}

/// A query for a one-time code asks the helper for the codes of that site and of no other: what it
/// opens from the message has the URL alone under `frameURLs`, and asks for a search.
pub proof fn law_code_query_names_the_site(
    session: &SRPSession,
    url: &str,
    r: Result<Message>,
)
    ensures
        call_ensures(APWMessages::get_otp_for_url, (session, url), r) && r is Ok
            ==> exists|query: Json| #[trigger]
            asks(r->Ok_0@, session@, "CmdDidFillOneTimeCode"@, query) && {
                &&& query.get("frameURLs"@) == Some(Json::Arr(seq![Json::Str(url@)]))
                &&& query.get("TYPE"@) == Some(Json::Str("oneTimeCodes"@))
                &&& query.get("ACT"@) == Some(Json::Str("Search"@))
                &&& addressed(r->Ok_0@, 17, url@, 0)
            },
{
    if call_ensures(APWMessages::get_otp_for_url, (session, url), r) && r is Ok {
        let query = otp_query(Action::Search, url@);
        lemma_queries_are_plain(Action::Search, url@, url@);
        lemma_query_names();
        lemma_query_asks(
            r,
            session@,
            Command::DidFillOneTimeCode,
            "CmdDidFillOneTimeCode"@,
            query,
            url@,
            0,
        );
    }
}

/// A query for the accounts with one-time codes asks the helper for those of that site and of no
/// other: what it opens from the message has the URL alone under `frameURLs`, and asks for a search
/// that shows no codes.
pub proof fn law_code_list_names_the_site(
    session: &SRPSession,
    url: &str,
    r: Result<Message>,
)
    ensures
        call_ensures(APWMessages::list_otp_for_url, (session, url), r) && r is Ok
            ==> exists|query: Json| #[trigger]
            asks(r->Ok_0@, session@, "CmdDidFillOneTimeCode"@, query) && {
                &&& query.get("frameURLs"@) == Some(Json::Arr(seq![Json::Str(url@)]))
                &&& query.get("TYPE"@) == Some(Json::Str("oneTimeCodes"@))
                &&& query.get("ACT"@) == Some(Json::Str("GhostSearch"@))
                &&& addressed(r->Ok_0@, 16, url@, 0)
            },
{
    if call_ensures(APWMessages::list_otp_for_url, (session, url), r) && r is Ok {
        let query = otp_query(Action::GhostSearch, url@);
        lemma_queries_are_plain(Action::GhostSearch, url@, url@);
        lemma_query_names();
        lemma_query_asks(
            r,
            session@,
            Command::GetOneTimeCodes,
            "CmdDidFillOneTimeCode"@,
            query,
            url@,
            0,
        );
    }
}

/// A query for the password of an account asks the helper for that account at that site: what it
/// opens from the message has the URL under `URL` and the name under `USR`, and asks for a search.
/// The URL is the one that is looked up.
pub proof fn law_password_query_names_the_account_of_the_client(
    manager: &ApplePasswordManager,
    url: &str,
    login_name: &str,
    r: Result<Message>,
)
    ensures
        call_ensures(ApplePasswordManager::get_password_for_url, (manager, url, login_name), r)
            && r is Ok ==> exists|query: Json, asked: Seq<char>|
            #![trigger asks(r->Ok_0@, manager@.session, "CmdGetPassword4LoginName"@, query),
                looked_up(url@, asked)]
            asks(r->Ok_0@, manager@.session, "CmdGetPassword4LoginName"@, query)
                && looked_up(url@, asked) && {
                &&& query.get("URL"@) == Some(Json::Str(asked))
                &&& query.get("USR"@) == Some(Json::Str(login_name@))
                &&& query.get("ACT"@) == Some(Json::Str("Search"@))
                &&& addressed(r->Ok_0@, 5, asked, 0)
            },
{
    if call_ensures(ApplePasswordManager::get_password_for_url, (manager, url, login_name), r)
        && r is Ok {
        let query = password_query(lookup_url(url@), login_name@);
        lemma_queries_are_plain(Action::Search, lookup_url(url@), login_name@);
        lemma_query_names();
        assert(looked_up(url@, lookup_url(url@)));
        lemma_query_asks(
            r,
            manager@.session,
            Command::GetPasswordForLoginName,
            "CmdGetPassword4LoginName"@,
            query,
            lookup_url(url@),
            0,
        );
    }
}

/// A query for the accounts of a site asks the helper for that site: what it opens from the message
/// has the URL under `URL`, names no account, and asks for a search that shows no passwords.
/// The URL is the one that is looked up.
pub proof fn law_account_query_names_the_site_of_the_client(
    manager: &ApplePasswordManager,
    url: &str,
    r: Result<Message>,
)
    ensures
        call_ensures(ApplePasswordManager::get_login_names_for_url, (manager, url), r)
            && r is Ok ==> exists|query: Json, asked: Seq<char>|
            #![trigger asks(r->Ok_0@, manager@.session, "CmdGetLoginNames4URL"@, query),
                looked_up(url@, asked)]
            asks(r->Ok_0@, manager@.session, "CmdGetLoginNames4URL"@, query)
                && looked_up(url@, asked) && {
                &&& query.get("URL"@) == Some(Json::Str(asked))
                &&& query.get("USR"@) is None
                &&& query.get("ACT"@) == Some(Json::Str("GhostSearch"@))
                &&& addressed(r->Ok_0@, 4, asked, 1)
            },
{
    if call_ensures(ApplePasswordManager::get_login_names_for_url, (manager, url), r)
        && r is Ok {
        let query = login_names_query(lookup_url(url@));
        lemma_queries_are_plain(Action::GhostSearch, lookup_url(url@), url@);
        lemma_query_names();
        assert(looked_up(url@, lookup_url(url@)));
        lemma_query_asks(
            r,
            manager@.session,
            Command::GetLoginNamesForUrl,
            "CmdGetLoginNames4URL"@,
            query,
            lookup_url(url@),
            1,
        );
    }
}

/// A query for a one-time code asks the helper for the codes of that site and of no other: what it
/// opens from the message has the URL alone under `frameURLs`, and asks for a search.
/// The URL is the one that is looked up.
pub proof fn law_code_query_names_the_site_of_the_client(
    manager: &ApplePasswordManager,
    url: &str,
    r: Result<Message>,
)
    ensures
        call_ensures(ApplePasswordManager::get_otp_for_url, (manager, url), r)
            && r is Ok ==> exists|query: Json, asked: Seq<char>|
            #![trigger asks(r->Ok_0@, manager@.session, "CmdDidFillOneTimeCode"@, query),
                looked_up(url@, asked)]
            asks(r->Ok_0@, manager@.session, "CmdDidFillOneTimeCode"@, query)
                && looked_up(url@, asked) && {
                &&& query.get("frameURLs"@) == Some(Json::Arr(seq![Json::Str(asked)]))
                &&& query.get("TYPE"@) == Some(Json::Str("oneTimeCodes"@))
                &&& query.get("ACT"@) == Some(Json::Str("Search"@))
                &&& addressed(r->Ok_0@, 17, asked, 0)
            },
{
    if call_ensures(ApplePasswordManager::get_otp_for_url, (manager, url), r)
        && r is Ok {
        let query = otp_query(Action::Search, lookup_url(url@));
        lemma_queries_are_plain(Action::Search, lookup_url(url@), url@);
        lemma_query_names();
        assert(looked_up(url@, lookup_url(url@)));
        lemma_query_asks(
            r,
            manager@.session,
            Command::DidFillOneTimeCode,
            "CmdDidFillOneTimeCode"@,
            query,
            lookup_url(url@),
            0,
        );
    }
}

/// A query for the accounts with one-time codes asks the helper for those of that site and of no
/// other: what it opens from the message has the URL alone under `frameURLs`, and asks for a search
/// that shows no codes.
/// The URL is the one that is looked up.
pub proof fn law_code_list_names_the_site_of_the_client(
    manager: &ApplePasswordManager,
    url: &str,
    r: Result<Message>,
)
    ensures
        call_ensures(ApplePasswordManager::list_otp_for_url, (manager, url), r)
            && r is Ok ==> exists|query: Json, asked: Seq<char>|
            #![trigger asks(r->Ok_0@, manager@.session, "CmdDidFillOneTimeCode"@, query),
                looked_up(url@, asked)]
            asks(r->Ok_0@, manager@.session, "CmdDidFillOneTimeCode"@, query)
                && looked_up(url@, asked) && {
                &&& query.get("frameURLs"@) == Some(Json::Arr(seq![Json::Str(asked)]))
                &&& query.get("TYPE"@) == Some(Json::Str("oneTimeCodes"@))
                &&& query.get("ACT"@) == Some(Json::Str("GhostSearch"@))
                &&& addressed(r->Ok_0@, 16, asked, 0)
            },
{
    if call_ensures(ApplePasswordManager::list_otp_for_url, (manager, url), r)
        && r is Ok {
        let query = otp_query(Action::GhostSearch, lookup_url(url@));
        lemma_queries_are_plain(Action::GhostSearch, lookup_url(url@), url@);
        lemma_query_names();
        assert(looked_up(url@, lookup_url(url@)));
        lemma_query_asks(
            r,
            manager@.session,
            Command::GetOneTimeCodes,
            "CmdDidFillOneTimeCode"@,
            query,
            lookup_url(url@),
            0,
        );
    }
}

/// A URL without a scheme is looked up behind `http://`, and one with a scheme as it is.
pub proof fn law_url_is_looked_up(raw: &str, r: String)
    ensures
        call_ensures(normalize_lookup_url, (raw,), r) ==> looked_up(raw@, r@),
{
}

/// The message of a query carries what the cipher gave, for the session, under the command, the URL
/// and the frame; or ends in the cipher's error.
pub proof fn law_query_carries_what_is_sealed(
    session: &SRPSession,
    command: Command,
    qid: &str,
    sealed: Result<Vec<u8>>,
    url: &str,
    frame: i32,
    number: i32,
    r: Result<Message>,
)
    ensures
        call_ensures(query_message, (session, command, qid, sealed, url, frame), r) && call_ensures(
            Command::number,
            (command,),
            number,
        ) ==> match sealed {
            Ok(bytes) => r is Ok && {
                let message = r->Ok_0@;
                &&& message.get("url"@) == Some(Json::Str(url@))
                &&& message.get("cmd"@) == Some(Json::Int(number as int))
                &&& message.get("tabId"@) == Some(Json::Int(frame as int))
                &&& message.get("frameId"@) == Some(Json::Int(frame as int))
                &&& exists|envelope: Json, data: Seq<char>|
                    {
                        &&& #[trigger] writes_bytes(data, bytes@, session@.should_use_base64)
                        &&& message.get("payload"@) matches Some(Json::Str(text)) && encode_utf8(text)
                            == #[trigger] json_text(envelope)
                        &&& envelope.get("QID"@) == Some(Json::Str(qid@))
                        &&& envelope.get("SMSG"@) matches Some(smsg) && smsg.get("TID"@) == Some(
                            Json::Str(session@.username),
                        ) && smsg.get("SDATA"@) == Some(Json::Str(data))
                    }
            },
            Err(error) => r is Err && r->Err_0.code == error.code && r->Err_0.message@
                == error.message@,
        },
{
    if call_ensures(query_message, (session, command, qid, sealed, url, frame), r) && sealed is Ok {
        lemma_message_names();
        lemma_query_names();
        let bytes = sealed->Ok_0@;
        let message = r->Ok_0;
        let envelope = query_json(session@, qid@, bytes);
        let data = serialized(session@, bytes, true);
        assert(writes_bytes(data, bytes, session@.should_use_base64));
        assert(envelope.get("SMSG"@)->0.get("SDATA"@) == Some(Json::Str(data)));
        assert(message@.get("payload"@) == Some(message.payload->0@));
        assert(encode_utf8(message.payload->0@->Str_0) == json_text(envelope));
    }
}

} // verus!
