//! What goes over the wire in a key exchange, and what is kept of it.
use crate::bignum::{be_bytes, be_value, BigUint};
use crate::client::APWMessages;
use crate::codec::base64_bytes;
use crate::crypto::CipherFailure;
use crate::error::{fails, Result};
use crate::json::{json_parsed, Json, JsonValue};
use crate::laws::auth::{
    expected_proof, lemma_client_proof, lemma_keys_agree, lemma_residue, residue, returned_proof,
    server_hello, server_key,
};
use crate::laws::names::{lemma_exchange_names, lemma_message_names};
use crate::laws::queries::writes_bytes;
use crate::manager::{ApplePasswordManager, ManagerModel};
use crate::srp::{
    accept_plaintext, assemble_payload, group_modulus, is_valid_pake_message,
    parse_pake_message_to_struct, SRPSession, SessionModel,
};
use crate::text::{opt_text, trimmed};
use crate::types::{Message, PAKEMessage, Status};
use crate::utils::WriteConfigInput;
use vstd::prelude::*;

verus! {

/// The value that is carried as base64 of its JSON text.
pub open spec fn carried(text: Seq<char>) -> Option<Json> {
    match base64_bytes(text) {
        Some(bytes) => json_parsed(bytes),
        None => None,
    }
}

/// The message of the key exchange that a step of the handshake carries under the name of the step.
pub open spec fn step_of(message: Json, qid: Seq<char>) -> Option<Json> {
    let step = message.get("msg"@)->0;
    if message.get("cmd"@) == Some(Json::Int(2)) && message.get("msg"@) is Some && step.get("QID"@)
        == Some(Json::Str(qid)) && step.get("HSTBRSR"@) == Some(Json::Str("Chrome"@)) {
        match step.get("PAKE"@) {
            Some(Json::Str(text)) => carried(text),
            _ => None,
        }
    } else {
        None
    }
}

/// Whether a message opens a key exchange: the server reads from it the name of the session and the
/// client's public key, in the version of the protocol that the client speaks.
pub open spec fn opens_exchange(message: Json, session: SessionModel) -> bool {
    &&& message.get("capabilities"@) is Some
    &&& step_of(message, "m0"@) matches Some(first) && {
        &&& first.get("TID"@) == Some(Json::Str(session.username))
        &&& first.get("MSG"@) == Some(Json::Int(0))
        &&& first.get("VER"@) == Some(Json::Str("1.0.1"@))
        &&& first.get("PROTO"@) == Some(Json::Arr(seq![Json::Int(1)]))
        &&& first.get("A"@) matches Some(Json::Str(text)) && writes_bytes(
            text,
            be_bytes(residue(5, session.client_private_key)),
            session.should_use_base64,
        )
    }
}

/// Whether a message proves the session key to the server: it reads from it the name of the session
/// and the client's proof.
pub open spec fn proves(message: Json, session: SessionModel, proved: Seq<u8>) -> bool {
    step_of(message, "m2"@) matches Some(second) && {
        &&& second.get("TID"@) == Some(Json::Str(session.username))
        &&& second.get("MSG"@) == Some(Json::Int(2))
        &&& second.get("M"@) matches Some(Json::Str(text)) && if session.should_use_base64 {
            base64_bytes(text) == Some(proved)
        } else {
            text == crate::codec::hex_text(proved)
        }
    }
}

/// The first message of a key exchange tells the server the session and the client's public key.
pub proof fn law_first_message_opens_the_exchange(session: &SRPSession, r: Result<Message>)
    ensures
        call_ensures(APWMessages::request_challenge, (session,), r) ==> r is Ok && opens_exchange(
            r->Ok_0@,
            session@,
        ),
{
    lemma_exchange_names();
    lemma_message_names();
    lemma_residue(5, session@.client_private_key);
}

/// A client begins a key exchange, unless it did so less than five seconds ago and has a session
/// key. Nothing but the time of it is changed.
pub proof fn law_client_begins_the_exchange(
    manager: &mut ApplePasswordManager,
    now_ms: u64,
    r: Option<Result<Message>>,
)
    ensures
        call_ensures(ApplePasswordManager::request_challenge, (manager, now_ms), r) ==> {
            let before = old(manager)@;
            &&& r is None <==> before.session.shared_key is Some && (before.challenged_at matches Some(
                at,
            ) && now_ms - at < 5000)
            &&& r is None ==> final(manager)@ == before
            &&& r matches Some(sent) ==> {
                &&& sent is Ok && opens_exchange(sent->Ok_0@, before.session)
                &&& final(manager)@ == (ManagerModel { challenged_at: Some(now_ms), ..before })
            }
        },
{
    lemma_exchange_names();
    lemma_message_names();
    lemma_residue(5, old(manager)@.session.client_private_key);
}

/// Whether a message of the server is in order: for the session, of the kind, in the version, and
/// with all that has to be in it and no error.
pub open spec fn in_order(message: Json, username: Seq<char>, kind: int) -> bool {
    &&& trimmed(username).len() > 0
    &&& message.get("TID"@) == Some(Json::Str(username))
    &&& message.get("MSG"@) == Some(Json::Int(kind))
    &&& message.get("PROTO"@) == Some(Json::Int(1))
    &&& message.get("A"@) matches Some(Json::Str(text)) && trimmed(text).len() > 0
    &&& message.get("s"@) matches Some(Json::Str(text)) && trimmed(text).len() > 0
    &&& message.get("B"@) matches Some(Json::Str(text)) && trimmed(text).len() > 0
    &&& message.get("VER"@) is None
}

/// The message in an answer of the server.
pub open spec fn answer_of(payload: Json) -> Option<Json> {
    match payload.get("PAKE"@) {
        Some(Json::Str(text)) => carried(text),
        _ => None,
    }
}

/// The server's public key and salt are taken over as the answer writes them, for the session that
/// the answer names and no other; an answer that is refused changes nothing.
pub proof fn law_challenge_is_taken_as_written(
    manager: &mut ApplePasswordManager,
    payload: &JsonValue,
    r: Result<()>,
)
    ensures
        call_ensures(ApplePasswordManager::accept_challenge, (manager, payload), r) ==> {
            let before = old(manager)@;
            let message = answer_of(payload@)->0;
            &&& r is Err ==> final(manager)@ == before
            &&& r is Ok ==> {
                &&& answer_of(payload@) is Some
                &&& message.get("TID"@) == Some(Json::Str(before.session.username))
                &&& message.get("MSG"@) matches Some(Json::Int(n)) ==> n == 1
                &&& message.get("PROTO"@) matches Some(Json::Int(n)) ==> n == 1
                &&& message.get("ErrCode"@) matches Some(Json::Int(n)) ==> n == 0
                &&& message.get("B"@) matches Some(Json::Str(text)) && (base64_bytes(
                    text,
                ) matches Some(bytes) ==> {
                    &&& final(manager)@.session.server_public_key == Some(be_value(bytes))
                    &&& be_value(bytes) % group_modulus() != 0
                })
                &&& message.get("s"@) matches Some(Json::Str(text)) && (base64_bytes(
                    text,
                ) matches Some(bytes) ==> final(manager)@.session.salt == Some(be_value(bytes)))
                &&& final(manager)@ == (ManagerModel {
                    session: SessionModel {
                        server_public_key: final(manager)@.session.server_public_key,
                        salt: final(manager)@.session.salt,
                        ..before.session
                    },
                    ..before
                })
            }
        },
{
    lemma_exchange_names();
}

/// An answer of the server that is in order, with a public key that is not zero in the group, is
/// taken.
pub proof fn law_challenge_in_order_is_taken(
    manager: &mut ApplePasswordManager,
    payload: &JsonValue,
    key: Seq<u8>,
    salt: Seq<u8>,
    r: Result<()>,
)
    ensures
        call_ensures(ApplePasswordManager::accept_challenge, (manager, payload), r) && answer_of(
            payload@,
        ) is Some && payload@.get("PAKE"@)->0->Str_0.len() > 0 && in_order(
            answer_of(payload@)->0,
            old(manager)@.session.username,
            1,
        ) && answer_of(payload@)->0.get("ErrCode"@) is None && answer_of(payload@)->0.get(
            "HAMK"@,
        ) is None && base64_bytes(answer_of(payload@)->0.get("B"@)->0->Str_0) == Some(key)
            && base64_bytes(answer_of(payload@)->0.get("s"@)->0->Str_0) == Some(salt) && be_value(
            key,
        ) % group_modulus() != 0 ==> {
            &&& r is Ok
            &&& final(manager)@.session == (SessionModel {
                server_public_key: Some(be_value(key)),
                salt: Some(be_value(salt)),
                ..old(manager)@.session
            })
        },
{
    lemma_exchange_names();
}

/// With the PIN that the server knows, the client keeps the server's session key and sends the proof
/// that the server expects.
pub proof fn law_right_pin_is_proved_to_the_server(
    manager: &mut ApplePasswordManager,
    pin: &str,
    r: Result<(BigUint, Vec<u8>, Message)>,
    private: nat,
)
    ensures
        call_ensures(ApplePasswordManager::verify_challenge, (manager, pin), r) && old(
            manager,
        )@.session.salt is Some && old(manager)@.session.server_public_key == Some(
            server_hello(
                old(manager)@.session.username,
                pin@,
                old(manager)@.session.salt->0,
                private,
            ),
        ) ==> {
            let before = old(manager)@.session;
            let public = residue(5, before.client_private_key);
            let key = server_key(before.username, pin@, before.salt->0, private, public);
            let proved = expected_proof(
                before.username,
                before.salt->0,
                public,
                before.server_public_key->0,
                key,
            );
            &&& r is Ok
            &&& r->Ok_0.0@ == key
            &&& r->Ok_0.1@ == proved
            &&& proves(r->Ok_0.2@, before, proved)
            &&& final(manager)@ == (ManagerModel {
                session: SessionModel { shared_key: Some(key), ..before },
                ..old(manager)@
            })
        },
{
    let before = old(manager)@.session;
    if call_ensures(ApplePasswordManager::verify_challenge, (manager, pin), r) && before.salt is Some
        && before.server_public_key == Some(
        server_hello(before.username, pin@, before.salt->0, private),
    ) {
        lemma_keys_agree(before, pin@, private);
        lemma_client_proof(final(manager)@.session);
        lemma_exchange_names();
        lemma_message_names();
    }
}

/// A session goes on record only once the server has returned the proof of the session key for this
/// session: what is written is the session's user and the key, at the address of the daemon.
pub proof fn law_only_a_proved_session_is_kept(
    manager: &ApplePasswordManager,
    shared_key: BigUint,
    client_proof: &Vec<u8>,
    response: &JsonValue,
    r: Result<WriteConfigInput>,
)
    ensures
        call_ensures(
            ApplePasswordManager::accept_verification,
            (manager, shared_key, client_proof, response),
            r,
        ) && r is Ok ==> {
            let session = manager@.session;
            let message = answer_of(response@)->0;
            let input = r->Ok_0;
            &&& session.shared_key is Some
            &&& answer_of(response@) is Some
            &&& message.get("TID"@) == Some(Json::Str(session.username))
            &&& message.get("MSG"@) matches Some(Json::Int(n)) ==> n == 3
            &&& message.get("ErrCode"@) matches Some(Json::Int(n)) ==> n == 0
            &&& message.get("HAMK"@) matches Some(Json::Str(text)) && (session.should_use_base64
                && base64_bytes(text) is Some ==> base64_bytes(text)->0 == returned_proof(
                residue(5, session.client_private_key),
                client_proof@,
                session.shared_key->0,
            ))
            &&& opt_text(input.username) == Some(session.username)
            &&& input.shared_key is Some && input.shared_key->0@ == shared_key@
            &&& input.port == Some(manager@.remote_port)
            &&& opt_text(input.host) == Some(manager@.remote_host)
            &&& input.refresh_created_at && !input.clear_auth && !input.allow_empty
        },
{
    lemma_exchange_names();
    lemma_residue(5, manager@.session.client_private_key);
}

/// A server that returns the proof of the session key, in an answer that is in order, is believed.
pub proof fn law_proved_session_is_kept(
    manager: &ApplePasswordManager,
    shared_key: BigUint,
    client_proof: &Vec<u8>,
    response: &JsonValue,
    r: Result<WriteConfigInput>,
)
    ensures
        call_ensures(
            ApplePasswordManager::accept_verification,
            (manager, shared_key, client_proof, response),
            r,
        ) && answer_of(response@) is Some && in_order(
            answer_of(response@)->0,
            manager@.session.username,
            3,
        ) ==> {
            let session = manager@.session;
            let message = answer_of(response@)->0;
            let returned = returned_proof(
                residue(5, session.client_private_key),
                client_proof@,
                session.shared_key->0,
            );
            &&& message.get("ErrCode"@) is None && session.should_use_base64
                && session.shared_key is Some && returned.len() > 0 && (message.get(
                "HAMK"@,
            ) matches Some(Json::Str(text)) && trimmed(text).len() > 0 && base64_bytes(text)
                == Some(returned)) ==> r is Ok
            &&& message.get("ErrCode"@) == Some(Json::Int(1)) && message.get("HAMK"@) is None
                ==> fails(r, Status::InvalidSession, "Incorrect PIN."@)
        },
{
    lemma_exchange_names();
    lemma_residue(5, manager@.session.client_private_key);
}

/// The message that is read from an object has its members as its parts; and an object is such a
/// message where its texts are text and its numbers are there.
pub proof fn law_message_has_its_parts(value: &JsonValue, r: Result<PAKEMessage>)
    ensures
        call_ensures(parse_pake_message_to_struct, (value,), r) && value@ is Obj ==> {
            &&& r is Ok ==> {
                let message = r->Ok_0;
                &&& value@.get("TID"@) == Some(Json::Str(message.TID@))
                &&& value@.get("MSG"@) == Some(message.MSG@)
                &&& value@.get("A"@) == Some(Json::Str(message.A@))
                &&& value@.get("s"@) == Some(Json::Str(message.s@))
                &&& value@.get("B"@) == Some(Json::Str(message.B@))
                &&& value@.get("PROTO"@) == Some(message.PROTO@)
                &&& message.HAMK matches Some(text) ==> value@.get("HAMK"@) == Some(
                    Json::Str(text@),
                )
                &&& message.HAMK is None ==> value@.get("HAMK"@) is None || value@.get("HAMK"@)
                    == Some(Json::Null)
                &&& message.VER matches Some(version) ==> value@.get("VER"@) == Some(version@)
                &&& message.ErrCode matches Some(code) ==> value@.get("ErrCode"@) == Some(code@)
            }
            &&& (value@.get("TID"@) matches Some(Json::Str(_))) && value@.get("MSG"@) is Some && (
            value@.get("A"@) matches Some(Json::Str(_))) && (value@.get("s"@) matches Some(
                Json::Str(_),
            )) && (value@.get("B"@) matches Some(Json::Str(_))) && value@.get("PROTO"@) is Some
                && value@.get("HAMK"@) is None ==> r is Ok
            &&& r is Err ==> r->Err_0.code == Status::ProtoInvalidResponse
        },
{
}

/// An acceptable message names a session, both keys and the salt, and its step and its protocol are
/// numbers.
pub proof fn law_acceptable_message_is_filled_in(value: &JsonValue, r: bool)
    ensures
        call_ensures(is_valid_pake_message, (value,), r) && value@ is Obj && r ==> {
            &&& value@.get("TID"@) matches Some(Json::Str(text)) && trimmed(text).len() > 0
            &&& value@.get("A"@) matches Some(Json::Str(text)) && trimmed(text).len() > 0
            &&& value@.get("s"@) matches Some(Json::Str(text)) && trimmed(text).len() > 0
            &&& value@.get("B"@) matches Some(Json::Str(text)) && trimmed(text).len() > 0
            &&& value@.get("MSG"@) is Some && !(value@.get("MSG"@)->0 is Null)
            &&& value@.get("PROTO"@) is Some && !(value@.get("PROTO"@)->0 is Null)
        },
        call_ensures(is_valid_pake_message, (value,), r) && (value@ is Null || value@ is Str || value@
            is Int || value@ is Bool) ==> !r,
{
}

/// An encrypted payload is the nonce, the ciphertext and the tag, and a plaintext is what the cipher
/// gave. A cipher that failed gives nothing.
pub proof fn law_cipher_result_is_taken(
    nonce: &Vec<u8>,
    sealed: std::result::Result<(Vec<u8>, Vec<u8>), CipherFailure>,
    payload: Result<Vec<u8>>,
    opened: std::result::Result<Vec<u8>, CipherFailure>,
    plain: Result<Vec<u8>>,
)
    ensures
        call_ensures(assemble_payload, (nonce, sealed), payload) ==> {
            &&& payload is Ok <==> sealed is Ok
            &&& sealed is Ok && nonce@.len() == 16 && sealed->Ok_0.1@.len() == 16 ==> {
                let bytes = payload->Ok_0@;
                let n = bytes.len() as int;
                &&& bytes.subrange(0, 16) == nonce@
                &&& bytes.subrange(16, n - 16) == sealed->Ok_0.0@
                &&& bytes.subrange(n - 16, n) == sealed->Ok_0.1@
            }
        },
        call_ensures(accept_plaintext, (opened,), plain) ==> {
            &&& plain is Ok <==> opened is Ok
            &&& opened is Ok ==> plain->Ok_0@ == opened->Ok_0@
        },
{
    if call_ensures(assemble_payload, (nonce, sealed), payload) && sealed is Ok && nonce@.len() == 16
        && sealed->Ok_0.1@.len() == 16 {
        let bytes = payload->Ok_0@;
        let n = bytes.len() as int;
        assert(bytes.subrange(0, 16) =~= nonce@);
        assert(bytes.subrange(16, n - 16) =~= sealed->Ok_0.0@);
        assert(bytes.subrange(n - 16, n) =~= sealed->Ok_0.1@);
    }
}

} // verus!
