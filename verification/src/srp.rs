//! The key exchange: the client's side of the Secure Remote Password protocol, and the
//! authenticated encryption under the key that it agrees on.
pub use crate::codec::decode_base64_or_hex;
pub use crate::codec::decode_base64_or_hex as base64_decode_numeric;
use crate::bignum::{
    be_bytes, be_value, lemma_power_natural, mod_, power_mod, power_residue, BigUint,
};
use crate::codec::{
    base64_bytes, base64_text, decode_with_fallback, fallback_bytes, hex_text,
    law_bare_hex_decodes, law_prefixed_hex_decodes, to_base64, to_hex,
};
use crate::crypto::{
    constant_time_eq, gcm_decrypt, gcm_encrypt, gcm_sealed, random_bytes, sha256, sha256_digest,
    CipherFailure, GCM_TAG_BYTES, KEY_BYTES, MAX_CIPHER_BYTES, NONCE_BYTES,
};
use crate::error::{fails, APWError, Result};
use crate::json::{json_parsed, json_text, plain, to_json, Json, JsonNumber, JsonValue};
use crate::text::{cat, integer_of, opt_text, owned, parse_i64, trim, trimmed};
use crate::types::{
    msg_number, opt_json, version_number, MSGTypes, PAKEMessage, SecretSessionVersion, Status,
    PAKE_FIELD_A, PAKE_FIELD_B, PAKE_FIELD_ERR_CODE, PAKE_FIELD_HAMK, PAKE_FIELD_MSG,
    PAKE_FIELD_PROTO, PAKE_FIELD_S, PAKE_FIELD_TID, PAKE_FIELD_VER,
};
use crate::utils::{pad, padded};
use vstd::arithmetic::power::{
    lemma_pow0, lemma_pow1, lemma_pow_adds, lemma_pow_mod_noop, lemma_pow_multiplies, pow,
};
use vstd::prelude::*;
use vstd::utf8::encode_utf8;

verus! {

/// The length to which numbers of the group are padded.
pub const GROUP_PRIME_BYTES: usize = 384;

/// The generator of the group.
pub const GROUP_GENERATOR: u8 = 5;

pub const DEFAULT_VERSION: &'static str = "1.0.1";

pub const MISSING_KEY: &'static str = "Missing encryption key. Reauthenticate with `apw auth`.";

/// The modulus of the group in digits of 64 bits, the highest first.
pub open spec fn group_limbs() -> Seq<u64> {
    seq![
        0x000000000FFFFFFF, 0xFFFFFFFFFC90FDAA, 0x22168C234C4C6628, 0xB80DC1CD129024E0,
        0x88A67CC74020BBEA, 0x63B139B225140870, 0x98E3404DDEF9519B, 0x3CD3A431B302B0A6,
        0xDF25F14374FE1356, 0xD6D51C245E485B57, 0x6625E7EC6F44C42E, 0x9A637ED6B0BFF5CB,
        0x6F406B7EDEE386BF, 0xB5A899FA5AE9F241, 0x17C4B1FE64928665, 0x1ECE45B3DC2007CB,
        0x8A163BF0598DA483, 0x61C55D39A69163FA, 0x8FD24CF5F83655D2, 0x3DCA3AD96E1C62F3,
        0x56208552BB9ED529, 0x077096966D670C35, 0x4E4ABC9804F1746C, 0x08CA18217C32905E,
        0x462E36CE3BE39E77, 0x2C180E86039B2783, 0xA2EC07A28FB5C55D, 0xF06F4C52C9DE2BCB,
        0x695817183995497C, 0xEA956AE515D22618, 0x98FA0510F15728E5, 0xA8AAC42DAD33170D,
        0x04507A33A85521AB, 0xD1CBA64ECFB85045, 0x8DBEF0A8AEA71575, 0xD060C7DB3970F85A,
        0x6E1E4C7ABF5AE8CD, 0xB0933D71C94C4A25, 0x619DCEE3E2261AD2, 0xEE6BF12FFA06D98A,
        0x0864D87602733EC8, 0x6A64521F2B18177B, 0x200CBBE117577615, 0xD6C770988CBD946E,
        0x208E24FA074E5AB3, 0x143DB5BFE0FD108E, 0x4B82D120A93AD2CA, 0xFFFFFFFFFFFFFFFF,
    ]
}

/// The number that digits of 64 bits write, the highest first.
pub open spec fn limbs_value(limbs: Seq<u64>) -> nat
    decreases limbs.len(),
{
    if limbs.len() == 0 {
        0
    } else {
        limbs_value(limbs.subrange(0, limbs.len() - 1)) * 0x1_0000_0000_0000_0000 + limbs[limbs.len()
            - 1] as nat
    }
}

/// The modulus of the group.
pub open spec fn group_modulus() -> nat {
    limbs_value(group_limbs())
}

/// The modulus of the group is above one.
pub proof fn lemma_group_modulus()
    ensures
        group_modulus() > 1,
{
    let limbs = group_limbs();
    assert(limbs[limbs.len() - 1] == 0xFFFFFFFFFFFFFFFFu64);
}

fn bytes_of_u64(n: u64) -> (r: Vec<u8>)
    ensures
        be_value(r@) == n,
    decreases n,
{
    let mut out = if n < 256 {
        Vec::new()
    } else {
        bytes_of_u64(n / 256)
    };
    let ghost front = out@;
    proof {
        assert(be_value(front) == n / 256);
    }
    out.push((n % 256) as u8);
    proof {
        assert(out@.subrange(0, out@.len() - 1) =~= front);
    }
    out
}

/// The modulus of the group.
pub fn group_prime() -> (r: BigUint)
    ensures
        r@ == group_modulus(),
{
    let limbs: [u64; 48] = [
        0x000000000FFFFFFF, 0xFFFFFFFFFC90FDAA, 0x22168C234C4C6628, 0xB80DC1CD129024E0,
        0x88A67CC74020BBEA, 0x63B139B225140870, 0x98E3404DDEF9519B, 0x3CD3A431B302B0A6,
        0xDF25F14374FE1356, 0xD6D51C245E485B57, 0x6625E7EC6F44C42E, 0x9A637ED6B0BFF5CB,
        0x6F406B7EDEE386BF, 0xB5A899FA5AE9F241, 0x17C4B1FE64928665, 0x1ECE45B3DC2007CB,
        0x8A163BF0598DA483, 0x61C55D39A69163FA, 0x8FD24CF5F83655D2, 0x3DCA3AD96E1C62F3,
        0x56208552BB9ED529, 0x077096966D670C35, 0x4E4ABC9804F1746C, 0x08CA18217C32905E,
        0x462E36CE3BE39E77, 0x2C180E86039B2783, 0xA2EC07A28FB5C55D, 0xF06F4C52C9DE2BCB,
        0x695817183995497C, 0xEA956AE515D22618, 0x98FA0510F15728E5, 0xA8AAC42DAD33170D,
        0x04507A33A85521AB, 0xD1CBA64ECFB85045, 0x8DBEF0A8AEA71575, 0xD060C7DB3970F85A,
        0x6E1E4C7ABF5AE8CD, 0xB0933D71C94C4A25, 0x619DCEE3E2261AD2, 0xEE6BF12FFA06D98A,
        0x0864D87602733EC8, 0x6A64521F2B18177B, 0x200CBBE117577615, 0xD6C770988CBD946E,
        0x208E24FA074E5AB3, 0x143DB5BFE0FD108E, 0x4B82D120A93AD2CA, 0xFFFFFFFFFFFFFFFF,
    ];
    proof {
        assert(limbs@ =~= group_limbs());
    }
    let root = BigUint::from_bytes_be(bytes_of_u64(0x1_0000_0000).as_slice());
    let shift = root.times(&root);
    proof {
        assert(root@ * root@ == 0x1_0000_0000_0000_0000) by (nonlinear_arith)
            requires
                root@ == 0x1_0000_0000,
        ;
    }
    let mut value = BigUint::zero();
    let mut i: usize = 0;
    while i < 48
        invariant
            i <= 48,
            limbs@ == group_limbs(),
            limbs@.len() == 48,
            shift@ == 0x1_0000_0000_0000_0000,
            value@ == limbs_value(limbs@.subrange(0, i as int)),
        decreases 48 - i,
    {
        let digit = BigUint::from_bytes_be(bytes_of_u64(limbs[i]).as_slice());
        value = value.times(&shift).plus(&digit);
        proof {
            let upto = limbs@.subrange(0, i + 1);
            assert(upto.subrange(0, upto.len() - 1) =~= limbs@.subrange(0, i as int));
        }
        i = i + 1;
    }
    proof {
        assert(limbs@.subrange(0, 48) =~= limbs@);
    }
    value
}

/// A number's bytes at the length of the group's numbers.
pub open spec fn group_bytes(n: nat) -> Seq<u8> {
    padded(be_bytes(n), GROUP_PRIME_BYTES as int)
}

fn pad_number(n: &BigUint) -> (r: Vec<u8>)
    ensures
        r@ == group_bytes(n@),
{
    let bytes = n.to_bytes_be();
    pad(bytes.as_slice(), GROUP_PRIME_BYTES)
}

fn join2(a: &Vec<u8>, b: &Vec<u8>) -> (r: Vec<u8>)
    ensures
        r@ == a@ + b@,
{
    let mut out: Vec<u8> = Vec::new();
    out.extend_from_slice(a.as_slice());
    out.extend_from_slice(b.as_slice());
    proof {
        assert(out@ =~= a@ + b@);
    }
    out
}

/// The multiplier of the protocol: the digest of the modulus and the generator.
pub open spec fn multiplier_value() -> nat {
    be_value(sha256_digest(group_bytes(group_modulus()) + group_bytes(GROUP_GENERATOR as nat)))
}

fn multiplier() -> (r: BigUint)
    ensures
        r@ == multiplier_value(),
{
    let input = join2(
        &pad_number(&group_prime()),
        &pad_number(&BigUint::from_byte(GROUP_GENERATOR)),
    );
    BigUint::from_bytes_be(sha256(input.as_slice()).as_slice())
}

/// The number that a token of a message stands for: an integer, the text of one, or the first
/// item of an array of tokens.
pub open spec fn numeric_token(value: Json) -> Option<i64>
    decreases value,
{
    match value {
        Json::Int(_) => value.as_i64(),
        Json::Str(text) => integer_of(text),
        Json::Arr(items) => if items.len() > 0 {
            numeric_token(items[0])
        } else {
            None
        },
        _ => None,
    }
}

fn parse_numeric_token(value: &JsonValue) -> (r: Option<i64>)
    ensures
        r == numeric_token(value@),
    decreases value,
{
    match value {
        JsonValue::Number(_) => value.as_i64(),
        JsonValue::String(text) => parse_i64(text.as_str()),
        JsonValue::Array(items) => {
            if items.len() > 0 {
                proof {
                    assert(decreases_to!(items => items@));
                    assert(decreases_to!(items@ => items@[0]));
                    assert(value@->Arr_0[0] == items@[0]@);
                }
                parse_numeric_token(&items[0])
            } else {
                None
            }
        },
        _ => None,
    }
}

/// The number that a token of a message stands for.
pub fn parse_pake_message_code(value: &JsonValue) -> (r: Option<i64>)
    ensures
        r == numeric_token(value@),
{
    parse_numeric_token(value)
}

/// The number that a token of a message stands for.
pub fn parse_pake_message_type(value: &JsonValue) -> (r: Option<i64>)
    ensures
        r == numeric_token(value@),
{
    parse_numeric_token(value)
}

/// A part of a record: by its name in an object, by its place in an array of as many items as the
/// record has parts.
pub open spec fn record_part(record: Json, place: int, name: Seq<char>) -> Option<Json> {
    match record {
        Json::Arr(items) => Some(items[place]),
        _ => record.get(name),
    }
}

/// Whether a value is a record of so many parts: an object, or an array of that length.
pub open spec fn is_record(record: Json, parts: int) -> bool {
    match record {
        Json::Arr(items) => items.len() == parts,
        Json::Obj(_) => true,
        _ => false,
    }
}

/// Whether a value is a record of so many parts.
pub(crate) fn check_record(record: &JsonValue, parts: usize) -> (r: bool)
    ensures
        r == is_record(record@, parts as int),
{
    match record {
        JsonValue::Array(items) => items.len() == parts,
        JsonValue::Object(_) => true,
        _ => false,
    }
}

/// A part of a record.
pub(crate) fn get_part<'a>(
    record: &'a JsonValue,
    parts: usize,
    place: usize,
    name: &str,
) -> (r: Option<&'a JsonValue>)
    requires
        is_record(record@, parts as int),
        place < parts,
    ensures
        r is Some == (record_part(record@, place as int, name@) is Some),
        r is Some ==> record_part(record@, place as int, name@) == Some(r->0@),
{
    match record {
        JsonValue::Array(items) => {
            proof {
                assert(record@->Arr_0[place as int] == items@[place as int]@);
            }
            Some(&items[place])
        },
        _ => record.get(name),
    }
}

/// The text of a part that has to be text.
pub open spec fn text_part(part: Option<Json>) -> Option<Seq<char>> {
    match part {
        Some(value) => value.as_str(),
        None => None,
    }
}

/// The text of a part that has to be text.
pub(crate) fn get_text(part: Option<&JsonValue>) -> (r: Option<String>)
    ensures
        opt_text(r) == text_part(
            match part {
                Some(value) => Some(value@),
                None => None,
            },
        ),
{
    match part {
        Some(value) => match value.as_str() {
            Some(text) => Some(owned(text.as_str())),
            None => None,
        },
        None => None,
    }
}

/// A part that may be left out or null.
pub open spec fn optional_part(part: Option<Json>) -> Option<Json> {
    match part {
        Some(Json::Null) => None,
        _ => part,
    }
}

/// Whether a part is left out, null or text.
pub open spec fn optional_text_ok(part: Option<Json>) -> bool {
    match optional_part(part) {
        Some(value) => value is Str,
        None => true,
    }
}

/// Whether a value has the form of a message of the key exchange.
pub open spec fn is_pake_form(value: Json) -> bool {
    &&& is_record(value, 9)
    &&& text_part(record_part(value, 0, PAKE_FIELD_TID@)) is Some
    &&& record_part(value, 1, PAKE_FIELD_MSG@) is Some
    &&& text_part(record_part(value, 2, PAKE_FIELD_A@)) is Some
    &&& text_part(record_part(value, 3, PAKE_FIELD_S@)) is Some
    &&& text_part(record_part(value, 4, PAKE_FIELD_B@)) is Some
    &&& record_part(value, 6, PAKE_FIELD_PROTO@) is Some
    &&& optional_text_ok(record_part(value, 7, PAKE_FIELD_HAMK@))
}

/// Whether a message of the key exchange has the parts that a value writes.
pub open spec fn pake_parts(message: PAKEMessage, value: Json) -> bool {
    &&& text_part(record_part(value, 0, PAKE_FIELD_TID@)) == Some(message.TID@)
    &&& record_part(value, 1, PAKE_FIELD_MSG@) == Some(message.MSG@)
    &&& text_part(record_part(value, 2, PAKE_FIELD_A@)) == Some(message.A@)
    &&& text_part(record_part(value, 3, PAKE_FIELD_S@)) == Some(message.s@)
    &&& text_part(record_part(value, 4, PAKE_FIELD_B@)) == Some(message.B@)
    &&& optional_part(record_part(value, 5, PAKE_FIELD_VER@)) == opt_json(message.VER)
    &&& record_part(value, 6, PAKE_FIELD_PROTO@) == Some(message.PROTO@)
    &&& text_part(optional_part(record_part(value, 7, PAKE_FIELD_HAMK@))) == opt_text(message.HAMK)
    &&& optional_part(record_part(value, 8, PAKE_FIELD_ERR_CODE@)) == opt_json(message.ErrCode)
}

fn copy_optional(part: Option<&JsonValue>) -> (r: Option<JsonValue>)
    ensures
        opt_json(r) == optional_part(
            match part {
                Some(value) => Some(value@),
                None => None,
            },
        ),
{
    match part {
        Some(value) => if value.is_null() {
            None
        } else {
            Some(value.copy())
        },
        None => None,
    }
}

fn bad_pake<T>() -> (r: Result<T>)
    ensures
        fails(r, Status::ProtoInvalidResponse, "Invalid PAKE message payload."@),
{
    Err(APWError::new(Status::ProtoInvalidResponse, "Invalid PAKE message payload."))
}

/// The message of the key exchange that a value writes.
pub fn parse_pake_message_to_struct(value: &JsonValue) -> (r: Result<PAKEMessage>)
    ensures
        if is_pake_form(value@) {
            r is Ok && pake_parts(r->Ok_0, value@)
        } else {
            fails(r, Status::ProtoInvalidResponse, "Invalid PAKE message payload."@)
        },
{
    if !check_record(value, 9) {
        return bad_pake();
    }
    let tid = get_text(get_part(value, 9, 0, PAKE_FIELD_TID));
    let msg = get_part(value, 9, 1, PAKE_FIELD_MSG);
    let a = get_text(get_part(value, 9, 2, PAKE_FIELD_A));
    let salt = get_text(get_part(value, 9, 3, PAKE_FIELD_S));
    let b = get_text(get_part(value, 9, 4, PAKE_FIELD_B));
    let ver = copy_optional(get_part(value, 9, 5, PAKE_FIELD_VER));
    let proto = get_part(value, 9, 6, PAKE_FIELD_PROTO);
    let hamk_part = copy_optional(get_part(value, 9, 7, PAKE_FIELD_HAMK));
    let err_code = copy_optional(get_part(value, 9, 8, PAKE_FIELD_ERR_CODE));
    let hamk = match &hamk_part {
        Some(part) => match part.as_str() {
            Some(text) => Some(owned(text.as_str())),
            None => {
                return bad_pake();
            },
        },
        None => None,
    };
    match (tid, msg, a, salt, b, proto) {
        (Some(tid), Some(msg), Some(a), Some(salt), Some(b), Some(proto)) => Ok(
            PAKEMessage {
                TID: tid,
                MSG: msg.copy(),
                A: a,
                s: salt,
                B: b,
                VER: ver,
                PROTO: proto.copy(),
                HAMK: hamk,
                ErrCode: err_code,
            },
        ),
        _ => bad_pake(),
    }
}

/// Whether text is more than white space.
pub open spec fn not_blank(text: Seq<char>) -> bool {
    trimmed(text).len() > 0
}

fn is_not_blank(text: &String) -> (r: bool)
    ensures
        r == not_blank(text@),
{
    let inner = trim(text.as_str());
    !inner.as_str().is_empty()
}

/// Whether a value is an acceptable message of the key exchange: its texts are not blank, its
/// numeric parts are numbers, and its version is neither empty text nor a number out of range.
pub open spec fn valid_pake(value: Json) -> bool {
    &&& is_pake_form(value)
    &&& not_blank(text_part(record_part(value, 0, PAKE_FIELD_TID@))->0)
    &&& numeric_token(record_part(value, 1, PAKE_FIELD_MSG@)->0) is Some
    &&& not_blank(text_part(record_part(value, 2, PAKE_FIELD_A@))->0)
    &&& not_blank(text_part(record_part(value, 3, PAKE_FIELD_S@))->0)
    &&& not_blank(text_part(record_part(value, 4, PAKE_FIELD_B@))->0)
    &&& numeric_token(record_part(value, 6, PAKE_FIELD_PROTO@)->0) is Some
    &&& match text_part(optional_part(record_part(value, 7, PAKE_FIELD_HAMK@))) {
        Some(hamk) => not_blank(hamk),
        None => true,
    }
    &&& match optional_part(record_part(value, 8, PAKE_FIELD_ERR_CODE@)) {
        Some(code) => numeric_token(code) is Some,
        None => true,
    }
    &&& match optional_part(record_part(value, 5, PAKE_FIELD_VER@)) {
        Some(Json::Str(text)) => text.len() > 0,
        Some(Json::Int(n)) => i64::MIN <= n <= i64::MAX,
        Some(Json::Fraction(_)) => false,
        _ => true,
    }
}

/// Whether a value is an acceptable message of the key exchange.
pub fn is_valid_pake_message(candidate: &JsonValue) -> (r: bool)
    ensures
        r == valid_pake(candidate@),
{
    let message = match parse_pake_message_to_struct(candidate) {
        Ok(message) => message,
        Err(_) => {
            return false;
        },
    };
    if !is_not_blank(&message.TID) {
        return false;
    }
    if parse_numeric_token(&message.MSG).is_none() {
        return false;
    }
    if !is_not_blank(&message.A) || !is_not_blank(&message.s) || !is_not_blank(&message.B) {
        return false;
    }
    if parse_numeric_token(&message.PROTO).is_none() {
        return false;
    }
    match &message.HAMK {
        Some(hamk) => {
            if !is_not_blank(hamk) {
                return false;
            }
        },
        None => {},
    }
    match &message.ErrCode {
        Some(code) => {
            if parse_numeric_token(code).is_none() {
                return false;
            }
        },
        None => {},
    }
    match &message.VER {
        Some(JsonValue::String(text)) => !text.as_str().is_empty(),
        Some(JsonValue::Number(number)) => match number {
            JsonNumber::Unsigned(n) => *n <= i64::MAX as u64,
            JsonNumber::Negative(_) => true,
            JsonNumber::Fraction(_) => false,
        },
        _ => true,
    }
}

/// Values of a session, as far as they are known.
#[derive(Debug)]
pub struct SessionValues {
    pub username: Option<String>,
    pub shared_key: Option<BigUint>,
    pub client_private_key: Option<BigUint>,
    pub salt: Option<BigUint>,
    pub server_public_key: Option<BigUint>,
}

/// The client's side of a session.
#[derive(Debug)]
pub struct SRPSession {
    pub username: String,
    client_private_key: BigUint,
    server_public_key: Option<BigUint>,
    salt: Option<BigUint>,
    shared_key: Option<BigUint>,
    should_use_base64: bool,
}

/// The model of a session.
#[verifier::ext_equal]
pub struct SessionModel {
    pub username: Seq<char>,
    pub client_private_key: nat,
    pub server_public_key: Option<nat>,
    pub salt: Option<nat>,
    pub shared_key: Option<nat>,
    pub should_use_base64: bool,
}

/// The model of the known values of a session.
#[verifier::ext_equal]
pub struct ValuesModel {
    pub username: Option<Seq<char>>,
    pub shared_key: Option<nat>,
    pub client_private_key: Option<nat>,
    pub salt: Option<nat>,
    pub server_public_key: Option<nat>,
}

/// The value of an optional number.
pub open spec fn opt_number(n: Option<BigUint>) -> Option<nat> {
    match n {
        Some(n) => Some(n@),
        None => None,
    }
}

impl View for SRPSession {
    type V = SessionModel;

    closed spec fn view(&self) -> SessionModel {
        SessionModel {
            username: self.username@,
            client_private_key: self.client_private_key@,
            server_public_key: opt_number(self.server_public_key),
            salt: opt_number(self.salt),
            shared_key: opt_number(self.shared_key),
            should_use_base64: self.should_use_base64,
        }
    }
}

impl View for SessionValues {
    type V = ValuesModel;

    open spec fn view(&self) -> ValuesModel {
        ValuesModel {
            username: opt_text(self.username),
            shared_key: opt_number(self.shared_key),
            client_private_key: opt_number(self.client_private_key),
            salt: opt_number(self.salt),
            server_public_key: opt_number(self.server_public_key),
        }
    }
}

fn copy_number(n: &Option<BigUint>) -> (r: Option<BigUint>)
    ensures
        opt_number(r) == opt_number(*n),
{
    match n {
        Some(n) => Some(n.copy()),
        None => None,
    }
}

/// A session with the known values put in.
pub open spec fn updated(session: SessionModel, values: ValuesModel) -> SessionModel {
    SessionModel {
        username: match values.username {
            Some(username) => username,
            None => session.username,
        },
        client_private_key: match values.client_private_key {
            Some(key) => key,
            None => session.client_private_key,
        },
        server_public_key: if values.server_public_key is Some {
            values.server_public_key
        } else {
            session.server_public_key
        },
        salt: if values.salt is Some {
            values.salt
        } else {
            session.salt
        },
        shared_key: if values.shared_key is Some {
            values.shared_key
        } else {
            session.shared_key
        },
        should_use_base64: session.should_use_base64,
    }
}

/// The values of a session.
pub open spec fn values_of(session: SessionModel) -> ValuesModel {
    ValuesModel {
        username: Some(session.username),
        shared_key: session.shared_key,
        client_private_key: Some(session.client_private_key),
        salt: session.salt,
        server_public_key: session.server_public_key,
    }
}

/// Putting the values of a session into a session without values of its own makes it that session.
pub proof fn law_values_round_trip(from: SessionModel, into: SessionModel)
    requires
        into.server_public_key is None,
        into.salt is None,
        into.shared_key is None,
        into.should_use_base64 == from.should_use_base64,
    ensures
        updated(into, values_of(from)) == from,
{
}

/// The client's public key.
pub open spec fn public_key(session: SessionModel) -> nat {
    power_mod(GROUP_GENERATOR as nat, session.client_private_key, group_modulus())
}

/// The digest of both public keys.
pub open spec fn scramble(session: SessionModel) -> Seq<u8> {
    sha256_digest(
        group_bytes(public_key(session)) + group_bytes(session.server_public_key->0),
    )
}

/// The secret exponent: the digest of the salt and of the digest of user and password.
pub open spec fn password_exponent(username: Seq<char>, password: Seq<char>, salt: nat) -> nat {
    be_value(
        sha256_digest(
            group_bytes(salt) + sha256_digest(encode_utf8(username + ":"@ + password)),
        ),
    )
}

/// The difference of two numbers modulo a third.
pub open spec fn difference_mod(a: nat, b: nat, m: nat) -> nat {
    ((a - b) % (m as int)) as nat
}

/// The base of the shared secret: the server's public key less the masked verifier.
pub open spec fn unmasked(session: SessionModel, password: Seq<char>) -> nat {
    let x = password_exponent(session.username, password, session.salt->0);
    difference_mod(
        session.server_public_key->0,
        multiplier_value() * power_mod(GROUP_GENERATOR as nat, x, group_modulus()),
        group_modulus(),
    )
}

/// The secret that both sides compute.
pub open spec fn shared_secret(session: SessionModel, password: Seq<char>) -> nat {
    let x = password_exponent(session.username, password, session.salt->0);
    let u = be_value(scramble(session));
    power_mod(
        unmasked(session, password),
        session.client_private_key + u * x,
        group_modulus(),
    )
}

/// The session key that is made of a secret: its digest.
pub open spec fn key_of_secret(secret: nat) -> nat {
    be_value(sha256_digest(be_bytes(secret)))
}

/// The session key: the digest of the shared secret.
pub open spec fn session_key(session: SessionModel, password: Seq<char>) -> nat {
    key_of_secret(shared_secret(session, password))
}

/// What deriving the session key from a password comes to: the key, or what the session lacks, or
/// that the server's public key is refused.
pub open spec fn derives(session: SessionModel, password: Seq<char>, r: Result<BigUint>) -> bool {
    if session.server_public_key is None {
        fails(r, Status::InvalidSession, "Invalid session state: missing server values"@)
    } else if session.salt is None {
        fails(r, Status::InvalidSession, "Invalid session state: missing session values"@)
    } else if unmasked(session, password) == 0 {
        fails(r, Status::ServerError, "Invalid server hello: invalid public key"@)
    } else {
        r is Ok && r->Ok_0@ == session_key(session, password)
    }
}

/// The bytes of two byte strings, each one of the first combined with the same of the second.
pub open spec fn xored(a: Seq<u8>, b: Seq<u8>) -> Seq<u8> {
    Seq::new(a.len(), |i: int| a[i] ^ b[i])
}

/// The client's proof that it knows the session key.
pub open spec fn client_proof(session: SessionModel) -> Seq<u8> {
    sha256_digest(
        xored(
            sha256_digest(group_bytes(group_modulus())),
            sha256_digest(group_bytes(GROUP_GENERATOR as nat)),
        ) + sha256_digest(encode_utf8(session.username)) + group_bytes(session.salt->0)
            + group_bytes(public_key(session)) + group_bytes(session.server_public_key->0)
            + group_bytes(session.shared_key->0) + scramble(session),
    )
}

/// The server's proof that it knows the session key, in answer to the client's.
pub open spec fn server_proof(session: SessionModel, proof_bytes: Seq<u8>) -> Seq<u8> {
    sha256_digest(be_bytes(public_key(session)) + proof_bytes + be_bytes(session.shared_key->0))
}

/// Whether bytes are a nonce, a ciphertext and its tag, made of a plaintext under a key.
pub open spec fn seals(key: Seq<u8>, plain: Seq<u8>, payload: Seq<u8>) -> bool {
    payload.len() >= NONCE_BYTES + GCM_TAG_BYTES && gcm_sealed(key, payload_nonce(payload), plain)
        == (payload_body(payload), payload_tag(payload))
}

/// Whether a plaintext is the one that seals to a payload under a key.
pub open spec fn opens(key: Seq<u8>, payload: Seq<u8>, opened: Seq<u8>) -> bool {
    &&& seals(key, opened, payload)
    &&& forall|plain: Seq<u8>| #[trigger] seals(key, plain, payload) ==> plain == opened
}

/// Whether a payload is made of JSON text of a value under a key.
pub open spec fn conveys(key: Seq<u8>, value: Json, payload: Seq<u8>) -> bool {
    exists|text: Seq<u8>| #[trigger] seals(key, text, payload) && json_parsed(text) == Some(value)
}

/// What was encrypted comes back when it is decrypted under the same key: the same bytes, and in
/// them the same value.
pub proof fn law_sealed_payload_opens(
    key: Seq<u8>,
    plain: Seq<u8>,
    value: Json,
    payload: Seq<u8>,
    opened: Seq<u8>,
)
    ensures
        opens(key, payload, opened) && seals(key, plain, payload) ==> opened == plain,
        opens(key, payload, opened) && conveys(key, value, payload) ==> json_parsed(opened) == Some(
            value,
        ),
{
}

/// Whether a result is an error of the cipher on the way out.
pub open spec fn encryption_fails<T>(r: Result<T>) -> bool {
    fails(r, Status::ServerError, "Invalid encryption key."@) || fails(
        r,
        Status::ServerError,
        "Encryption failed."@,
    )
}

/// Whether a result is an error of the cipher on the way in.
pub open spec fn decryption_fails<T>(r: Result<T>) -> bool {
    fails(r, Status::ServerError, "Invalid encryption key."@) || fails(
        r,
        Status::ProtoInvalidResponse,
        "Failed to decrypt payload."@,
    )
}

/// What encrypting a value in a session comes to: its JSON text, sealed under the session key, with
/// a nonce in front and a tag behind it; or the error of the session or of the cipher.
pub open spec fn encrypts(session: SessionModel, value: Json, r: Result<Vec<u8>>) -> bool {
    if session.shared_key is None {
        fails(r, Status::InvalidSession, MISSING_KEY@)
    } else if !key_long_enough(session.shared_key->0) {
        fails(r, Status::ServerError, "Shared key too short."@)
    } else {
        let key = cipher_key(session.shared_key->0);
        &&& r is Ok ==> seals(key, json_text(value), r->Ok_0@)
        &&& r is Ok ==> r->Ok_0@.len() == json_text(value).len() + NONCE_BYTES + GCM_TAG_BYTES
        &&& r is Ok ==> r->Ok_0@.len() > NONCE_BYTES + GCM_TAG_BYTES
        &&& r is Ok && plain(value, 100) ==> conveys(key, value, r->Ok_0@)
        &&& r is Err ==> encryption_fails(r)
    }
}

/// What decrypting a payload in a session comes to: the one plaintext that seals to it under the
/// session key; or the error of the session, of the payload's length or of the cipher.
pub open spec fn decrypts(session: SessionModel, payload: Seq<u8>, r: Result<Vec<u8>>) -> bool {
    if session.shared_key is None {
        fails(r, Status::InvalidSession, MISSING_KEY@)
    } else if payload.len() <= NONCE_BYTES {
        fails(r, Status::ProtoInvalidResponse, "Invalid server response payload."@)
    } else if !key_long_enough(session.shared_key->0) {
        fails(r, Status::ServerError, "Shared key too short."@)
    } else if payload.len() <= NONCE_BYTES + GCM_TAG_BYTES {
        fails(r, Status::ProtoInvalidResponse, "Invalid server response payload."@)
    } else {
        &&& r is Ok ==> opens(cipher_key(session.shared_key->0), payload, r->Ok_0@)
        &&& r is Err ==> decryption_fails(r)
    }
}

/// What a session encrypts it decrypts to the JSON text that went in, 32 bytes shorter than the
/// payload. Only the cipher can keep it from doing so: such a payload is never refused for its
/// length or for the session's key.
pub proof fn law_encrypted_value_decrypts(
    session: SessionModel,
    value: Json,
    sealed: Result<Vec<u8>>,
    opened: Result<Vec<u8>>,
)
    ensures
        encrypts(session, value, sealed) && sealed is Ok && decrypts(
            session,
            sealed->Ok_0@,
            opened,
        ) ==> {
            &&& sealed->Ok_0@.len() == json_text(value).len() + 32
            &&& match opened {
                Ok(text) => {
                    &&& text@ == json_text(value)
                    &&& plain(value, 100) ==> json_parsed(text@) == Some(value)
                },
                Err(_) => decryption_fails(opened),
            }
        },
{
}

/// A payload that has room for nothing but a nonce and a tag is refused.
pub proof fn law_short_payload_is_refused(
    session: SessionModel,
    payload: Seq<u8>,
    r: Result<Vec<u8>>,
)
    requires
        session.shared_key is Some,
        key_long_enough(session.shared_key->0),
        payload.len() <= 32,
    ensures
        decrypts(session, payload, r) ==> fails(
            r,
            Status::ProtoInvalidResponse,
            "Invalid server response payload."@,
        ),
{
}

/// The nonce in front of an encrypted payload.
pub open spec fn payload_nonce(payload: Seq<u8>) -> Seq<u8> {
    payload.subrange(0, NONCE_BYTES as int)
}

/// The ciphertext of an encrypted payload.
pub open spec fn payload_body(payload: Seq<u8>) -> Seq<u8> {
    payload.subrange(NONCE_BYTES as int, payload.len() - GCM_TAG_BYTES)
}

/// The tag behind an encrypted payload.
pub open spec fn payload_tag(payload: Seq<u8>) -> Seq<u8> {
    payload.subrange(payload.len() - GCM_TAG_BYTES, payload.len() as int)
}

/// The cipher key: the first bytes of the session key.
pub open spec fn cipher_key(shared_key: nat) -> Seq<u8> {
    be_bytes(shared_key).subrange(0, KEY_BYTES as int)
}

/// Whether a session key is long enough for the cipher.
pub open spec fn key_long_enough(shared_key: nat) -> bool {
    be_bytes(shared_key).len() >= KEY_BYTES
}

fn front(bytes: &[u8], count: usize) -> (r: Vec<u8>)
    requires
        count <= bytes@.len(),
    ensures
        r@ == bytes@.subrange(0, count as int),
{
    let (first, _rest) = bytes.split_at(count);
    let mut out: Vec<u8> = Vec::new();
    out.extend_from_slice(first);
    proof {
        assert(out@ =~= bytes@.subrange(0, count as int));
    }
    out
}

fn back(bytes: &[u8], from: usize) -> (r: Vec<u8>)
    requires
        from <= bytes@.len(),
    ensures
        r@ == bytes@.subrange(from as int, bytes@.len() as int),
{
    let (_first, rest) = bytes.split_at(from);
    let mut out: Vec<u8> = Vec::new();
    out.extend_from_slice(rest);
    proof {
        assert(out@ =~= bytes@.subrange(from as int, bytes@.len() as int));
    }
    out
}

/// The encrypted payload that a run of the cipher gives under a nonce: the nonce, the ciphertext
/// and the tag.
pub fn assemble_payload(
    nonce: &Vec<u8>,
    sealed: std::result::Result<(Vec<u8>, Vec<u8>), CipherFailure>,
) -> (r: Result<Vec<u8>>)
    ensures
        match sealed {
            Ok((body, tag)) => r is Ok && r->Ok_0@ == nonce@ + body@ + tag@,
            Err(CipherFailure::Setup) => fails(r, Status::ServerError, "Invalid encryption key."@),
            Err(_) => fails(r, Status::ServerError, "Encryption failed."@),
        },
{
    match sealed {
        Ok((body, tag)) => {
            let start = join2(nonce, &body);
            Ok(join2(&start, &tag))
        },
        Err(failure) => match failure {
            CipherFailure::Setup => Err(
                APWError::new(Status::ServerError, "Invalid encryption key."),
            ),
            _ => Err(APWError::new(Status::ServerError, "Encryption failed.")),
        },
    }
}

/// The plaintext that a run of the cipher gives.
pub fn accept_plaintext(opened: std::result::Result<Vec<u8>, CipherFailure>) -> (r: Result<Vec<u8>>)
    ensures
        match opened {
            Ok(plain) => r is Ok && r->Ok_0@ == plain@,
            Err(CipherFailure::Setup) => fails(r, Status::ServerError, "Invalid encryption key."@),
            Err(_) => fails(r, Status::ProtoInvalidResponse, "Failed to decrypt payload."@),
        },
{
    match opened {
        Ok(plain) => Ok(plain),
        Err(failure) => match failure {
            CipherFailure::Setup => Err(
                APWError::new(Status::ServerError, "Invalid encryption key."),
            ),
            _ => Err(
                APWError::new(Status::ProtoInvalidResponse, "Failed to decrypt payload."),
            ),
        },
    }
}

fn no_session<T>(message: &str) -> (r: Result<T>)
    ensures
        fails(r, Status::InvalidSession, message@),
{
    Err(APWError::new(Status::InvalidSession, message))
}

fn bad_payload<T>() -> (r: Result<T>)
    ensures
        fails(r, Status::ProtoInvalidResponse, "Invalid server response payload."@),
{
    Err(APWError::new(Status::ProtoInvalidResponse, "Invalid server response payload."))
}

/// The name of a new session made of random bytes.
pub open spec fn session_name(bytes: Seq<u8>, should_use_base64: bool) -> Seq<char> {
    if should_use_base64 {
        base64_text(bytes)
    } else {
        "0x"@ + hex_text(bytes)
    }
}

/// Whether a session is new: with a name of 16 bytes and a private key of 32, and no values of an
/// exchange.
pub open spec fn fresh_session(session: SessionModel, should_use_base64: bool) -> bool {
    exists|seed: Seq<u8>, name: Seq<u8>|
        seed.len() == 32 && name.len() == 16 && session == (SessionModel {
            username: #[trigger] session_name(name, should_use_base64),
            client_private_key: #[trigger] be_value(seed),
            server_public_key: None,
            salt: None,
            shared_key: None,
            should_use_base64,
        })
}

impl SRPSession {
    /// A session of the given name and private key, before any exchange.
    pub fn from_seed(seed: &[u8], name: &[u8], should_use_base64: bool) -> (r: SRPSession)
        ensures
            r@ == (SessionModel {
                username: session_name(name@, should_use_base64),
                client_private_key: be_value(seed@),
                server_public_key: None,
                salt: None,
                shared_key: None,
                should_use_base64,
            }),
            should_use_base64 ==> base64_bytes(r@.username) == Some(name@),
    {
        SRPSession {
            username: if should_use_base64 {
                to_base64(name)
            } else {
                cat("0x", to_hex(name).as_str())
            },
            client_private_key: BigUint::from_bytes_be(seed),
            server_public_key: None,
            salt: None,
            shared_key: None,
            should_use_base64,
        }
    }

    /// A session with a random name of 16 bytes and a random private key of 32, before any
    /// exchange.
    pub fn new(should_use_base64: bool) -> (r: SRPSession)
        ensures
            fresh_session(r@, should_use_base64),
    {
        let seed = random_bytes(32);
        let name = random_bytes(16);
        let r = SRPSession::from_seed(seed.as_slice(), name.as_slice(), should_use_base64);
        assert(r@.username == session_name(name@, should_use_base64));
        assert(r@.client_private_key == be_value(seed@));
        r
    }

    /// The values of this session.
    pub fn return_values(&self) -> (r: SessionValues)
        ensures
            r@ == values_of(self@),
    {
        SessionValues {
            username: Some(owned(self.username.as_str())),
            shared_key: copy_number(&self.shared_key),
            client_private_key: Some(self.client_private_key.copy()),
            salt: copy_number(&self.salt),
            server_public_key: copy_number(&self.server_public_key),
        }
    }

    /// The session key, once there is one.
    pub fn shared_key(&self) -> (r: Option<&BigUint>)
        ensures
            r is Some == (self@.shared_key is Some),
            r is Some ==> self@.shared_key == Some(r->0@),
    {
        match &self.shared_key {
            Some(key) => Some(key),
            None => None,
        }
    }

    /// The name of this session.
    pub fn name(&self) -> (r: String)
        ensures
            r@ == self@.username,
    {
        owned(self.username.as_str())
    }

    /// Puts known values in.
    pub fn update_with_values(&mut self, values: SessionValues)
        ensures
            final(self)@ == updated(old(self)@, values@),
    {
        match values.username {
            Some(username) => {
                self.username = username;
            },
            None => {},
        }
        match values.shared_key {
            Some(key) => {
                self.shared_key = Some(key);
            },
            None => {},
        }
        match values.client_private_key {
            Some(key) => {
                self.client_private_key = key;
            },
            None => {},
        }
        match values.salt {
            Some(salt) => {
                self.salt = Some(salt);
            },
            None => {},
        }
        match values.server_public_key {
            Some(key) => {
                self.server_public_key = Some(key);
            },
            None => {},
        }
    }

    /// The client's public key.
    pub fn client_public_key(&self) -> (r: BigUint)
        ensures
            r@ == public_key(self@),
    {
        power_residue(&BigUint::from_byte(GROUP_GENERATOR), &self.client_private_key, &group_prime())
    }

    fn derive_scramble(&self, server_public_key: &BigUint) -> (r: Vec<u8>)
        requires
            self@.server_public_key == Some(server_public_key@),
        ensures
            r@ == scramble(self@),
    {
        let input = join2(&pad_number(&self.client_public_key()), &pad_number(server_public_key));
        sha256(input.as_slice())
    }

    fn derive_session_key(&self, password: &str) -> (r: Result<BigUint>)
        ensures
            derives(self@, password@, r),
    {
        let server_public_key = match &self.server_public_key {
            Some(key) => key,
            None => {
                return no_session("Invalid session state: missing server values");
            },
        };
        let salt = match &self.salt {
            Some(salt) => salt,
            None => {
                return no_session("Invalid session state: missing session values");
            },
        };
        let named = cat(cat(self.username.as_str(), ":").as_str(), password);
        let user_hash = sha256(named.as_str().as_bytes());
        let salted = join2(&pad_number(salt), &user_hash);
        let x = BigUint::from_bytes_be(sha256(salted.as_slice()).as_slice());
        let u = BigUint::from_bytes_be(self.derive_scramble(server_public_key).as_slice());
        let k = multiplier();
        let modulus = group_prime();
        let gx = power_residue(&BigUint::from_byte(GROUP_GENERATOR), &x, &modulus);
        let masked = k.times(&gx);
        let rhs = mod_(&masked, &modulus);
        let base = if server_public_key.at_least(&rhs) {
            mod_(&server_public_key.minus(&rhs), &modulus)
        } else {
            let wrapped = server_public_key.plus(&modulus);
            proof {
                lemma_group_modulus();
            }
            mod_(&wrapped.minus(&rhs), &modulus)
        };
        proof {
            lemma_group_modulus();
            lemma_difference_mod(server_public_key@, masked@, modulus@);
            assert(base@ == unmasked(self@, password@));
        }
        if base.is_zero() {
            return Err(
                APWError::new(Status::ServerError, "Invalid server hello: invalid public key"),
            );
        }
        let exponent = self.client_private_key.plus(&u.times(&x));
        let secret = power_residue(&base, &exponent, &modulus);
        let digest = sha256(secret.to_bytes_be().as_slice());
        Ok(BigUint::from_bytes_be(digest.as_slice()))
    }

    /// Takes over the server's public key and salt, unless the key is zero in the group.
    pub fn set_server_public_key(&mut self, server_public_key: BigUint, salt: BigUint) -> (r:
        Result<()>)
        ensures
            if server_public_key@ % group_modulus() == 0 {
                fails(r, Status::InvalidSession, "Invalid server hello: invalid public key"@)
                    && final(self)@ == old(self)@
            } else {
                r is Ok && final(self)@ == (SessionModel {
                    server_public_key: Some(server_public_key@),
                    salt: Some(salt@),
                    ..old(self)@
                })
            },
    {
        proof {
            lemma_group_modulus();
        }
        let residue = mod_(&server_public_key, &group_prime());
        if residue.is_zero() {
            return no_session("Invalid server hello: invalid public key");
        }
        self.server_public_key = Some(server_public_key);
        self.salt = Some(salt);
        Ok(())
    }

    /// Computes the session key from the password, and keeps it.
    pub fn set_shared_key(&mut self, password: &str) -> (r: Result<BigUint>)
        ensures
            if old(self)@.server_public_key is None || old(self)@.salt is None {
                fails(
                    r,
                    Status::InvalidSession,
                    "Invalid session state: missing handshake values"@,
                ) && final(self)@ == old(self)@
            } else if unmasked(old(self)@, password@) == 0 {
                fails(r, Status::ServerError, "Invalid server hello: invalid public key"@)
                    && final(self)@ == old(self)@
            } else {
                r is Ok && r->Ok_0@ == session_key(old(self)@, password@) && final(self)@ == (
                SessionModel {
                    shared_key: Some(session_key(old(self)@, password@)),
                    ..old(self)@
                })
            },
    {
        if self.server_public_key.is_none() || self.salt.is_none() {
            return no_session("Invalid session state: missing handshake values");
        }
        match self.derive_session_key(password) {
            Ok(key) => {
                self.shared_key = Some(key.copy());
                Ok(key)
            },
            Err(error) => Err(error),
        }
    }

    /// The client's proof that it knows the session key.
    pub fn compute_m(&self) -> (r: Result<Vec<u8>>)
        ensures
            if self@.salt is None {
                fails(r, Status::InvalidSession, "Invalid session state: missing salt"@)
            } else if self@.server_public_key is None {
                fails(r, Status::InvalidSession, "Invalid session state: missing server key"@)
            } else if self@.shared_key is None {
                fails(r, Status::InvalidSession, MISSING_KEY@)
            } else {
                r is Ok && r->Ok_0@ == client_proof(self@)
            },
    {
        let salt = match &self.salt {
            Some(salt) => salt,
            None => {
                return no_session("Invalid session state: missing salt");
            },
        };
        let server_public_key = match &self.server_public_key {
            Some(key) => key,
            None => {
                return no_session("Invalid session state: missing server key");
            },
        };
        let shared_key = match &self.shared_key {
            Some(key) => key,
            None => {
                return no_session(MISSING_KEY);
            },
        };
        let n_hash = sha256(pad_number(&group_prime()).as_slice());
        let g_hash = sha256(pad_number(&BigUint::from_byte(GROUP_GENERATOR)).as_slice());
        let input = xor_bytes(&n_hash, &g_hash);
        let user_hash = sha256(self.username.as_str().as_bytes());
        let input = join2(&input, &user_hash);
        let input = join2(&input, &pad_number(salt));
        let input = join2(&input, &pad_number(&self.client_public_key()));
        let input = join2(&input, &pad_number(server_public_key));
        let input = join2(&input, &pad_number(shared_key));
        let input = join2(&input, &self.derive_scramble(server_public_key));
        Ok(sha256(input.as_slice()))
    }

    /// The server's proof that answers the client's.
    pub fn compute_hmac(&self, proof_bytes: &[u8]) -> (r: Result<Vec<u8>>)
        ensures
            if self@.shared_key is None {
                fails(r, Status::InvalidSession, MISSING_KEY@)
            } else {
                r is Ok && r->Ok_0@ == server_proof(self@, proof_bytes@)
            },
    {
        let shared_key = match &self.shared_key {
            Some(key) => key,
            None => {
                return no_session(MISSING_KEY);
            },
        };
        let mut payload = self.client_public_key().to_bytes_be();
        payload.extend_from_slice(proof_bytes);
        payload.extend_from_slice(shared_key.to_bytes_be().as_slice());
        proof {
            assert(payload@ =~= be_bytes(public_key(self@)) + proof_bytes@ + be_bytes(
                self@.shared_key->0,
            ));
        }
        Ok(sha256(payload.as_slice()))
    }

    /// Bytes in the text encoding of this session.
    pub fn serialize(&self, input: &[u8], prefix: bool) -> (r: String)
        ensures
            r@ == serialized(self@, input@, prefix),
            self@.should_use_base64 ==> base64_bytes(r@) == Some(input@),
            fallback_bytes(r@, self@.should_use_base64) == Some(input@),
    {
        proof {
            law_bare_hex_decodes(input@);
            law_prefixed_hex_decodes(input@);
        }
        if self.should_use_base64 {
            to_base64(input)
        } else {
            let encoded = to_hex(input);
            if prefix {
                cat("0x", encoded.as_str())
            } else {
                encoded
            }
        }
    }

    /// The bytes of text in the encoding of this session, or in the other one.
    pub fn deserialize(&self, input: &str) -> (r: Result<Vec<u8>>)
        ensures
            match fallback_bytes(input@, self@.should_use_base64) {
                Some(bytes) => r is Ok && r->Ok_0@ == bytes,
                None => fails(
                    r,
                    Status::ProtoInvalidResponse,
                    if self@.should_use_base64 {
                        "Invalid base64 value."@
                    } else {
                        "Invalid hex value."@
                    },
                ),
            },
    {
        if self.should_use_base64 {
            decode_with_fallback(input, true, "Invalid base64 value.")
        } else {
            decode_with_fallback(input, false, "Invalid hex value.")
        }
    }

    /// Encrypts the JSON text of a value under the session key and a random nonce.
    pub fn encrypt(&self, value: &JsonValue) -> (r: Result<Vec<u8>>)
        ensures
            encrypts(self@, value@, r),
    {
        let shared_key = match &self.shared_key {
            Some(key) => key,
            None => {
                return no_session(MISSING_KEY);
            },
        };
        let key = shared_key.to_bytes_be();
        if key.len() < KEY_BYTES {
            return Err(APWError::new(Status::ServerError, "Shared key too short."));
        }
        let plain = to_json(value);
        if plain.len() > MAX_CIPHER_BYTES {
            return Err(APWError::new(Status::ServerError, "Encryption failed."));
        }
        let nonce = random_bytes(NONCE_BYTES);
        let key = front(key.as_slice(), KEY_BYTES);
        let sealed = gcm_encrypt(key.as_slice(), nonce.as_slice(), plain.as_slice());
        let r = assemble_payload(&nonce, sealed);
        proof {
            if sealed is Ok {
                let (body, tag) = sealed->Ok_0;
                let payload = nonce@ + body@ + tag@;
                assert(payload_nonce(payload) =~= nonce@);
                assert(payload_body(payload) =~= body@);
                assert(payload_tag(payload) =~= tag@);
                assert(seals(key@, json_text(value@), payload));
            }
        }
        r
    }

    /// Decrypts a payload under the session key. What comes out is the one plaintext that seals
    /// to the payload.
    pub fn decrypt(&self, payload: &[u8]) -> (r: Result<Vec<u8>>)
        ensures
            decrypts(self@, payload@, r),
    {
        let shared_key = match &self.shared_key {
            Some(key) => key,
            None => {
                return no_session(MISSING_KEY);
            },
        };
        if payload.len() <= NONCE_BYTES {
            return bad_payload();
        }
        let key = shared_key.to_bytes_be();
        if key.len() < KEY_BYTES {
            return Err(APWError::new(Status::ServerError, "Shared key too short."));
        }
        if payload.len() <= NONCE_BYTES + GCM_TAG_BYTES {
            return bad_payload();
        }
        let key = front(key.as_slice(), KEY_BYTES);
        let nonce = front(payload, NONCE_BYTES);
        let rest = back(payload, NONCE_BYTES);
        let body_len: usize = rest.len() - GCM_TAG_BYTES;
        let body = front(rest.as_slice(), body_len);
        let tag = back(rest.as_slice(), body_len);
        proof {
            assert(nonce@ =~= payload_nonce(payload@));
            assert(body@ =~= payload_body(payload@));
            assert(tag@ =~= payload_tag(payload@));
        }
        if body.len() > MAX_CIPHER_BYTES {
            return Err(APWError::new(Status::ProtoInvalidResponse, "Failed to decrypt payload."));
        }
        let opened = gcm_decrypt(
            key.as_slice(),
            nonce.as_slice(),
            body.as_slice(),
            tag.as_slice(),
        );
        accept_plaintext(opened)
    }

    /// Whether a proof is the expected one. No proof is not a proof.
    pub fn verify_hamk(&self, expected: &[u8], actual: &[u8]) -> (r: bool)
        ensures
            r == (expected@.len() > 0 && expected@ == actual@),
    {
        if expected.len() == 0 || actual.len() == 0 || expected.len() != actual.len() {
            return false;
        }
        constant_time_eq(expected, actual)
    }
}

/// Bytes in the text encoding of a session.
pub open spec fn serialized(session: SessionModel, input: Seq<u8>, prefix: bool) -> Seq<char> {
    if session.should_use_base64 {
        base64_text(input)
    } else if prefix {
        "0x"@ + hex_text(input)
    } else {
        hex_text(input)
    }
}

impl Default for SRPSession {
    fn default() -> (r: SRPSession)
        ensures
            fresh_session(r@, true),
    {
        SRPSession::new(true)
    }
}

proof fn lemma_difference_mod(a: nat, b: nat, m: nat)
    requires
        m > 0,
    ensures
        ({
            let rhs = b % m;
            &&& a >= rhs ==> ((a - rhs) as nat) % m == difference_mod(a, b, m)
            &&& a < rhs ==> ((a + m - rhs) as nat) % m == difference_mod(a, b, m)
        }),
{
    let rhs = b % m;
    vstd::arithmetic::div_mod::lemma_sub_mod_noop_right(a as int, b as int, m as int);
    assert((a - rhs) % (m as int) == (a - b) % (m as int));
    if a < rhs {
        vstd::arithmetic::div_mod::lemma_mod_add_multiples_vanish(a - rhs, m as int);
        assert((m + (a - rhs)) % (m as int) == (a - rhs) % (m as int));
    }
}

fn xor_bytes(a: &Vec<u8>, b: &Vec<u8>) -> (r: Vec<u8>)
    requires
        a@.len() == b@.len(),
    ensures
        r@ == xored(a@, b@),
{
    let mut out: Vec<u8> = Vec::new();
    let mut i: usize = 0;
    while i < a.len()
        invariant
            i <= a.len(),
            a@.len() == b@.len(),
            out@ =~= xored(a@, b@).subrange(0, i as int),
        decreases a.len() - i,
    {
        out.push(a[i] ^ b[i]);
        i = i + 1;
    }
    proof {
        assert(xored(a@, b@).subrange(0, i as int) =~= xored(a@, b@));
    }
    out
}

/// The first message of the key exchange.
pub open spec fn key_exchange_json(session: SessionModel) -> Json {
    Json::Obj(
        Map::<Seq<char>, Json>::empty().insert("TID"@, Json::Str(session.username)).insert(
            "MSG"@,
            Json::Int(msg_number(MSGTypes::ClientKeyExchange) as int),
        ).insert(
            "A"@,
            Json::Str(serialized(session, be_bytes(public_key(session)), true)),
        ).insert("VER"@, Json::Str(DEFAULT_VERSION@)).insert(
            "PROTO"@,
            Json::Arr(
                seq![Json::Int(version_number(SecretSessionVersion::SrpWithRfcVerification) as int)],
            ),
        ),
    )
}

/// Whether the text of bytes in the encoding of a session can be read back.
pub open spec fn text_reads_back(session: SessionModel, bytes: Seq<u8>, prefix: bool) -> bool {
    session.should_use_base64 ==> base64_bytes(serialized(session, bytes, prefix)) == Some(bytes)
}

/// Whether base64 text is that of the JSON text of a value, from which the value can be read.
pub open spec fn carries_value(text: Seq<char>, value: Json) -> bool {
    base64_bytes(text) == Some(json_text(value)) && json_parsed(json_text(value)) == Some(value)
}

/// The messages of the key exchange can be read back from their JSON text.
pub(crate) proof fn lemma_exchange_is_plain(session: SessionModel, proof_bytes: Seq<u8>)
    ensures
        plain(key_exchange_json(session), 100),
        plain(verification_json(session, proof_bytes), 100),
{
    reveal_with_fuel(plain, 3);
    let first = key_exchange_json(session)->Obj_0;
    assert forall|k: Seq<char>| first.dom().contains(k) implies plain(#[trigger] first[k], 99) by {
        assert(k == "TID"@ || k == "MSG"@ || k == "A"@ || k == "VER"@ || k == "PROTO"@);
    }
    let second = verification_json(session, proof_bytes)->Obj_0;
    assert forall|k: Seq<char>| second.dom().contains(k) implies plain(
        #[trigger] second[k],
        99,
    ) by {
        assert(k == "TID"@ || k == "MSG"@ || k == "M"@);
    }
}

/// The first message of the key exchange.
pub fn build_client_key_exchange(session: &SRPSession) -> (r: JsonValue)
    ensures
        r@ == key_exchange_json(session@),
        text_reads_back(session@, be_bytes(public_key(session@)), true),
{
    let mut versions: Vec<JsonValue> = Vec::new();
    versions.push(
        JsonValue::integer(SecretSessionVersion::SrpWithRfcVerification.number()),
    );
    let proto = JsonValue::Array(versions);
    proof {
        assert(proto@->Arr_0 =~= seq![
            Json::Int(version_number(SecretSessionVersion::SrpWithRfcVerification) as int),
        ]);
    }
    let key = session.client_public_key().to_bytes_be();
    JsonValue::object().with("TID", JsonValue::text(session.name().as_str())).with(
        "MSG",
        JsonValue::integer(MSGTypes::ClientKeyExchange.number()),
    ).with("A", JsonValue::text(session.serialize(key.as_slice(), true).as_str())).with(
        "VER",
        JsonValue::text(DEFAULT_VERSION),
    ).with("PROTO", proto)
}

/// The message that carries the client's proof.
pub open spec fn verification_json(session: SessionModel, proof_bytes: Seq<u8>) -> Json {
    Json::Obj(
        Map::<Seq<char>, Json>::empty().insert("TID"@, Json::Str(session.username)).insert(
            "MSG"@,
            Json::Int(msg_number(MSGTypes::ClientVerification) as int),
        ).insert("M"@, Json::Str(serialized(session, proof_bytes, false))),
    )
}

/// The message that carries the client's proof.
pub fn build_client_verification_message(session: &SRPSession, proof_bytes: &[u8]) -> (r: JsonValue)
    ensures
        r@ == verification_json(session@, proof_bytes@),
        text_reads_back(session@, proof_bytes@, false),
{
    JsonValue::object().with("TID", JsonValue::text(session.name().as_str())).with(
        "MSG",
        JsonValue::integer(MSGTypes::ClientVerification.number()),
    ).with("M", JsonValue::text(session.serialize(proof_bytes, false).as_str()))
}

/// The server's public key for a verifier and a private key of the server.
pub open spec fn server_public_value(verifier: nat, server_private_key: nat) -> nat {
    (multiplier_value() * verifier + power_mod(
        GROUP_GENERATOR as nat,
        server_private_key,
        group_modulus(),
    )) % group_modulus()
}

/// The secret as the server computes it from the client's public key, the verifier and its own
/// private key.
pub open spec fn server_secret(
    client_public_key: nat,
    verifier: nat,
    scrambler: nat,
    server_private_key: nat,
) -> nat {
    power_mod(
        client_public_key * power_mod(verifier, scrambler, group_modulus()),
        server_private_key,
        group_modulus(),
    )
}

/// Modulo a number above one, a power is the remainder of the power.
pub(crate) proof fn lemma_power_mod_is_remainder(b: nat, e: nat, m: nat)
    requires
        m > 1,
    ensures
        power_mod(b, e, m) == pow(b as int, e) % (m as int),
        0 <= power_mod(b, e, m) < m,
        pow(b as int, e) >= 0,
{
    lemma_power_natural(b, e);
    if e == 0 {
        lemma_pow0(b as int);
        vstd::arithmetic::div_mod::lemma_small_mod(1, m);
    }
}

/// A number that divides a power of five is one more than a multiple of four.
proof fn lemma_divisor_of_power_of_five(d: nat, q: nat, e: nat)
    requires
        d * q == pow(5, e),
    ensures
        d % 4 == 1,
    decreases e,
{
    if e == 0 {
        lemma_pow0(5);
        assert(d == 1) by (nonlinear_arith)
            requires
                d * q == 1,
                d >= 0,
                q >= 0,
        ;
    } else {
        let below = (e - 1) as nat;
        lemma_pow1(5);
        lemma_pow_adds(5, 1, below);
        assert(d * q == 5 * pow(5, below));
        let d1 = d / 5;
        let d0 = d % 5;
        let q1 = q / 5;
        let q0 = q % 5;
        assert(d * q == 5 * (5 * d1 * q1 + d1 * q0 + d0 * q1) + d0 * q0) by (nonlinear_arith)
            requires
                d == 5 * d1 + d0,
                q == 5 * q1 + q0,
        ;
        let low = d0 * q0;
        let high = 5 * d1 * q1 + d1 * q0 + d0 * q1;
        assert(low == 5 * (pow(5, below) - high));
        assert(d0 == 0 || q0 == 0) by (nonlinear_arith)
            requires
                low == d0 * q0,
                low % 5 == 0,
                0 <= d0 < 5,
                0 <= q0 < 5,
        ;
        if d0 == 0 {
            assert(d1 * q == pow(5, below)) by (nonlinear_arith)
                requires
                    d == 5 * d1,
                    d * q == 5 * pow(5, below),
            ;
            lemma_divisor_of_power_of_five(d1, q, below);
        } else {
            assert(d * q1 == pow(5, below)) by (nonlinear_arith)
                requires
                    q == 5 * q1,
                    d * q == 5 * pow(5, below),
            ;
            lemma_divisor_of_power_of_five(d, q1, below);
        }
    }
}

/// No power of the generator is zero in the group.
proof fn lemma_generator_power_is_not_zero(e: nat)
    ensures
        power_mod(GROUP_GENERATOR as nat, e, group_modulus()) != 0,
{
    let n = group_modulus();
    let limbs = group_limbs();
    lemma_group_modulus();
    assert(limbs[limbs.len() - 1] == 0xFFFFFFFFFFFFFFFFu64);
    assert(n % 4 == 3);
    lemma_power_mod_is_remainder(5, e, n);
    if pow(5, e) % (n as int) == 0 {
        let q = pow(5, e) / (n as int);
        vstd::arithmetic::div_mod::lemma_fundamental_div_mod(pow(5, e), n as int);
        vstd::arithmetic::div_mod::lemma_div_pos_is_pos(pow(5, e), n as int);
        lemma_divisor_of_power_of_five(n, q as nat, e);
    }
}

/// What a server keeps of a password: the generator to the power of the password's exponent.
pub open spec fn password_verifier(username: Seq<char>, password: Seq<char>, salt: nat) -> nat {
    power_mod(
        GROUP_GENERATOR as nat,
        password_exponent(username, password, salt),
        group_modulus(),
    )
}

/// A client that knows the password and a server that knows its verifier agree on the secret: the
/// client derives a session key, it is the one that the server makes of its own secret, and the
/// client never refuses such a server's public key.
pub proof fn law_both_sides_agree(
    session: SessionModel,
    password: Seq<char>,
    server_private_key: nat,
    r: Result<BigUint>,
)
    requires
        session.salt is Some,
        session.server_public_key == Some(
            server_public_value(
                password_verifier(session.username, password, session.salt->0),
                server_private_key,
            ),
        ),
    ensures
        ({
            let secret = server_secret(
                public_key(session),
                password_verifier(session.username, password, session.salt->0),
                be_value(scramble(session)),
                server_private_key,
            );
            &&& unmasked(session, password) != 0
            &&& shared_secret(session, password) == secret
            &&& derives(session, password, r) ==> r is Ok && r->Ok_0@ == key_of_secret(secret)
        }),
{
    lemma_generator_power_is_not_zero(server_private_key);
    lemma_group_modulus();
    let n = group_modulus();
    let m = n as int;
    let g = GROUP_GENERATOR as nat;
    let x = password_exponent(session.username, password, session.salt->0);
    let u = be_value(scramble(session));
    let a = session.client_private_key;
    let b = server_private_key;
    let v = power_mod(g, x, n);
    let kv = multiplier_value() * v;
    lemma_power_mod_is_remainder(g, b, n);
    lemma_power_mod_is_remainder(g, a, n);
    lemma_power_mod_is_remainder(g, x, n);
    let gb = power_mod(g, b, n);
    let ga = pow(g as int, a);
    let gx = pow(g as int, x);
    // The client takes the mask off the server's public key.
    let masked = (kv + gb) as int;
    vstd::arithmetic::div_mod::lemma_sub_mod_noop(masked, kv as int, m);
    vstd::arithmetic::div_mod::lemma_sub_mod_noop_right(masked % m, kv as int, m);
    assert((masked % m - kv) % m == (masked - kv) % m);
    vstd::arithmetic::div_mod::lemma_small_mod(gb, n);
    assert(unmasked(session, password) == gb);
    // The client's power of the server's half.
    let e = a + u * x;
    lemma_power_mod_is_remainder(gb, e, n);
    lemma_pow_mod_noop(pow(g as int, b), e, m);
    lemma_pow_multiplies(g as int, b, e);
    assert(shared_secret(session, password) == pow(g as int, b * e) % m);
    // The server's power of the client's half.
    lemma_power_mod_is_remainder(v, u, n);
    lemma_pow_mod_noop(gx, u, m);
    lemma_pow_multiplies(g as int, x, u);
    let vu = pow(g as int, x * u);
    assert(power_mod(v, u, n) == vu % m);
    let half = public_key(session) * power_mod(v, u, n);
    vstd::arithmetic::div_mod::lemma_mul_mod_noop(ga, vu, m);
    lemma_pow_adds(g as int, a, x * u);
    assert(half % n == pow(g as int, a + x * u) % m);
    lemma_power_mod_is_remainder(half, b, n);
    lemma_pow_mod_noop(half as int, b, m);
    lemma_pow_mod_noop(pow(g as int, a + x * u), b, m);
    lemma_pow_multiplies(g as int, a + x * u, b);
    assert(b * e == (a + x * u) * b) by (nonlinear_arith)
        requires
            e == a + u * x,
    ;
}

} // verus!
