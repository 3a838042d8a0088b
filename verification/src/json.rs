//! JSON values: a plain data type with its mathematical model, and the way to and from
//! JSON text through `serde_json`.
use crate::text::{opt_text, owned, str_eq};
use vstd::prelude::*;
use vstd::utf8::{encode_utf8, valid_utf8};

verus! {

#[verifier::external_type_specification]
#[verifier::external_body]
pub struct ExSerdeJsonValue(serde_json::Value);

#[verifier::external_type_specification]
#[verifier::external_body]
pub struct ExSerdeJsonNumber(serde_json::Number);

/// `clone` of a `serde_json::Number` gives the same number.
pub assume_specification[ <serde_json::Number as Clone>::clone ](n: &serde_json::Number) -> (r:
    serde_json::Number)
    ensures
        r == *n,
;

/// A JSON number: an integer, or one that is not an integer.
#[derive(Debug, PartialEq)]
pub enum JsonNumber {
    /// A number from zero up.
    Unsigned(u64),
    /// A number below zero.
    Negative(i64),
    /// A number with a fraction or an exponent, as it was read.
    Fraction(serde_json::Number),
}

/// A JSON value. A later member of an object replaces an earlier one of its name.
#[derive(Debug, PartialEq)]
pub enum JsonValue {
    Null,
    Bool(bool),
    Number(JsonNumber),
    String(String),
    Array(Vec<JsonValue>),
    Object(Vec<(String, JsonValue)>),
}

/// The mathematical model of a JSON value. The members of an object have no order.
#[verifier::ext_equal]
pub enum Json {
    Null,
    Bool(bool),
    Int(int),
    Fraction(serde_json::Number),
    Str(Seq<char>),
    Arr(Seq<Json>),
    Obj(Map<Seq<char>, Json>),
}

impl View for JsonNumber {
    type V = Json;

    open spec fn view(&self) -> Json {
        match self {
            JsonNumber::Unsigned(n) => Json::Int(*n as int),
            JsonNumber::Negative(n) => Json::Int(*n as int),
            JsonNumber::Fraction(n) => Json::Fraction(*n),
        }
    }
}

impl JsonValue {
    /// The model of this value.
    pub open spec fn model(self) -> Json
        decreases self,
    {
        match self {
            JsonValue::Null => Json::Null,
            JsonValue::Bool(b) => Json::Bool(b),
            JsonValue::Number(n) => n@,
            JsonValue::String(s) => Json::Str(s@),
            JsonValue::Array(items) => Json::Arr(
                Seq::new(
                    items@.len(),
                    |i: int|
                        if 0 <= i < items@.len() {
                            items@[i].model()
                        } else {
                            Json::Null
                        },
                ),
            ),
            JsonValue::Object(members) => Json::Obj(
                members_model(members@),
            ),
        }
    }
}

/// The members of an object as a map; a later member replaces an earlier one of its name.
pub open spec fn members_model(members: Seq<(String, JsonValue)>) -> Map<Seq<char>, Json>
    decreases members,
{
    if members.len() == 0 {
        Map::empty()
    } else {
        members_model(members.subrange(0, members.len() - 1)).insert(
            members[members.len() - 1].0@,
            members[members.len() - 1].1.model(),
        )
    }
}

/// The members of an object, each by its model, in the order in which they stand.
pub open spec fn listed(members: Seq<(String, JsonValue)>) -> Seq<(Seq<char>, Json)> {
    Seq::new(members.len(), |i: int| (members[i].0@, members[i].1@))
}

/// The object of members in an order; a later member replaces an earlier one of its name.
pub open spec fn object_of(members: Seq<(Seq<char>, Json)>) -> Map<Seq<char>, Json>
    decreases members.len(),
{
    if members.len() == 0 {
        Map::empty()
    } else {
        object_of(members.drop_last()).insert(members.last().0, members.last().1)
    }
}

/// The members of an object are those that are listed.
pub(crate) proof fn lemma_listed_object(members: Seq<(String, JsonValue)>)
    ensures
        members_model(members) == object_of(listed(members)),
    decreases members.len(),
{
    if members.len() > 0 {
        let front = members.subrange(0, members.len() - 1);
        lemma_listed_object(front);
        assert(listed(members).drop_last() =~= listed(front));
    }
}

impl View for JsonValue {
    type V = Json;

    open spec fn view(&self) -> Json {
        self.model()
    }
}

impl Json {
    /// The member called `key`, where this is an object that has one.
    pub open spec fn get(self, key: Seq<char>) -> Option<Json> {
        match self {
            Json::Obj(members) => if members.dom().contains(key) {
                Some(members[key])
            } else {
                None
            },
            _ => None,
        }
    }

    /// The text, where this is a string.
    pub open spec fn as_str(self) -> Option<Seq<char>> {
        match self {
            Json::Str(s) => Some(s),
            _ => None,
        }
    }

    /// The truth value, where this is one.
    pub open spec fn as_bool(self) -> Option<bool> {
        match self {
            Json::Bool(b) => Some(b),
            _ => None,
        }
    }

    /// The number, where this is an integer within `i64`.
    pub open spec fn as_i64(self) -> Option<i64> {
        match self {
            Json::Int(n) => if i64::MIN <= n <= i64::MAX {
                Some(n as i64)
            } else {
                None
            },
            _ => None,
        }
    }

    /// The number, where this is an integer within `u64`.
    pub open spec fn as_u64(self) -> Option<u64> {
        match self {
            Json::Int(n) => if 0 <= n <= u64::MAX {
                Some(n as u64)
            } else {
                None
            },
            _ => None,
        }
    }

    /// The member called `key`, or null where there is none.
    pub open spec fn get_or_null(self, key: Seq<char>) -> Json {
        match self.get(key) {
            Some(v) => v,
            None => Json::Null,
        }
    }
}

/// An absent text is null.
pub open spec fn text_or_null(s: Option<Seq<char>>) -> Json {
    match s {
        Some(s) => Json::Str(s),
        None => Json::Null,
    }
}

proof fn lemma_members_prefix(members: Seq<(String, JsonValue)>, n: int, key: Seq<char>)
    requires
        0 <= n <= members.len(),
        forall|k: int| n <= k < members.len() ==> (#[trigger] members[k]).0@ != key,
    ensures
        members_model(members).dom().contains(key) == members_model(
            members.subrange(0, n),
        ).dom().contains(key),
        members_model(members).dom().contains(key) ==> members_model(members)[key]
            == members_model(members.subrange(0, n))[key],
    decreases members.len(),
{
    if n == members.len() {
        assert(members.subrange(0, n) =~= members);
    } else {
        let front = members.subrange(0, members.len() - 1);
        assert forall|k: int| n <= k < front.len() implies (#[trigger] front[k]).0@ != key by {
            assert(front[k] == members[k]);
        }
        lemma_members_prefix(front, n, key);
        assert(front.subrange(0, n) =~= members.subrange(0, n));
        assert(members[members.len() - 1].0@ != key);
    }
}

impl JsonValue {
    /// The member called `key`, where this is an object that has one.
    pub fn get(&self, key: &str) -> (r: Option<&JsonValue>)
        ensures
            r is Some == (self@.get(key@) is Some),
            r is Some ==> self@.get(key@) == Some(r->0@),
    {
        match self {
            JsonValue::Object(members) => {
                let mut n: usize = members.len();
                proof {
                    assert(members@.subrange(0, n as int) =~= members@);
                }
                while n > 0
                    invariant
                        *self == JsonValue::Object(*members),
                        n <= members.len(),
                        forall|k: int|
                            n <= k < members.len() ==> (#[trigger] members@[k]).0@ != key@,
                    decreases n,
                {
                    if str_eq(members[n - 1].0.as_str(), key) {
                        proof {
                            let upto = members@.subrange(0, n as int);
                            lemma_members_prefix(members@, n as int, key@);
                            assert(upto[upto.len() - 1] == members@[n - 1]);
                            assert(members_model(upto) == members_model(
                                upto.subrange(0, upto.len() - 1),
                            ).insert(key@, members@[n - 1].1.model()));
                            assert(members_model(upto)[key@] == members@[n - 1].1.model());
                        }
                        return Some(&members[n - 1].1);
                    }
                    n = n - 1;
                }
                proof {
                    lemma_members_prefix(members@, 0, key@);
                }
                None
            },
            _ => None,
        }
    }

    /// The text, where this is a string.
    pub fn as_str(&self) -> (r: Option<&String>)
        ensures
            r is Some == (self@.as_str() is Some),
            r is Some ==> self@.as_str() == Some(r->0@),
    {
        match self {
            JsonValue::String(s) => Some(s),
            _ => None,
        }
    }

    /// The truth value, where this is one.
    pub fn as_bool(&self) -> (r: Option<bool>)
        ensures
            r == self@.as_bool(),
    {
        match self {
            JsonValue::Bool(b) => Some(*b),
            _ => None,
        }
    }

    /// The number, where this is an integer within `i64`.
    pub fn as_i64(&self) -> (r: Option<i64>)
        ensures
            r == self@.as_i64(),
    {
        match self {
            JsonValue::Number(JsonNumber::Unsigned(n)) => if *n <= i64::MAX as u64 {
                Some(*n as i64)
            } else {
                None
            },
            JsonValue::Number(JsonNumber::Negative(n)) => Some(*n),
            _ => None,
        }
    }

    /// The number, where this is an integer within `u64`.
    pub fn as_u64(&self) -> (r: Option<u64>)
        ensures
            r == self@.as_u64(),
    {
        match self {
            JsonValue::Number(JsonNumber::Unsigned(n)) => Some(*n),
            JsonValue::Number(JsonNumber::Negative(n)) => if *n >= 0 {
                Some(*n as u64)
            } else {
                None
            },
            _ => None,
        }
    }

    /// Whether this is an object.
    pub fn is_object(&self) -> (r: bool)
        ensures
            r == (self@ is Obj),
    {
        match self {
            JsonValue::Object(_) => true,
            _ => false,
        }
    }

    /// Whether this is null.
    pub fn is_null(&self) -> (r: bool)
        ensures
            r == (self@ is Null),
    {
        match self {
            JsonValue::Null => true,
            _ => false,
        }
    }

    /// The member called `key`, or null where there is none.
    pub fn get_or_null(&self, key: &str) -> (r: JsonValue)
        ensures
            r@ == self@.get_or_null(key@),
    {
        match self.get(key) {
            Some(v) => v.copy(),
            None => JsonValue::Null,
        }
    }

    /// An equal value.
    pub fn copy(&self) -> (r: JsonValue)
        ensures
            r@ == self@,
        decreases self,
    {
        match self {
            JsonValue::Null => JsonValue::Null,
            JsonValue::Bool(b) => JsonValue::Bool(*b),
            JsonValue::Number(JsonNumber::Unsigned(n)) => JsonValue::Number(
                JsonNumber::Unsigned(*n),
            ),
            JsonValue::Number(JsonNumber::Negative(n)) => JsonValue::Number(
                JsonNumber::Negative(*n),
            ),
            JsonValue::Number(JsonNumber::Fraction(n)) => JsonValue::Number(
                JsonNumber::Fraction(n.clone()),
            ),
            JsonValue::String(s) => JsonValue::String(owned(s.as_str())),
            JsonValue::Array(items) => {
                let mut out: Vec<JsonValue> = Vec::new();
                let mut i: usize = 0;
                while i < items.len()
                    invariant
                        i <= items.len(),
                        out.len() == i,
                        forall|k: int| 0 <= k < i ==> (#[trigger] out@[k])@ == items@[k]@,
                        decreases_to!(self => items),
                    decreases items.len() - i,
                {
                    proof {
                        assert(decreases_to!(items => items@));
                        assert(decreases_to!(items@ => items@[i as int]));
                    }
                    let item = items[i].copy();
                    out.push(item);
                    i = i + 1;
                }
                let r = JsonValue::Array(out);
                proof {
                    assert(r@->Arr_0 =~= self@->Arr_0);
                }
                r
            },
            JsonValue::Object(members) => {
                let mut out: Vec<(String, JsonValue)> = Vec::new();
                let mut i: usize = 0;
                while i < members.len()
                    invariant
                        i <= members.len(),
                        out.len() == i,
                        members_model(out@) == members_model(members@.subrange(0, i as int)),
                        decreases_to!(self => members),
                    decreases members.len() - i,
                {
                    proof {
                        assert(decreases_to!(members => members@));
                        assert(decreases_to!(members@ => members@[i as int]));
                        assert(decreases_to!(members@[i as int] => members@[i as int].1));
                    }
                    let ghost before = out@;
                    let member = (owned(members[i].0.as_str()), members[i].1.copy());
                    out.push(member);
                    proof {
                        assert(out@.subrange(0, out@.len() - 1) =~= before);
                        let upto = members@.subrange(0, i + 1);
                        assert(upto.subrange(0, upto.len() - 1) =~= members@.subrange(
                            0,
                            i as int,
                        ));
                    }
                    i = i + 1;
                }
                proof {
                    assert(members@.subrange(0, i as int) =~= members@);
                }
                JsonValue::Object(out)
            },
        }
    }

    /// The object without members.
    pub fn object() -> (r: JsonValue)
        ensures
            r@ == Json::Obj(Map::empty()),
    {
        let r = JsonValue::Object(Vec::new());
        proof {
            assert(members_model(r->Object_0@) == Map::<Seq<char>, Json>::empty());
        }
        r
    }

    /// This object with the member `key` set to `value`.
    pub fn with(self, key: &str, value: JsonValue) -> (r: JsonValue)
        requires
            self@ is Obj,
        ensures
            r@ == Json::Obj(self@->Obj_0.insert(key@, value@)),
    {
        match self {
            JsonValue::Object(members) => {
                let mut members = members;
                let ghost before = members@;
                members.push((owned(key), value));
                proof {
                    assert(members@.subrange(0, members@.len() - 1) =~= before);
                    assert(members_model(members@) == members_model(before).insert(key@, value@));
                }
                JsonValue::Object(members)
            },
            other => other,
        }
    }

    /// A JSON string.
    pub fn text(s: &str) -> (r: JsonValue)
        ensures
            r@ == Json::Str(s@),
    {
        JsonValue::String(owned(s))
    }

    /// A JSON string, or null for no text.
    pub fn opt(s: &Option<String>) -> (r: JsonValue)
        ensures
            r@ == text_or_null(opt_text(*s)),
    {
        match s {
            Some(s) => JsonValue::text(s.as_str()),
            None => JsonValue::Null,
        }
    }

    /// A JSON integer.
    pub fn integer(n: i64) -> (r: JsonValue)
        ensures
            r@ == Json::Int(n as int),
    {
        if n < 0 {
            JsonValue::Number(JsonNumber::Negative(n))
        } else {
            JsonValue::Number(JsonNumber::Unsigned(n as u64))
        }
    }
}

/// What a `serde_json::Value` holds.
pub uninterp spec fn held(v: serde_json::Value) -> Json;

/// The `serde_json::Value` that stands for a model.
pub uninterp spec fn outside_value(j: Json) -> serde_json::Value;

/// What `serde_json::from_slice` makes of bytes: the value, or the text of its complaint.
pub uninterp spec fn serde_parsed(bytes: Seq<u8>) -> Result<serde_json::Value, Seq<char>>;

/// What `serde_json::to_vec` prints.
pub uninterp spec fn serde_printed(v: serde_json::Value) -> Seq<u8>;

/// What `serde_json::to_vec_pretty` prints.
pub uninterp spec fn serde_printed_pretty(v: serde_json::Value) -> Seq<u8>;

/// What `serde_json` prints of a map whose entries are serialized in this order.
pub uninterp spec fn serde_object_printed(members: Seq<(Seq<char>, serde_json::Value)>) -> Seq<u8>;

/// Whether no number in the value, nor in its parts, has a fraction, every integer is in the
/// range that a JSON document can carry, and the nesting is at most `depth`.
pub open spec fn plain(j: Json, depth: nat) -> bool
    decreases depth,
{
    match j {
        Json::Fraction(_) => false,
        Json::Int(n) => i64::MIN <= n <= u64::MAX,
        Json::Arr(items) => depth > 0 && forall|i: int|
            0 <= i < items.len() ==> plain(#[trigger] items[i], (depth - 1) as nat),
        Json::Obj(members) => depth > 0 && forall|k: Seq<char>|
            members.dom().contains(k) ==> plain(#[trigger] members[k], (depth - 1) as nat),
        _ => true,
    }
}

/// The value that JSON text writes, where the bytes are JSON text.
pub open spec fn json_parsed(bytes: Seq<u8>) -> Option<Json> {
    match serde_parsed(bytes) {
        Ok(v) => Some(held(v)),
        Err(_) => None,
    }
}

/// The complaint about bytes that are not JSON text.
pub open spec fn json_complaint(bytes: Seq<u8>) -> Seq<char> {
    serde_parsed(bytes)->Err_0
}

/// The JSON text of a value.
pub open spec fn json_text(j: Json) -> Seq<u8> {
    serde_printed(outside_value(j))
}

/// The JSON text of a value, laid out over several lines.
pub open spec fn json_pretty_text(j: Json) -> Seq<u8> {
    serde_printed_pretty(outside_value(j))
}

/// The JSON text of an object whose members are printed in this order.
pub open spec fn object_text(members: Seq<(Seq<char>, Json)>) -> Seq<u8> {
    serde_object_printed(
        Seq::new(members.len(), |i: int| (members[i].0, outside_value(members[i].1))),
    )
}

/// Whether the value of every member is plain.
pub open spec fn plain_members(members: Seq<(Seq<char>, Json)>) -> bool {
    forall|i: int| 0 <= i < members.len() ==> plain((#[trigger] members[i]).1, 99)
}

/// The members of a list, each by what its value holds.
pub open spec fn held_members(members: Seq<(String, serde_json::Value)>) -> Seq<(Seq<char>, Json)> {
    Seq::new(members.len(), |i: int| (members[i].0@, held(members[i].1)))
}

proof fn lemma_plain_deeper(j: Json, depth: nat)
    requires
        plain(j, depth),
    ensures
        plain(j, depth + 1),
    decreases depth,
{
    match j {
        Json::Arr(items) => {
            assert forall|i: int| 0 <= i < items.len() implies plain(#[trigger] items[i], depth) by {
                lemma_plain_deeper(items[i], (depth - 1) as nat);
            }
        },
        Json::Obj(members) => {
            assert forall|k: Seq<char>| members.dom().contains(k) implies plain(
                #[trigger] members[k],
                depth,
            ) by {
                lemma_plain_deeper(members[k], (depth - 1) as nat);
            }
        },
        _ => {},
    }
}

/// Takes a `serde_json::Value` apart, variant by variant: the result holds what it held, and the
/// same `serde_json::Value` stands for it. A number that is not an integer is carried as it is.
#[verifier::external_body]
fn from_outside(v: serde_json::Value) -> (r: JsonValue)
    ensures
        r@ == held(v),
        outside_value(r@) == v,
{
    match v {
        serde_json::Value::Null => JsonValue::Null,
        serde_json::Value::Bool(b) => JsonValue::Bool(b),
        serde_json::Value::Number(n) => JsonValue::Number(match (n.as_u64(), n.as_i64()) {
            (Some(u), _) => JsonNumber::Unsigned(u),
            (None, Some(i)) => JsonNumber::Negative(i),
            _ => JsonNumber::Fraction(n),
        }),
        serde_json::Value::String(s) => JsonValue::String(s),
        serde_json::Value::Array(a) => JsonValue::Array(a.into_iter().map(from_outside).collect()),
        serde_json::Value::Object(m) =>
            JsonValue::Object(m.into_iter().map(|(k, v)| (k, from_outside(v))).collect()),
    }
}

/// Builds the `serde_json::Value` of a value, variant by variant. Of a plain value it is said that
/// the result holds it; a number that is not an integer is put in as it is.
#[verifier::external_body]
fn to_outside(v: &JsonValue) -> (r: serde_json::Value)
    ensures
        r == outside_value(v@),
        plain(v@, 100) ==> held(r) == v@,
{
    match v {
        JsonValue::Null => serde_json::Value::Null,
        JsonValue::Bool(b) => serde_json::Value::Bool(*b),
        JsonValue::Number(JsonNumber::Unsigned(u)) => serde_json::Value::from(*u),
        JsonValue::Number(JsonNumber::Negative(i)) => serde_json::Value::from(*i),
        JsonValue::Number(JsonNumber::Fraction(n)) => serde_json::Value::Number(n.clone()),
        JsonValue::String(s) => serde_json::Value::String(s.clone()),
        JsonValue::Array(a) => a.iter().map(to_outside).collect(),
        JsonValue::Object(m) =>
            serde_json::Value::Object(m.iter().map(|(k, v)| (k.clone(), to_outside(v))).collect()),
    }
}

/// The value that a `serde_json::Value` holds. The same `serde_json::Value` stands for it.
pub fn from_serde(v: serde_json::Value) -> (r: JsonValue)
    ensures
        r@ == held(v),
        outside_value(r@) == v,
{
    from_outside(v)
}

/// The `serde_json::Value` that stands for a value.
pub fn to_serde(v: &JsonValue) -> (r: serde_json::Value)
    ensures
        r == outside_value(v@),
        plain(v@, 100) ==> held(r) == v@,
{
    to_outside(v)
}

/// `serde_json::from_slice`: the value that the bytes write, or the text of the complaint where
/// they are not one JSON document.
#[verifier::external_body]
fn serde_from_slice(bytes: &[u8]) -> (r: Result<serde_json::Value, String>)
    ensures
        match r {
            Ok(v) => serde_parsed(bytes@) == Ok::<serde_json::Value, Seq<char>>(v),
            Err(text) => serde_parsed(bytes@) == Err::<serde_json::Value, Seq<char>>(text@),
        },
{
    serde_json::from_slice(bytes).map_err(|error| error.to_string())
}

/// `serde_json::to_vec` on a value, which has only text keys, so that it does not fail. Reading
/// what it printed gives a value that holds the same, as long as that is plain. No value prints as
/// nothing.
#[verifier::external_body]
fn serde_to_vec(v: &serde_json::Value) -> (r: Vec<u8>)
    ensures
        r@ == serde_printed(*v),
        r@.len() > 0,
        plain(held(*v), 100) ==> json_parsed(r@) == Some(held(*v)),
{
    serde_json::to_vec(v).unwrap_or_default()
}

/// `serde_json::to_vec_pretty` on a value, which has only text keys, so that it does not fail.
/// Reading what it printed gives a value that holds the same, as long as that is plain.
#[verifier::external_body]
fn serde_to_vec_pretty(v: &serde_json::Value) -> (r: Vec<u8>)
    ensures
        r@ == serde_printed_pretty(*v),
        plain(held(*v), 100) ==> json_parsed(r@) == Some(held(*v)),
{
    serde_json::to_vec_pretty(v).unwrap_or_default()
}

/// `serde::Serializer::collect_map` on a `serde_json::Serializer` over a byte vector: the text of an
/// object with these members in this order, as a struct with such fields is printed. It is UTF-8,
/// and as long as the members are plain, reading it gives the object back.
#[verifier::external_body]
fn serde_collect_map(members: &Vec<(String, serde_json::Value)>) -> (r: Vec<u8>)
    ensures
        r@ == serde_object_printed(
            Seq::new(members@.len(), |i: int| (members@[i].0@, members@[i].1)),
        ),
        valid_utf8(r@),
        plain_members(held_members(members@)) ==> json_parsed(r@) == Some(
            Json::Obj(object_of(held_members(members@))),
        ),
{
    let mut out = Vec::new();
    let mut serializer = serde_json::Serializer::new(&mut out);
    let entries = members.iter().map(|(name, value)| (name, value));
    let _ = serde::Serializer::collect_map(&mut serializer, entries);
    out
}

/// The JSON text of an object whose members are printed in the order in which they stand. Reading
/// it gives the object back, as long as its members are plain.
pub fn object_to_json(members: &Vec<(String, JsonValue)>) -> (r: Vec<u8>)
    ensures
        r@ == object_text(listed(members@)),
        valid_utf8(r@),
        plain_members(listed(members@)) ==> json_parsed(r@) == Some(
            Json::Obj(object_of(listed(members@))),
        ),
{
    let mut outside: Vec<(String, serde_json::Value)> = Vec::new();
    let mut i: usize = 0;
    while i < members.len()
        invariant
            i <= members.len(),
            outside.len() == i,
            forall|k: int|
                0 <= k < i ==> {
                    &&& (#[trigger] outside@[k]).0@ == members@[k].0@
                    &&& outside@[k].1 == outside_value(members@[k].1@)
                    &&& plain(members@[k].1@, 99) ==> held(outside@[k].1) == members@[k].1@
                },
        decreases members.len() - i,
    {
        let value = to_outside(&members[i].1);
        proof {
            if plain(members@[i as int].1@, 99) {
                lemma_plain_deeper(members@[i as int].1@, 99);
            }
        }
        outside.push((owned(members[i].0.as_str()), value));
        i = i + 1;
    }
    let r = serde_collect_map(&outside);
    proof {
        let list = listed(members@);
        assert(Seq::new(outside@.len(), |k: int| (outside@[k].0@, outside@[k].1)) =~= Seq::new(
            list.len(),
            |k: int| (list[k].0, outside_value(list[k].1)),
        ));
        if plain_members(list) {
            assert forall|k: int| 0 <= k < list.len() implies held_members(outside@)[k]
                == #[trigger] list[k] by {
                assert(plain(list[k].1, 99));
                assert(outside@[k].0@ == members@[k].0@);
            }
            assert(held_members(outside@) =~= list);
        }
    }
    r
}

/// `serde_json::to_string` on a value: the text whose bytes `serde_json::to_vec` prints.
#[verifier::external_body]
fn serde_to_string(v: &serde_json::Value) -> (r: String)
    ensures
        encode_utf8(r@) == serde_printed(*v),
{
    serde_json::to_string(v).unwrap_or_default()
}

/// The JSON text of a value, as a string.
pub fn to_json_string(v: &JsonValue) -> (r: String)
    ensures
        encode_utf8(r@) == json_text(v@),
{
    let outside = to_outside(v);
    serde_to_string(&outside)
}

/// Whether a value is what bytes write, down to its text: printed again, it prints as what
/// `serde_json` read prints.
pub open spec fn read_from(value: Json, bytes: Seq<u8>) -> bool {
    &&& json_parsed(bytes) == Some(value)
    &&& json_text(value) == serde_printed(serde_parsed(bytes)->Ok_0)
}

/// The value that JSON text writes; nothing where the bytes are not one JSON document.
pub fn parse_json(bytes: &[u8]) -> (r: Option<JsonValue>)
    ensures
        r is Some == (json_parsed(bytes@) is Some),
        r is Some ==> read_from(r->0@, bytes@),
{
    match serde_from_slice(bytes) {
        Ok(v) => Some(from_outside(v)),
        Err(_) => None,
    }
}

/// The value that JSON text writes; the complaint where the bytes are not one JSON document.
pub fn parse_json_or_complain(bytes: &[u8]) -> (r: Result<JsonValue, String>)
    ensures
        match r {
            Ok(value) => read_from(value@, bytes@),
            Err(text) => json_parsed(bytes@) is None && text@ == json_complaint(bytes@),
        },
{
    match serde_from_slice(bytes) {
        Ok(v) => Ok(from_outside(v)),
        Err(text) => Err(text),
    }
}

/// The JSON text of a value. Reading it gives the value back, as long as that is plain.
pub fn to_json(v: &JsonValue) -> (r: Vec<u8>)
    ensures
        r@ == json_text(v@),
        r@.len() > 0,
        plain(v@, 100) ==> json_parsed(r@) == Some(v@),
{
    let outside = to_outside(v);
    serde_to_vec(&outside)
}

/// The JSON text of a value, laid out over several lines. Reading it gives the value back, as long
/// as that is plain.
pub fn to_json_pretty(v: &JsonValue) -> (r: Vec<u8>)
    ensures
        r@ == json_pretty_text(v@),
        plain(v@, 100) ==> json_parsed(r@) == Some(v@),
{
    let outside = to_outside(v);
    serde_to_vec_pretty(&outside)
}

/// The text of a member, where it is text.
pub(crate) fn member_text(value: &JsonValue, key: &str) -> (r: Option<String>)
    ensures
        opt_text(r) == match value@.get(key@) {
            Some(member) => member.as_str(),
            None => None,
        },
{
    match value.get(key) {
        Some(member) => match member.as_str() {
            Some(text) => Some(owned(text.as_str())),
            None => None,
        },
        None => None,
    }
}

} // verus!
