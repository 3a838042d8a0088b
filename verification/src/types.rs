//! Status codes, message types and configuration records.
use crate::bignum::BigUint;
use crate::json::{
    json_parsed, lemma_listed_object, listed, object_of, object_text, object_to_json,
    plain_members, Json, JsonValue,
};
use crate::text::{integer_of, lowercased, opt_text, owned, parse_i64, str_eq, to_lowercase};
use vstd::prelude::*;

verus! {

pub const DEFAULT_HOST: &'static str = "127.0.0.1";

pub const DEFAULT_PORT: u16 = 10_000;

pub const VERSION: &'static str = "2.0.0";

/// The most bytes that a message between the parts may have.
pub const MAX_MESSAGE_BYTES: usize = 16 * 1024;

/// The version of the configuration file's layout.
pub const CONFIG_SCHEMA: i32 = 1;

pub const PAKE_FIELD_TID: &'static str = "TID";

pub const PAKE_FIELD_MSG: &'static str = "MSG";

pub const PAKE_FIELD_A: &'static str = "A";

pub const PAKE_FIELD_S: &'static str = "s";

pub const PAKE_FIELD_B: &'static str = "B";

pub const PAKE_FIELD_VER: &'static str = "VER";

pub const PAKE_FIELD_PROTO: &'static str = "PROTO";

pub const PAKE_FIELD_HAMK: &'static str = "HAMK";

pub const PAKE_FIELD_ERR_CODE: &'static str = "ErrCode";

#[derive(Debug)]
pub struct RenamedPasswordEntry {
    pub username: String,
    pub domain: String,
    pub password: String,
}

#[derive(Debug)]
pub struct TOTPEntry {
    pub code: String,
    pub username: String,
    pub source: String,
    pub domain: String,
}

#[derive(Debug)]
pub struct PasswordEntry {
    pub usr: String,
    pub sites: Vec<String>,
    pub pwd: String,
}

/// A decrypted answer: its status and its entries.
#[derive(Debug)]
pub struct Payload {
    pub status: Status,
    pub entries: Vec<JsonValue>,
}

#[derive(Debug)]
pub struct Capabilities {
    pub can_fill_one_time_codes: Option<bool>,
    pub scan_for_otp_uri: Option<bool>,
    pub should_use_base64: Option<bool>,
    pub operating_system: Option<OperatingSystem>,
}

#[derive(Debug)]
pub struct OperatingSystem {
    pub name: String,
    pub major_version: i64,
    pub minor_version: i64,
}

/// The manifest of a browser's native messaging host.
#[derive(Debug)]
pub struct ManifestConfig {
    pub name: String,
    pub description: String,
    pub path: String,
    pub type_: String,
    pub allowed_origins: Vec<String>,
}

/// A configuration file without a schema number.
#[derive(Debug)]
pub struct APWConfig {
    pub port: Option<u16>,
    pub shared_key: Option<String>,
    pub username: Option<String>,
    pub host: Option<String>,
    pub created_at: Option<String>,
}

/// A configuration file.
#[derive(Debug)]
pub struct APWConfigV1 {
    pub schema: i32,
    pub port: u16,
    pub host: String,
    pub username: String,
    pub shared_key: String,
    pub runtime_mode: RuntimeMode,
    pub last_launch_status: Option<String>,
    pub last_launch_error: Option<String>,
    pub last_launch_strategy: Option<String>,
    pub bridge_status: Option<String>,
    pub bridge_browser: Option<String>,
    pub bridge_connected_at: Option<String>,
    pub bridge_last_error: Option<String>,
    pub secret_source: Option<SecretSource>,
    pub created_at: String,
}

/// A configuration with its shared key at hand.
#[derive(Debug)]
pub struct APWRuntimeConfig {
    pub schema: i32,
    pub port: u16,
    pub host: String,
    pub username: String,
    pub shared_key: BigUint,
    pub runtime_mode: RuntimeMode,
    pub last_launch_status: Option<String>,
    pub last_launch_error: Option<String>,
    pub last_launch_strategy: Option<String>,
    pub bridge_status: Option<String>,
    pub bridge_browser: Option<String>,
    pub bridge_connected_at: Option<String>,
    pub bridge_last_error: Option<String>,
    pub created_at: String,
}

/// What is known of the last helper launch.
#[verifier::ext_equal]
pub struct LaunchModel {
    pub status: Option<Seq<char>>,
    pub error: Option<Seq<char>>,
    pub strategy: Option<Seq<char>>,
}

/// What is known of the bridge to the browser or the native host.
#[verifier::ext_equal]
pub struct BridgeModel {
    pub status: Option<Seq<char>>,
    pub browser: Option<Seq<char>>,
    pub connected_at: Option<Seq<char>>,
    pub last_error: Option<Seq<char>>,
}

/// The model of a configuration file.
#[verifier::ext_equal]
pub struct ConfigModel {
    pub schema: i32,
    pub port: u16,
    pub host: Seq<char>,
    pub username: Seq<char>,
    pub shared_key: Seq<char>,
    pub runtime_mode: RuntimeMode,
    pub launch: LaunchModel,
    pub bridge: BridgeModel,
    pub secret_source: Option<SecretSource>,
    pub created_at: Seq<char>,
}

/// The model of a configuration with its shared key.
#[verifier::ext_equal]
pub struct RuntimeModel {
    pub schema: i32,
    pub port: u16,
    pub host: Seq<char>,
    pub username: Seq<char>,
    pub shared_key: nat,
    pub runtime_mode: RuntimeMode,
    pub launch: LaunchModel,
    pub bridge: BridgeModel,
    pub created_at: Seq<char>,
}

impl View for APWConfigV1 {
    type V = ConfigModel;

    open spec fn view(&self) -> ConfigModel {
        ConfigModel {
            schema: self.schema,
            port: self.port,
            host: self.host@,
            username: self.username@,
            shared_key: self.shared_key@,
            runtime_mode: self.runtime_mode,
            launch: LaunchModel {
                status: opt_text(self.last_launch_status),
                error: opt_text(self.last_launch_error),
                strategy: opt_text(self.last_launch_strategy),
            },
            bridge: BridgeModel {
                status: opt_text(self.bridge_status),
                browser: opt_text(self.bridge_browser),
                connected_at: opt_text(self.bridge_connected_at),
                last_error: opt_text(self.bridge_last_error),
            },
            secret_source: self.secret_source,
            created_at: self.created_at@,
        }
    }
}

impl View for APWRuntimeConfig {
    type V = RuntimeModel;

    open spec fn view(&self) -> RuntimeModel {
        RuntimeModel {
            schema: self.schema,
            port: self.port,
            host: self.host@,
            username: self.username@,
            shared_key: self.shared_key@,
            runtime_mode: self.runtime_mode,
            launch: LaunchModel {
                status: opt_text(self.last_launch_status),
                error: opt_text(self.last_launch_error),
                strategy: opt_text(self.last_launch_strategy),
            },
            bridge: BridgeModel {
                status: opt_text(self.bridge_status),
                browser: opt_text(self.bridge_browser),
                connected_at: opt_text(self.bridge_connected_at),
                last_error: opt_text(self.bridge_last_error),
            },
            created_at: self.created_at@,
        }
    }
}

/// No launch on record.
pub open spec fn no_launch() -> LaunchModel {
    LaunchModel { status: None, error: None, strategy: None }
}

/// No bridge on record.
pub open spec fn no_bridge() -> BridgeModel {
    BridgeModel { status: None, browser: None, connected_at: None, last_error: None }
}

/// The configuration without a session, at the default address, created at the given time.
pub open spec fn empty_config(created_at: Seq<char>) -> ConfigModel {
    ConfigModel {
        schema: CONFIG_SCHEMA,
        port: DEFAULT_PORT,
        host: DEFAULT_HOST@,
        username: Seq::empty(),
        shared_key: Seq::empty(),
        runtime_mode: RuntimeMode::Auto,
        launch: no_launch(),
        bridge: no_bridge(),
        secret_source: Some(SecretSource::File),
        created_at,
    }
}

/// The configuration without a session, at the default address, created at the given time.
pub open spec fn empty_runtime(created_at: Seq<char>) -> RuntimeModel {
    RuntimeModel {
        schema: CONFIG_SCHEMA,
        port: DEFAULT_PORT,
        host: DEFAULT_HOST@,
        username: Seq::empty(),
        shared_key: 0,
        runtime_mode: RuntimeMode::Auto,
        launch: no_launch(),
        bridge: no_bridge(),
        created_at,
    }
}

impl APWConfigV1 {
    /// The configuration without a session, at the default address.
    pub fn empty(created_at: String) -> (r: APWConfigV1)
        ensures
            r@ == empty_config(created_at@),
    {
        APWConfigV1 {
            schema: CONFIG_SCHEMA,
            port: DEFAULT_PORT,
            host: owned(DEFAULT_HOST),
            username: String::new(),
            shared_key: String::new(),
            runtime_mode: RuntimeMode::Auto,
            last_launch_status: None,
            last_launch_error: None,
            last_launch_strategy: None,
            bridge_status: None,
            bridge_browser: None,
            bridge_connected_at: None,
            bridge_last_error: None,
            secret_source: Some(SecretSource::File),
            created_at,
        }
    }
}

impl APWRuntimeConfig {
    /// The configuration without a session, at the default address.
    pub fn empty(created_at: String) -> (r: APWRuntimeConfig)
        ensures
            r@ == empty_runtime(created_at@),
    {
        APWRuntimeConfig {
            schema: CONFIG_SCHEMA,
            port: DEFAULT_PORT,
            host: owned(DEFAULT_HOST),
            username: String::new(),
            shared_key: BigUint::zero(),
            runtime_mode: RuntimeMode::Auto,
            last_launch_status: None,
            last_launch_error: None,
            last_launch_strategy: None,
            bridge_status: None,
            bridge_browser: None,
            bridge_connected_at: None,
            bridge_last_error: None,
            created_at,
        }
    }
}

/// How the daemon reaches the password store.
#[derive(Debug, Clone, Copy, PartialEq, Eq, Structural)]
pub enum RuntimeMode {
    Auto,
    Native,
    Browser,
    Direct,
    Launchd,
    Disabled,
}

impl Default for RuntimeMode {
    fn default() -> (r: RuntimeMode)
        ensures
            r == RuntimeMode::Auto,
    {
        RuntimeMode::Auto
    }
}

/// The word for a runtime mode.
pub open spec fn mode_word(mode: RuntimeMode) -> Seq<char> {
    match mode {
        RuntimeMode::Auto => "auto"@,
        RuntimeMode::Native => "native"@,
        RuntimeMode::Browser => "browser"@,
        RuntimeMode::Direct => "direct"@,
        RuntimeMode::Launchd => "launchd"@,
        RuntimeMode::Disabled => "disabled"@,
    }
}

/// The runtime mode that a lower-case word names; `Auto` for every other word.
pub open spec fn mode_of_word(word: Seq<char>) -> RuntimeMode {
    if word == "native"@ {
        RuntimeMode::Native
    } else if word == "browser"@ {
        RuntimeMode::Browser
    } else if word == "direct"@ {
        RuntimeMode::Direct
    } else if word == "launchd"@ {
        RuntimeMode::Launchd
    } else if word == "disabled"@ {
        RuntimeMode::Disabled
    } else {
        RuntimeMode::Auto
    }
}

impl RuntimeMode {
    /// The word for this mode.
    pub fn as_str(self) -> (r: &'static str)
        ensures
            r@ == mode_word(self),
    {
        match self {
            RuntimeMode::Auto => "auto",
            RuntimeMode::Native => "native",
            RuntimeMode::Browser => "browser",
            RuntimeMode::Direct => "direct",
            RuntimeMode::Launchd => "launchd",
            RuntimeMode::Disabled => "disabled",
        }
    }

    /// The mode that a lower-case word names; `Auto` for every other word.
    pub fn of_word(word: &str) -> (r: RuntimeMode)
        ensures
            r == mode_of_word(word@),
    {
        if str_eq(word, "native") {
            RuntimeMode::Native
        } else if str_eq(word, "browser") {
            RuntimeMode::Browser
        } else if str_eq(word, "direct") {
            RuntimeMode::Direct
        } else if str_eq(word, "launchd") {
            RuntimeMode::Launchd
        } else if str_eq(word, "disabled") {
            RuntimeMode::Disabled
        } else {
            RuntimeMode::Auto
        }
    }

    /// The mode that stored text names, in letters of either case; `Auto` for every other text.
    pub fn deserialize(text: &str) -> (r: RuntimeMode)
        ensures
            r == mode_of_word(lowercased(text@)),
    {
        let word = to_lowercase(text);
        RuntimeMode::of_word(word.as_str())
    }
}

/// The word for a mode names that mode.
pub proof fn law_mode_word_round_trip(mode: RuntimeMode)
    ensures
        mode_of_word(mode_word(mode)) == mode,
{
    reveal_strlit("auto");
    reveal_strlit("native");
    reveal_strlit("browser");
    reveal_strlit("direct");
    reveal_strlit("launchd");
    reveal_strlit("disabled");
    assert("auto"@.len() == 4);
    assert("native"@.len() == 6 && "native"@[0] == 'n');
    assert("browser"@.len() == 7 && "browser"@[0] == 'b');
    assert("direct"@.len() == 6 && "direct"@[0] == 'd');
    assert("launchd"@.len() == 7 && "launchd"@[0] == 'l');
    assert("disabled"@.len() == 8);
}

/// Where the shared key is kept.
#[derive(Debug, Clone, Copy, PartialEq, Eq, Structural)]
pub enum SecretSource {
    File,
    Keychain,
}

pub type MessagePayload = JsonValue;

/// The envelope of an answer.
#[derive(Debug)]
pub struct APWResponseEnvelope<T> {
    pub ok: bool,
    pub code: Status,
    pub payload: Option<T>,
    pub error: Option<String>,
    pub request_id: Option<String>,
}

#[derive(Debug)]
pub enum RequestResult<T> {
    Success { data: T },
    Failure { error: APWErrorShape },
}

#[derive(Debug)]
pub struct APWErrorShape {
    pub code: Status,
    pub message: String,
}

/// A message of the key exchange.
#[allow(non_snake_case)]
#[derive(Debug)]
pub struct PAKEMessage {
    pub TID: String,
    pub MSG: JsonValue,
    pub A: String,
    pub s: String,
    pub B: String,
    pub VER: Option<JsonValue>,
    pub PROTO: JsonValue,
    pub HAMK: Option<String>,
    pub ErrCode: Option<JsonValue>,
}

/// An encrypted message and the session that it is for.
#[allow(non_snake_case)]
#[derive(Debug)]
pub struct SMSG {
    pub TID: String,
    pub SDATA: String,
}

#[allow(non_snake_case)]
#[derive(Debug)]
pub struct SRPHandshakeMessage {
    pub QID: String,
    pub HSTBRSR: String,
    pub PAKE: JsonValue,
}

/// A request to the helper.
#[derive(Debug)]
pub struct Message {
    pub cmd: i32,
    pub payload: Option<JsonValue>,
    pub msg: Option<JsonValue>,
    pub capabilities: Option<JsonValue>,
    pub set_up_totp_page_url: Option<String>,
    pub set_up_totp_uri: Option<String>,
    pub url: Option<String>,
    pub tab_id: Option<i32>,
    pub frame_id: Option<i32>,
}

/// An object's members with one more, where there is a value for it.
pub open spec fn with_some(
    members: Map<Seq<char>, Json>,
    key: Seq<char>,
    value: Option<Json>,
) -> Map<Seq<char>, Json> {
    match value {
        Some(v) => members.insert(key, v),
        None => members,
    }
}

/// The model of an optional value.
pub open spec fn opt_json(v: Option<JsonValue>) -> Option<Json> {
    match v {
        Some(v) => Some(v@),
        None => None,
    }
}

/// The model of an optional text.
pub open spec fn opt_str_json(v: Option<String>) -> Option<Json> {
    match v {
        Some(v) => Some(Json::Str(v@)),
        None => None,
    }
}

/// The model of an optional number.
pub open spec fn opt_int_json(v: Option<i32>) -> Option<Json> {
    match v {
        Some(v) => Some(Json::Int(v as int)),
        None => None,
    }
}

/// Members in their order with one more behind them, where there is a value for it.
pub open spec fn with_member(
    members: Seq<(Seq<char>, Json)>,
    key: Seq<char>,
    value: Option<Json>,
) -> Seq<(Seq<char>, Json)> {
    match value {
        Some(v) => members.push((key, v)),
        None => members,
    }
}

proof fn lemma_with_member(members: Seq<(Seq<char>, Json)>, key: Seq<char>, value: Option<Json>)
    ensures
        object_of(with_member(members, key, value)) == with_some(object_of(members), key, value),
{
    match value {
        Some(v) => {
            assert(members.push((key, v)).drop_last() =~= members);
        },
        None => {},
    }
}

fn put(members: &mut Vec<(String, JsonValue)>, key: &str, value: JsonValue)
    ensures
        listed(final(members)@) == listed(old(members)@).push((key@, value@)),
{
    members.push((owned(key), value));
    proof {
        assert(listed(members@) =~= listed(old(members)@).push((key@, value@)));
    }
}

fn put_value(members: &mut Vec<(String, JsonValue)>, key: &str, value: &Option<JsonValue>)
    ensures
        listed(final(members)@) == with_member(listed(old(members)@), key@, opt_json(*value)),
{
    match value {
        Some(v) => put(members, key, v.copy()),
        None => {},
    }
}

fn put_text(members: &mut Vec<(String, JsonValue)>, key: &str, value: &Option<String>)
    ensures
        listed(final(members)@) == with_member(listed(old(members)@), key@, opt_str_json(*value)),
{
    match value {
        Some(v) => put(members, key, JsonValue::text(v.as_str())),
        None => {},
    }
}

fn put_int(members: &mut Vec<(String, JsonValue)>, key: &str, value: &Option<i32>)
    ensures
        listed(final(members)@) == with_member(listed(old(members)@), key@, opt_int_json(*value)),
{
    match value {
        Some(v) => put(members, key, JsonValue::integer(*v as i64)),
        None => {},
    }
}

impl View for Message {
    type V = Json;

    /// The JSON object of a message: absent parts are left out.
    open spec fn view(&self) -> Json {
        let m = Map::<Seq<char>, Json>::empty().insert("cmd"@, Json::Int(self.cmd as int));
        let m = with_some(m, "payload"@, opt_json(self.payload));
        let m = with_some(m, "msg"@, opt_json(self.msg));
        let m = with_some(m, "capabilities"@, opt_json(self.capabilities));
        let m = with_some(m, "setUpTOTPPageURL"@, opt_str_json(self.set_up_totp_page_url));
        let m = with_some(m, "setUpTOTPURI"@, opt_str_json(self.set_up_totp_uri));
        let m = with_some(m, "url"@, opt_str_json(self.url));
        let m = with_some(m, "tabId"@, opt_int_json(self.tab_id));
        Json::Obj(with_some(m, "frameId"@, opt_int_json(self.frame_id)))
    }
}

impl Message {
    /// The members of a message in the order in which they are printed.
    pub open spec fn members(self) -> Seq<(Seq<char>, Json)> {
        let m = seq![("cmd"@, Json::Int(self.cmd as int))];
        let m = with_member(m, "payload"@, opt_json(self.payload));
        let m = with_member(m, "msg"@, opt_json(self.msg));
        let m = with_member(m, "capabilities"@, opt_json(self.capabilities));
        let m = with_member(m, "setUpTOTPPageURL"@, opt_str_json(self.set_up_totp_page_url));
        let m = with_member(m, "setUpTOTPURI"@, opt_str_json(self.set_up_totp_uri));
        let m = with_member(m, "url"@, opt_str_json(self.url));
        let m = with_member(m, "tabId"@, opt_int_json(self.tab_id));
        with_member(m, "frameId"@, opt_int_json(self.frame_id))
    }

    proof fn lemma_members(self)
        ensures
            Json::Obj(object_of(self.members())) == self@,
    {
        let m = seq![("cmd"@, Json::Int(self.cmd as int))];
        assert(m.drop_last() =~= Seq::<(Seq<char>, Json)>::empty());
        assert(object_of(m.drop_last()) =~= Map::<Seq<char>, Json>::empty());
        lemma_with_member(m, "payload"@, opt_json(self.payload));
        let m = with_member(m, "payload"@, opt_json(self.payload));
        lemma_with_member(m, "msg"@, opt_json(self.msg));
        let m = with_member(m, "msg"@, opt_json(self.msg));
        lemma_with_member(m, "capabilities"@, opt_json(self.capabilities));
        let m = with_member(m, "capabilities"@, opt_json(self.capabilities));
        lemma_with_member(m, "setUpTOTPPageURL"@, opt_str_json(self.set_up_totp_page_url));
        let m = with_member(m, "setUpTOTPPageURL"@, opt_str_json(self.set_up_totp_page_url));
        lemma_with_member(m, "setUpTOTPURI"@, opt_str_json(self.set_up_totp_uri));
        let m = with_member(m, "setUpTOTPURI"@, opt_str_json(self.set_up_totp_uri));
        lemma_with_member(m, "url"@, opt_str_json(self.url));
        let m = with_member(m, "url"@, opt_str_json(self.url));
        lemma_with_member(m, "tabId"@, opt_int_json(self.tab_id));
        let m = with_member(m, "tabId"@, opt_int_json(self.tab_id));
        lemma_with_member(m, "frameId"@, opt_int_json(self.frame_id));
    }

    fn to_members(&self) -> (r: Vec<(String, JsonValue)>)
        ensures
            listed(r@) == self.members(),
            Json::Obj(object_of(listed(r@))) == self@,
    {
        let mut m: Vec<(String, JsonValue)> = Vec::new();
        put(&mut m, "cmd", JsonValue::integer(self.cmd as i64));
        proof {
            assert(listed(m@) =~= seq![("cmd"@, Json::Int(self.cmd as int))]);
            self.lemma_members();
        }
        put_value(&mut m, "payload", &self.payload);
        put_value(&mut m, "msg", &self.msg);
        put_value(&mut m, "capabilities", &self.capabilities);
        put_text(&mut m, "setUpTOTPPageURL", &self.set_up_totp_page_url);
        put_text(&mut m, "setUpTOTPURI", &self.set_up_totp_uri);
        put_text(&mut m, "url", &self.url);
        put_int(&mut m, "tabId", &self.tab_id);
        put_int(&mut m, "frameId", &self.frame_id);
        m
    }

    /// The JSON object of this message.
    pub fn to_value(&self) -> (r: JsonValue)
        ensures
            r@ == self@,
    {
        let members = self.to_members();
        proof {
            lemma_listed_object(members@);
        }
        JsonValue::Object(members)
    }

    /// The JSON text of this message, with its members in their order. Reading it gives the message
    /// back, as long as its members are plain.
    pub fn to_text(&self) -> (r: Vec<u8>)
        ensures
            r@ == object_text(self.members()),
            plain_members(self.members()) ==> json_parsed(r@) == Some(self@),
    {
        object_to_json(&self.to_members())
    }
}

impl APWResponseEnvelope<JsonValue> {
    /// The JSON object of an envelope: absent parts are left out.
    pub open spec fn model(self) -> Json {
        let m = Map::<Seq<char>, Json>::empty().insert("ok"@, Json::Bool(self.ok)).insert(
            "code"@,
            Json::Int(status_code(self.code) as int),
        );
        let m = with_some(m, "payload"@, opt_json(self.payload));
        let m = with_some(m, "error"@, opt_str_json(self.error));
        Json::Obj(with_some(m, "requestId"@, opt_str_json(self.request_id)))
    }

    /// The members of an envelope in the order in which they are printed.
    pub open spec fn members(self) -> Seq<(Seq<char>, Json)> {
        let m = seq![
            ("ok"@, Json::Bool(self.ok)),
            ("code"@, Json::Int(status_code(self.code) as int)),
        ];
        let m = with_member(m, "payload"@, opt_json(self.payload));
        let m = with_member(m, "error"@, opt_str_json(self.error));
        with_member(m, "requestId"@, opt_str_json(self.request_id))
    }

    proof fn lemma_members(self)
        ensures
            Json::Obj(object_of(self.members())) == self.model(),
    {
        let first = seq![("ok"@, Json::Bool(self.ok))];
        let m = seq![
            ("ok"@, Json::Bool(self.ok)),
            ("code"@, Json::Int(status_code(self.code) as int)),
        ];
        assert(m.drop_last() =~= first);
        assert(first.drop_last() =~= Seq::<(Seq<char>, Json)>::empty());
        assert(object_of(first.drop_last()) =~= Map::<Seq<char>, Json>::empty());
        assert(object_of(first) == Map::<Seq<char>, Json>::empty().insert(
            "ok"@,
            Json::Bool(self.ok),
        ));
        lemma_with_member(m, "payload"@, opt_json(self.payload));
        let m = with_member(m, "payload"@, opt_json(self.payload));
        lemma_with_member(m, "error"@, opt_str_json(self.error));
        let m = with_member(m, "error"@, opt_str_json(self.error));
        lemma_with_member(m, "requestId"@, opt_str_json(self.request_id));
    }

    fn to_members(&self) -> (r: Vec<(String, JsonValue)>)
        ensures
            listed(r@) == self.members(),
            Json::Obj(object_of(listed(r@))) == self.model(),
    {
        let mut m: Vec<(String, JsonValue)> = Vec::new();
        put(&mut m, "ok", JsonValue::Bool(self.ok));
        put(&mut m, "code", JsonValue::integer(self.code.code() as i64));
        proof {
            assert(listed(m@) =~= seq![
                ("ok"@, Json::Bool(self.ok)),
                ("code"@, Json::Int(status_code(self.code) as int)),
            ]);
            self.lemma_members();
        }
        put_value(&mut m, "payload", &self.payload);
        put_text(&mut m, "error", &self.error);
        put_text(&mut m, "requestId", &self.request_id);
        m
    }

    /// The JSON object of this envelope.
    pub fn to_value(&self) -> (r: JsonValue)
        ensures
            r@ == self.model(),
    {
        let members = self.to_members();
        proof {
            lemma_listed_object(members@);
        }
        JsonValue::Object(members)
    }

    /// The JSON text of this envelope, with its members in their order. Reading it gives the
    /// envelope back, as long as its members are plain.
    pub fn to_text(&self) -> (r: Vec<u8>)
        ensures
            r@ == object_text(self.members()),
            plain_members(self.members()) ==> json_parsed(r@) == Some(self.model()),
    {
        object_to_json(&self.to_members())
    }
}

#[derive(Debug, Clone, Copy, PartialEq, Eq, Structural)]
pub enum Command {
    End,
    Unused,
    Handshake,
    SetIconAndTitle,
    GetLoginNamesForUrl,
    GetPasswordForLoginName,
    SetPasswordForLoginNameAndURL,
    NewAccountForURL,
    TabEvent,
    PasswordsDisabled,
    ReLoginNeeded,
    LaunchICloudPasswords,
    ICloudPasswordsStateChange,
    LaunchPasswordsApp,
    GetCapabilities,
    OneTimeCodeAvailable,
    GetOneTimeCodes,
    DidFillOneTimeCode,
    OpenUrlInSafari,
}

/// The number of a command in messages.
pub open spec fn command_number(command: Command) -> i32 {
    match command {
        Command::End => 0,
        Command::Unused => 1,
        Command::Handshake => 2,
        Command::SetIconAndTitle => 3,
        Command::GetLoginNamesForUrl => 4,
        Command::GetPasswordForLoginName => 5,
        Command::SetPasswordForLoginNameAndURL => 6,
        Command::NewAccountForURL => 7,
        Command::TabEvent => 8,
        Command::PasswordsDisabled => 9,
        Command::ReLoginNeeded => 10,
        Command::LaunchICloudPasswords => 11,
        Command::ICloudPasswordsStateChange => 12,
        Command::LaunchPasswordsApp => 13,
        Command::GetCapabilities => 14,
        Command::OneTimeCodeAvailable => 15,
        Command::GetOneTimeCodes => 16,
        Command::DidFillOneTimeCode => 17,
        Command::OpenUrlInSafari => 1984,
    }
}

impl Command {
    /// The number of this command in messages.
    pub fn number(self) -> (r: i32)
        ensures
            r == command_number(self),
    {
        match self {
            Command::End => 0,
            Command::Unused => 1,
            Command::Handshake => 2,
            Command::SetIconAndTitle => 3,
            Command::GetLoginNamesForUrl => 4,
            Command::GetPasswordForLoginName => 5,
            Command::SetPasswordForLoginNameAndURL => 6,
            Command::NewAccountForURL => 7,
            Command::TabEvent => 8,
            Command::PasswordsDisabled => 9,
            Command::ReLoginNeeded => 10,
            Command::LaunchICloudPasswords => 11,
            Command::ICloudPasswordsStateChange => 12,
            Command::LaunchPasswordsApp => 13,
            Command::GetCapabilities => 14,
            Command::OneTimeCodeAvailable => 15,
            Command::GetOneTimeCodes => 16,
            Command::DidFillOneTimeCode => 17,
            Command::OpenUrlInSafari => 1984,
        }
    }
}

#[derive(Debug, Clone, Copy, PartialEq, Eq, Structural)]
pub enum SecretSessionVersion {
    SrpWithOldVerification,
    SrpWithRfcVerification,
}

/// The number of a protocol version in messages.
pub open spec fn version_number(version: SecretSessionVersion) -> i64 {
    match version {
        SecretSessionVersion::SrpWithOldVerification => 0,
        SecretSessionVersion::SrpWithRfcVerification => 1,
    }
}

impl SecretSessionVersion {
    /// The number of this protocol version in messages.
    pub fn number(self) -> (r: i64)
        ensures
            r == version_number(self),
    {
        match self {
            SecretSessionVersion::SrpWithOldVerification => 0,
            SecretSessionVersion::SrpWithRfcVerification => 1,
        }
    }
}

#[derive(Debug, Clone, Copy, PartialEq, Eq, Structural)]
pub enum MSGTypes {
    ClientKeyExchange,
    ServerKeyExchange,
    ClientVerification,
    ServerVerification,
}

/// The number of a key exchange step in messages.
pub open spec fn msg_number(step: MSGTypes) -> i64 {
    match step {
        MSGTypes::ClientKeyExchange => 0,
        MSGTypes::ServerKeyExchange => 1,
        MSGTypes::ClientVerification => 2,
        MSGTypes::ServerVerification => 3,
    }
}

impl MSGTypes {
    /// The number of this key exchange step in messages.
    pub fn number(self) -> (r: i64)
        ensures
            r == msg_number(self),
    {
        match self {
            MSGTypes::ClientKeyExchange => 0,
            MSGTypes::ServerKeyExchange => 1,
            MSGTypes::ClientVerification => 2,
            MSGTypes::ServerVerification => 3,
        }
    }
}

#[derive(Debug, Clone, Copy, PartialEq, Eq, Structural)]
pub enum Action {
    Unknown,
    Delete,
    Update,
    Search,
    AddNew,
    MaybeAdd,
    GhostSearch,
}

/// The word for an action in messages.
pub open spec fn action_word(action: Action) -> Seq<char> {
    match action {
        Action::Unknown => "Unknown"@,
        Action::Delete => "Delete"@,
        Action::Update => "Update"@,
        Action::Search => "Search"@,
        Action::AddNew => "AddNew"@,
        Action::MaybeAdd => "MaybeAdd"@,
        Action::GhostSearch => "GhostSearch"@,
    }
}

impl Action {
    /// The word for this action in messages.
    pub fn word(self) -> (r: &'static str)
        ensures
            r@ == action_word(self),
    {
        match self {
            Action::Unknown => "Unknown",
            Action::Delete => "Delete",
            Action::Update => "Update",
            Action::Search => "Search",
            Action::AddNew => "AddNew",
            Action::MaybeAdd => "MaybeAdd",
            Action::GhostSearch => "GhostSearch",
        }
    }
}

/// The outcome of an operation.
#[derive(Debug, Clone, Copy, PartialEq, Eq, Structural)]
pub enum Status {
    Success,
    GenericError,
    InvalidParam,
    NoResults,
    FailedToDelete,
    FailedToUpdate,
    InvalidMessageFormat,
    DuplicateItem,
    UnknownAction,
    InvalidSession,
    ServerError,
    CommunicationTimeout,
    InvalidConfig,
    ProcessNotRunning,
    ProtoInvalidResponse,
}

/// The number of a status.
pub open spec fn status_code(status: Status) -> i32 {
    match status {
        Status::Success => 0,
        Status::GenericError => 1,
        Status::InvalidParam => 2,
        Status::NoResults => 3,
        Status::FailedToDelete => 4,
        Status::FailedToUpdate => 5,
        Status::InvalidMessageFormat => 6,
        Status::DuplicateItem => 7,
        Status::UnknownAction => 8,
        Status::InvalidSession => 9,
        Status::ServerError => 100,
        Status::CommunicationTimeout => 101,
        Status::InvalidConfig => 102,
        Status::ProcessNotRunning => 103,
        Status::ProtoInvalidResponse => 104,
    }
}

/// The status that a number stands for, where it stands for one.
pub open spec fn status_of_code(code: i64) -> Option<Status> {
    if code == 0 {
        Some(Status::Success)
    } else if code == 1 {
        Some(Status::GenericError)
    } else if code == 2 {
        Some(Status::InvalidParam)
    } else if code == 3 {
        Some(Status::NoResults)
    } else if code == 4 {
        Some(Status::FailedToDelete)
    } else if code == 5 {
        Some(Status::FailedToUpdate)
    } else if code == 6 {
        Some(Status::InvalidMessageFormat)
    } else if code == 7 {
        Some(Status::DuplicateItem)
    } else if code == 8 {
        Some(Status::UnknownAction)
    } else if code == 9 {
        Some(Status::InvalidSession)
    } else if code == 100 {
        Some(Status::ServerError)
    } else if code == 101 {
        Some(Status::CommunicationTimeout)
    } else if code == 102 {
        Some(Status::InvalidConfig)
    } else if code == 103 {
        Some(Status::ProcessNotRunning)
    } else if code == 104 {
        Some(Status::ProtoInvalidResponse)
    } else {
        None
    }
}

/// A status and its number stand for each other, and no other number stands for a status.
pub proof fn law_status_code_round_trip(status: Status, code: i64)
    ensures
        status_of_code(status_code(status) as i64) == Some(status),
        status_of_code(code) == Some(status) ==> status_code(status) as i64 == code,
{
}

impl Status {
    /// The number of this status.
    pub fn code(self) -> (r: i32)
        ensures
            r == status_code(self),
    {
        match self {
            Status::Success => 0,
            Status::GenericError => 1,
            Status::InvalidParam => 2,
            Status::NoResults => 3,
            Status::FailedToDelete => 4,
            Status::FailedToUpdate => 5,
            Status::InvalidMessageFormat => 6,
            Status::DuplicateItem => 7,
            Status::UnknownAction => 8,
            Status::InvalidSession => 9,
            Status::ServerError => 100,
            Status::CommunicationTimeout => 101,
            Status::InvalidConfig => 102,
            Status::ProcessNotRunning => 103,
            Status::ProtoInvalidResponse => 104,
        }
    }

    /// The status that a number stands for, where it stands for one.
    pub fn of_code(code: i64) -> (r: Option<Status>)
        ensures
            r == status_of_code(code),
    {
        if code == 0 {
            Some(Status::Success)
        } else if code == 1 {
            Some(Status::GenericError)
        } else if code == 2 {
            Some(Status::InvalidParam)
        } else if code == 3 {
            Some(Status::NoResults)
        } else if code == 4 {
            Some(Status::FailedToDelete)
        } else if code == 5 {
            Some(Status::FailedToUpdate)
        } else if code == 6 {
            Some(Status::InvalidMessageFormat)
        } else if code == 7 {
            Some(Status::DuplicateItem)
        } else if code == 8 {
            Some(Status::UnknownAction)
        } else if code == 9 {
            Some(Status::InvalidSession)
        } else if code == 100 {
            Some(Status::ServerError)
        } else if code == 101 {
            Some(Status::CommunicationTimeout)
        } else if code == 102 {
            Some(Status::InvalidConfig)
        } else if code == 103 {
            Some(Status::ProcessNotRunning)
        } else if code == 104 {
            Some(Status::ProtoInvalidResponse)
        } else {
            None
        }
    }

    /// The status that a JSON value of a message names: a number, the text of a number, or one of
    /// the lower-case words; `GenericError` for other numbers and texts, nothing for a value that
    /// is neither.
    pub fn deserialize(value: &JsonValue) -> (r: Option<Status>)
        ensures
            r == status_of_json(value@),
    {
        match value.as_i64() {
            Some(code) => {
                return Some(normalize_status(code));
            },
            None => {},
        }
        match value.as_u64() {
            Some(_) => {
                return Some(Status::GenericError);
            },
            None => {},
        }
        match value.as_str() {
            Some(text) => Some(Status::of_text(text.as_str())),
            None => None,
        }
    }

    /// The status that text names: the text of a number, or one of the words in letters of either
    /// case; `GenericError` for every other text.
    pub fn of_text(text: &str) -> (r: Status)
        ensures
            r == status_of_text(text@),
    {
        match parse_i64(text) {
            Some(code) => normalize_status(code),
            None => {
                let word = to_lowercase(text);
                Status::of_word(word.as_str())
            },
        }
    }

    /// The status that a lower-case word names; `GenericError` for every other word.
    pub fn of_word(word: &str) -> (r: Status)
        ensures
            r == status_of_word(word@),
    {
        if str_eq(word, "success") {
            Status::Success
        } else if str_eq(word, "invalid_param") {
            Status::InvalidParam
        } else if str_eq(word, "no_results") {
            Status::NoResults
        } else if str_eq(word, "failed_to_delete") {
            Status::FailedToDelete
        } else if str_eq(word, "failed_to_update") {
            Status::FailedToUpdate
        } else if str_eq(word, "invalid_message_format") {
            Status::InvalidMessageFormat
        } else if str_eq(word, "duplicate_item") {
            Status::DuplicateItem
        } else if str_eq(word, "unknown_action") {
            Status::UnknownAction
        } else if str_eq(word, "invalid_session") {
            Status::InvalidSession
        } else if str_eq(word, "server_error") {
            Status::ServerError
        } else if str_eq(word, "communication_timeout") {
            Status::CommunicationTimeout
        } else if str_eq(word, "invalid_config") {
            Status::InvalidConfig
        } else if str_eq(word, "process_not_running") {
            Status::ProcessNotRunning
        } else if str_eq(word, "proto_invalid_response") {
            Status::ProtoInvalidResponse
        } else {
            Status::GenericError
        }
    }
}

/// The status that a lower-case word names; `GenericError` for every other word.
pub open spec fn status_of_word(word: Seq<char>) -> Status {
    if word == "success"@ {
        Status::Success
    } else if word == "invalid_param"@ {
        Status::InvalidParam
    } else if word == "no_results"@ {
        Status::NoResults
    } else if word == "failed_to_delete"@ {
        Status::FailedToDelete
    } else if word == "failed_to_update"@ {
        Status::FailedToUpdate
    } else if word == "invalid_message_format"@ {
        Status::InvalidMessageFormat
    } else if word == "duplicate_item"@ {
        Status::DuplicateItem
    } else if word == "unknown_action"@ {
        Status::UnknownAction
    } else if word == "invalid_session"@ {
        Status::InvalidSession
    } else if word == "server_error"@ {
        Status::ServerError
    } else if word == "communication_timeout"@ {
        Status::CommunicationTimeout
    } else if word == "invalid_config"@ {
        Status::InvalidConfig
    } else if word == "process_not_running"@ {
        Status::ProcessNotRunning
    } else if word == "proto_invalid_response"@ {
        Status::ProtoInvalidResponse
    } else {
        Status::GenericError
    }
}

/// The status that text names.
pub open spec fn status_of_text(text: Seq<char>) -> Status {
    match integer_of(text) {
        Some(code) => normalized_status(code),
        None => status_of_word(lowercased(text)),
    }
}

/// The status that a JSON value names.
pub open spec fn status_of_json(value: Json) -> Option<Status> {
    match value {
        Json::Int(n) => if i64::MIN <= n <= i64::MAX {
            Some(normalized_status(n as i64))
        } else if 0 <= n <= u64::MAX {
            Some(Status::GenericError)
        } else {
            None
        },
        Json::Str(text) => Some(status_of_text(text)),
        _ => None,
    }
}

/// The status that a number stands for; `GenericError` for every other number.
pub open spec fn normalized_status(code: i64) -> Status {
    match status_of_code(code) {
        Some(status) => status,
        None => Status::GenericError,
    }
}

/// The status that a number stands for; `GenericError` for every other number.
pub fn normalize_status(value: i64) -> (r: Status)
    ensures
        r == normalized_status(value),
{
    match Status::of_code(value) {
        Some(status) => status,
        None => Status::GenericError,
    }
}

/// The message for a status.
pub open spec fn status_message(status: Status) -> Seq<char> {
    match status {
        Status::Success => "Operation successful"@,
        Status::GenericError => "A generic error occurred"@,
        Status::InvalidParam => "Invalid parameter provided"@,
        Status::NoResults => "No results found"@,
        Status::FailedToDelete => "Failed to delete item"@,
        Status::FailedToUpdate => "Failed to update item"@,
        Status::InvalidMessageFormat => "Invalid message format"@,
        Status::DuplicateItem => "Duplicate item found"@,
        Status::UnknownAction => "Unknown action requested"@,
        Status::InvalidSession => "Invalid session, reauthenticate with `apw auth`"@,
        Status::ServerError => "Server error"@,
        Status::CommunicationTimeout => "Communication timeout"@,
        Status::InvalidConfig => "Stored configuration is invalid"@,
        Status::ProcessNotRunning => "Helper process not running"@,
        Status::ProtoInvalidResponse => "Invalid response payload"@,
    }
}

/// The message for a status.
pub fn status_text(status: Status) -> (r: &'static str)
    ensures
        r@ == status_message(status),
{
    match status {
        Status::Success => "Operation successful",
        Status::GenericError => "A generic error occurred",
        Status::InvalidParam => "Invalid parameter provided",
        Status::NoResults => "No results found",
        Status::FailedToDelete => "Failed to delete item",
        Status::FailedToUpdate => "Failed to update item",
        Status::InvalidMessageFormat => "Invalid message format",
        Status::DuplicateItem => "Duplicate item found",
        Status::UnknownAction => "Unknown action requested",
        Status::InvalidSession => "Invalid session, reauthenticate with `apw auth`",
        Status::ServerError => "Server error",
        Status::CommunicationTimeout => "Communication timeout",
        Status::InvalidConfig => "Stored configuration is invalid",
        Status::ProcessNotRunning => "Helper process not running",
        Status::ProtoInvalidResponse => "Invalid response payload",
    }
}

impl TryFrom<i64> for Status {
    type Error = ();

    fn try_from(value: i64) -> (r: std::result::Result<Status, ()>) {
        match Status::of_code(value) {
            Some(status) => Ok(status),
            None => Err(()),
        }
    }
}

impl vstd::std_specs::convert::TryFromSpecImpl<i64> for Status {
    open spec fn obeys_try_from_spec() -> bool {
        true
    }

    open spec fn try_from_spec(v: i64) -> std::result::Result<Status, ()> {
        match status_of_code(v) {
            Some(status) => Ok(status),
            None => Err(()),
        }
    }
}

impl TryFrom<i32> for Status {
    type Error = ();

    fn try_from(value: i32) -> (r: std::result::Result<Status, ()>) {
        match Status::of_code(value as i64) {
            Some(status) => Ok(status),
            None => Err(()),
        }
    }
}

impl vstd::std_specs::convert::TryFromSpecImpl<i32> for Status {
    open spec fn obeys_try_from_spec() -> bool {
        true
    }

    open spec fn try_from_spec(v: i32) -> std::result::Result<Status, ()> {
        match status_of_code(v as i64) {
            Some(status) => Ok(status),
            None => Err(()),
        }
    }
}

impl From<Status> for i32 {
    fn from(value: Status) -> (r: i32) {
        value.code()
    }
}

impl vstd::std_specs::convert::FromSpecImpl<Status> for i32 {
    open spec fn obeys_from_spec() -> bool {
        true
    }

    open spec fn from_spec(v: Status) -> i32 {
        status_code(v)
    }
}

} // verus!
