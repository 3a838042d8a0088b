//! The configuration file: what is read from it, and what is written to it. Files and the
//! keychain are the caller's; the functions here say what is made of what was found, and what is
//! to be done.
pub use crate::bignum::{mod_, powermod};
pub use crate::clock::stale_config;
pub use crate::codec::{bigint_to_base64, read_bigint, to_base64, to_hex};
pub use crate::crypto::{random_bytes, sha256};
use crate::bignum::{be_bytes, be_value, BigUint};
use crate::clock::{epoch_text, moment_of, stale, Moment, EPOCH_TEXT};
use crate::codec::{base64_bytes, base64_text};
use crate::error::{fails, APWError, Result};
use crate::json::{json_parsed, parse_json, JsonValue};
use crate::text::{contains_char, copy_opt, opt_text, owned, trim, trimmed};
use crate::types::{
    empty_config, empty_runtime, no_bridge, no_launch, normalize_status, normalized_status,
    APWConfig, APWConfigV1, APWRuntimeConfig, BridgeModel, ConfigModel, LaunchModel, RuntimeMode,
    RuntimeModel, SecretSource, Status, CONFIG_SCHEMA, DEFAULT_HOST, DEFAULT_PORT,
};
use vstd::prelude::*;
use vstd::utf8::encode_utf8;

verus! {

/// How long a session lasts: thirty days.
pub const SESSION_MAX_AGE_MS: u64 = 30 * 24 * 60 * 60 * 1000;

/// The file mode of the configuration directory.
pub const CONFIG_DIRECTORY_MODE: u32 = 0o700;

/// The file mode of the configuration file.
pub const CONFIG_FILE_MODE: u32 = 0o600;

/// The most bytes that a configuration file may have.
pub const MAX_CONFIG_SIZE_BYTES: usize = 10 * 1024;

pub const INCOMPLETE_CONFIG: &'static str =
    "Cannot persist incomplete config. Run `apw auth` again.";

/// How a configuration is read.
#[derive(Debug, Clone, Copy)]
pub struct ConfigReadOptions {
    pub require_auth: bool,
    pub max_age_ms: u64,
    pub ignore_expiry: bool,
}

impl Default for ConfigReadOptions {
    fn default() -> (r: ConfigReadOptions)
        ensures
            r == (ConfigReadOptions {
                require_auth: false,
                max_age_ms: SESSION_MAX_AGE_MS,
                ignore_expiry: false,
            }),
    {
        ConfigReadOptions {
            require_auth: false,
            max_age_ms: SESSION_MAX_AGE_MS,
            ignore_expiry: false,
        }
    }
}

/// What is to be written to the configuration; what is absent stays as it is.
#[derive(Debug)]
pub struct WriteConfigInput {
    pub username: Option<String>,
    pub shared_key: Option<BigUint>,
    pub port: Option<u16>,
    pub host: Option<String>,
    pub allow_empty: bool,
    pub clear_auth: bool,
    pub runtime_mode: Option<RuntimeMode>,
    pub last_launch_status: Option<String>,
    pub last_launch_error: Option<String>,
    pub last_launch_strategy: Option<String>,
    pub bridge_status: Option<String>,
    pub bridge_browser: Option<String>,
    pub bridge_connected_at: Option<String>,
    pub bridge_last_error: Option<String>,
    pub reset_launch_metadata: bool,
    pub reset_bridge_metadata: bool,
    pub refresh_created_at: bool,
}

impl Default for WriteConfigInput {
    fn default() -> (r: WriteConfigInput)
        ensures
            r == (WriteConfigInput {
                username: None,
                shared_key: None,
                port: None,
                host: None,
                allow_empty: false,
                clear_auth: false,
                runtime_mode: None,
                last_launch_status: None,
                last_launch_error: None,
                last_launch_strategy: None,
                bridge_status: None,
                bridge_browser: None,
                bridge_connected_at: None,
                bridge_last_error: None,
                reset_launch_metadata: false,
                reset_bridge_metadata: false,
                refresh_created_at: false,
            }),
    {
        WriteConfigInput {
            username: None,
            shared_key: None,
            port: None,
            host: None,
            allow_empty: false,
            clear_auth: false,
            runtime_mode: None,
            last_launch_status: None,
            last_launch_error: None,
            last_launch_strategy: None,
            bridge_status: None,
            bridge_browser: None,
            bridge_connected_at: None,
            bridge_last_error: None,
            reset_launch_metadata: false,
            reset_bridge_metadata: false,
            refresh_created_at: false,
        }
    }
}

/// A path with one more component.
pub open spec fn joined(base: Seq<char>, name: Seq<char>) -> Seq<char> {
    if base.len() == 0 {
        name
    } else if base[base.len() - 1] == '/' {
        base + name
    } else {
        base + "/"@ + name
    }
}

/// A path with one more component.
pub fn join_path(base: &str, name: &str) -> (r: String)
    ensures
        r@ == joined(base@, name@),
{
    let chars = crate::text::chars_of(base);
    if chars.len() == 0 {
        owned(name)
    } else if chars[chars.len() - 1] == '/' {
        crate::text::cat(base, name)
    } else {
        let slashed = crate::text::cat(base, "/");
        crate::text::cat(slashed.as_str(), name)
    }
}

/// The home directory: that of the environment, of the user profile, or the working directory.
pub open spec fn home_of(home: Option<String>, profile: Option<String>) -> Seq<char> {
    match home {
        Some(home) => home@,
        None => match profile {
            Some(profile) => profile@,
            None => "."@,
        },
    }
}

/// The directory of the configuration.
pub fn config_root(home: &Option<String>, profile: &Option<String>) -> (r: String)
    ensures
        r@ == joined(home_of(*home, *profile), ".apw"@),
{
    match home {
        Some(home) => join_path(home.as_str(), ".apw"),
        None => match profile {
            Some(profile) => join_path(profile.as_str(), ".apw"),
            None => join_path(".", ".apw"),
        },
    }
}

/// The path of the configuration file.
pub fn config_path(home: &Option<String>, profile: &Option<String>) -> (r: String)
    ensures
        r@ == joined(joined(home_of(*home, *profile), ".apw"@), "config.json"@),
{
    let root = config_root(home, profile);
    join_path(root.as_str(), "config.json")
}

/// Whether a port can be used.
pub fn is_valid_port(port: u16) -> (r: bool)
    ensures
        r == (port != 0),
{
    port != 0
}

/// The position of the first flag that is set.
pub open spec fn first_true(flags: Seq<bool>) -> Option<int>
    decreases flags.len(),
{
    if flags.len() == 0 {
        None
    } else if flags[0] {
        Some(0)
    } else {
        match first_true(flags.subrange(1, flags.len() as int)) {
            Some(i) => Some(i + 1),
            None => None,
        }
    }
}

/// The position of the first flag that is set.
pub(crate) fn find_first(flags: &Vec<bool>) -> (r: Option<usize>)
    ensures
        match first_true(flags@) {
            Some(i) => r is Some && r->0 == i && i < flags@.len(),
            None => r is None,
        },
{
    let mut i: usize = 0;
    proof {
        assert(flags@.subrange(0, flags@.len() as int) =~= flags@);
    }
    while i < flags.len()
        invariant
            i <= flags.len(),
            first_true(flags@) == match first_true(
                flags@.subrange(i as int, flags@.len() as int),
            ) {
                Some(k) => Some(k + i),
                None => None,
            },
        decreases flags.len() - i,
    {
        proof {
            let rest = flags@.subrange(i as int, flags@.len() as int);
            assert(rest[0] == flags@[i as int]);
            assert(rest.subrange(1, rest.len() as int) =~= flags@.subrange(
                i + 1,
                flags@.len() as int,
            ));
        }
        if flags[i] {
            return Some(i);
        }
        i = i + 1;
    }
    None
}

/// Whether a host can be used: it is more than white space and has no null character.
pub open spec fn valid_host(host: Seq<char>) -> bool {
    trimmed(host).len() > 0 && !host.contains('\0')
}

/// Whether a host can be used.
pub fn is_valid_host(host: &str) -> (r: bool)
    ensures
        r == valid_host(host@),
{
    let inner = trim(host);
    !inner.as_str().is_empty() && !contains_char(host, '\0')
}

/// What the JSON document in a configuration file is.
pub enum ConfigContent {
    /// A configuration with a schema number.
    V1(APWConfigV1),
    /// A configuration without one.
    Legacy(APWConfig),
    /// A JSON document of another form.
    Unrecognized,
}

/// What was found at the path of the configuration file.
pub enum ConfigFile {
    /// Nothing.
    Absent,
    /// Something that is not a regular file.
    Special,
    /// A regular file of so many bytes, with its text where it could be read.
    Regular { len: u64, content: Option<String> },
}

/// A result, and whether the configuration is to be cleared on that account.
pub struct ConfigOutcome<T> {
    pub result: Result<T>,
    pub clear: bool,
}

/// Where the shared key of a configuration is.
pub open spec fn secret_source_of(raw: ConfigModel) -> SecretSource {
    match raw.secret_source {
        Some(source) => source,
        None => if raw.shared_key.len() == 0 {
            SecretSource::Keychain
        } else {
            SecretSource::File
        },
    }
}

/// Where the shared key of a configuration is.
pub fn resolve_secret_source(raw: &APWConfigV1) -> (r: SecretSource)
    ensures
        r == secret_source_of(raw@),
{
    match raw.secret_source {
        Some(source) => source,
        None => if raw.shared_key.as_str().is_empty() {
            SecretSource::Keychain
        } else {
            SecretSource::File
        },
    }
}

/// The text, or the default where there is none.
pub open spec fn text_or(text: Option<String>, default: Seq<char>) -> Seq<char> {
    match text {
        Some(text) => text@,
        None => default,
    }
}

/// The model of a configuration without a schema number, read at the given time.
pub open spec fn legacy_config(raw: APWConfig, now: Seq<char>) -> ConfigModel {
    ConfigModel {
        schema: CONFIG_SCHEMA,
        port: match raw.port {
            Some(port) => port,
            None => DEFAULT_PORT,
        },
        host: text_or(raw.host, DEFAULT_HOST@),
        username: text_or(raw.username, Seq::empty()),
        shared_key: text_or(raw.shared_key, Seq::empty()),
        runtime_mode: RuntimeMode::Auto,
        launch: no_launch(),
        bridge: no_bridge(),
        secret_source: if text_or(raw.shared_key, Seq::empty()).len() > 0 {
            Some(SecretSource::File)
        } else {
            None
        },
        created_at: text_or(raw.created_at, now),
    }
}

fn take_or(text: Option<String>, default: &str) -> (r: String)
    ensures
        r@ == text_or(text, default@),
{
    match text {
        Some(text) => text,
        None => owned(default),
    }
}

fn take_or_empty(text: Option<String>) -> (r: String)
    ensures
        r@ == text_or(text, Seq::empty()),
{
    match text {
        Some(text) => text,
        None => String::new(),
    }
}

/// Brings a configuration without a schema number into the present form.
pub fn normalize_legacy_config(raw: APWConfig, now: &str) -> (r: APWConfigV1)
    ensures
        r@ == legacy_config(raw, now@),
{
    let shared_key = take_or_empty(raw.shared_key);
    let secret_source = if shared_key.as_str().is_empty() {
        None
    } else {
        Some(SecretSource::File)
    };
    APWConfigV1 {
        schema: CONFIG_SCHEMA,
        port: match raw.port {
            Some(port) => port,
            None => DEFAULT_PORT,
        },
        host: take_or(raw.host, DEFAULT_HOST),
        username: take_or_empty(raw.username),
        shared_key,
        runtime_mode: RuntimeMode::Auto,
        last_launch_status: None,
        last_launch_error: None,
        last_launch_strategy: None,
        bridge_status: None,
        bridge_browser: None,
        bridge_connected_at: None,
        bridge_last_error: None,
        secret_source,
        created_at: take_or(raw.created_at, now),
    }
}

/// The message for a configuration file that is not there.
pub open spec fn no_config_message(path: Seq<char>) -> Seq<char> {
    "No config file at "@ + path + "."@
}

fn no_config<T>(path: &str) -> (r: Result<T>)
    ensures
        fails(r, Status::InvalidConfig, no_config_message(path@)),
{
    let start = crate::text::cat("No config file at ", path);
    let message = crate::text::cat(start.as_str(), ".");
    Err(APWError::new(Status::InvalidConfig, message.as_str()))
}

fn bad_config<T>(message: &str) -> (r: Result<T>)
    ensures
        fails(r, Status::InvalidConfig, message@),
{
    Err(APWError::new(Status::InvalidConfig, message))
}

/// The JSON document in the text of a configuration file. Text that is not one is unusable for
/// good: the file is cleared.
pub fn parse_config_text(content: &str) -> (r: ConfigOutcome<JsonValue>)
    ensures
        match json_parsed(encode_utf8(content@)) {
            Some(value) => r.result is Ok && r.result->Ok_0@ == value && !r.clear,
            None => fails(
                r.result,
                Status::InvalidConfig,
                "Config file contains invalid JSON."@,
            ) && r.clear,
        },
{
    match parse_json(content.as_bytes()) {
        Some(value) => ConfigOutcome { result: Ok(value), clear: false },
        None => ConfigOutcome {
            result: bad_config("Config file contains invalid JSON."),
            clear: true,
        },
    }
}

/// What a recognized document comes to. One of another schema or without a usable address is
/// cleared, one of an unknown form is left.
pub open spec fn content_meets(
    content: ConfigContent,
    now: Seq<char>,
    r: ConfigOutcome<APWConfigV1>,
) -> bool {
    match content {
        ConfigContent::Unrecognized => fails(
            r.result,
            Status::InvalidConfig,
            "Invalid config format. Run `apw auth` again."@,
        ) && !r.clear,
        ConfigContent::V1(v1) => if v1.schema != CONFIG_SCHEMA {
            fails(r.result, Status::InvalidConfig, "Unsupported config schema."@) && r.clear
        } else if v1.port == 0 || !valid_host(v1.host@) {
            fails(r.result, Status::InvalidConfig, "Invalid config host or port."@) && r.clear
        } else {
            r.result is Ok && r.result->Ok_0 == v1 && !r.clear
        },
        ConfigContent::Legacy(legacy) => r.result is Ok && r.result->Ok_0@ == legacy_config(
            legacy,
            now,
        ) && !r.clear,
    }
}

/// The configuration that a recognized document is.
pub fn accept_config(content: ConfigContent, now: &str) -> (r: ConfigOutcome<APWConfigV1>)
    ensures
        content_meets(content, now@, r),
{
    match content {
        ConfigContent::Unrecognized => ConfigOutcome {
            result: bad_config("Invalid config format. Run `apw auth` again."),
            clear: false,
        },
        ConfigContent::V1(v1) => {
            if v1.schema != CONFIG_SCHEMA {
                ConfigOutcome { result: bad_config("Unsupported config schema."), clear: true }
            } else if !is_valid_port(v1.port) || !is_valid_host(v1.host.as_str()) {
                ConfigOutcome { result: bad_config("Invalid config host or port."), clear: true }
            } else {
                ConfigOutcome { result: Ok(v1), clear: false }
            }
        },
        ConfigContent::Legacy(legacy) => ConfigOutcome {
            result: Ok(normalize_legacy_config(legacy, now)),
            clear: false,
        },
    }
}

/// The configuration in a file. A file that is unusable for good is cleared; one that is missing,
/// unreadable or of an unknown form is left. `recognize` says what a JSON document is.
pub fn read_config_file<R: Fn(JsonValue) -> ConfigContent>(
    file: ConfigFile,
    recognize: &R,
    path: &str,
    now: &str,
) -> (r: ConfigOutcome<APWConfigV1>)
    requires
        forall|value: JsonValue| #[trigger] call_requires(*recognize, (value,)),
    ensures
        match file {
            ConfigFile::Absent => fails(
                r.result,
                Status::InvalidConfig,
                no_config_message(path@),
            ) && !r.clear,
            ConfigFile::Special => fails(
                r.result,
                Status::InvalidConfig,
                "Config file is not a regular file."@,
            ) && r.clear,
            ConfigFile::Regular { len, content } => if len > MAX_CONFIG_SIZE_BYTES {
                fails(r.result, Status::InvalidConfig, "Config file is too large."@) && r.clear
            } else {
                match content {
                    None => fails(r.result, Status::InvalidConfig, no_config_message(path@))
                        && !r.clear,
                    Some(text) => match json_parsed(encode_utf8(text@)) {
                        None => fails(
                            r.result,
                            Status::InvalidConfig,
                            "Config file contains invalid JSON."@,
                        ) && r.clear,
                        Some(value) => exists|given: JsonValue, content: ConfigContent|
                            given@ == value && #[trigger] call_ensures(
                                *recognize,
                                (given,),
                                content,
                            ) && content_meets(content, now@, r),
                    },
                }
            },
        },
{
    match file {
        ConfigFile::Absent => ConfigOutcome { result: no_config(path), clear: false },
        ConfigFile::Special => ConfigOutcome {
            result: bad_config("Config file is not a regular file."),
            clear: true,
        },
        ConfigFile::Regular { len, content } => {
            if len > MAX_CONFIG_SIZE_BYTES as u64 {
                return ConfigOutcome {
                    result: bad_config("Config file is too large."),
                    clear: true,
                };
            }
            let text = match content {
                Some(text) => text,
                None => {
                    return ConfigOutcome { result: no_config(path), clear: false };
                },
            };
            let parsed = parse_config_text(text.as_str());
            match parsed.result {
                Ok(value) => {
                    let ghost given = value;
                    let content = recognize(value);
                    let ghost known = content;
                    let r = accept_config(content, now);
                    assert(call_ensures(*recognize, (given,), known));
                    r
                },
                Err(error) => ConfigOutcome { result: Err(error), clear: parsed.clear },
            }
        },
    }
}

/// The configuration that a file gave, or the empty one of the start of 1970.
pub fn read_config_file_or_empty(found: Result<APWConfigV1>) -> (r: APWConfigV1)
    ensures
        match found {
            Ok(config) => r == config,
            Err(_) => r@ == empty_config(EPOCH_TEXT@),
        },
{
    match found {
        Ok(config) => config,
        Err(_) => APWConfigV1::empty(epoch_text()),
    }
}

/// The user whose stored secret is deleted when a configuration is cleared: one whose
/// configuration keeps its secret in the keychain, or has a secret and no schema number.
pub open spec fn cleared_user(v1: Option<APWConfigV1>, legacy: Option<APWConfig>) -> Option<Seq<char>> {
    match v1 {
        Some(v1) => if v1.secret_source == Some(SecretSource::Keychain) && v1.username@.len() > 0 {
            Some(v1.username@)
        } else {
            None
        },
        None => match legacy {
            Some(legacy) => if text_or(legacy.shared_key, Seq::empty()).len() > 0 {
                opt_text(legacy.username)
            } else {
                None
            },
            None => None,
        },
    }
}

/// The user whose stored secret is to be deleted when the configuration that reads as `v1`, else
/// as `legacy`, is cleared. The file itself is removed in any case.
pub fn clear_config(v1: &Option<APWConfigV1>, legacy: &Option<APWConfig>) -> (r: Option<String>)
    ensures
        opt_text(r) == cleared_user(*v1, *legacy),
{
    match v1 {
        Some(v1) => match v1.secret_source {
            Some(SecretSource::Keychain) => if v1.username.as_str().is_empty() {
                None
            } else {
                Some(owned(v1.username.as_str()))
            },
            _ => None,
        },
        None => match legacy {
            Some(legacy) => {
                let has_secret = match &legacy.shared_key {
                    Some(key) => !key.as_str().is_empty(),
                    None => false,
                };
                if has_secret {
                    copy_opt(&legacy.username)
                } else {
                    None
                }
            },
            None => None,
        },
    }
}

/// The user whose secret is to be looked up in the keychain before a configuration is read.
pub open spec fn lookup_user(
    raw: ConfigModel,
    options: ConfigReadOptions,
    now: Moment,
) -> Option<Seq<char>> {
    if raw.port != 0 && valid_host(raw.host) && !expired(raw, options, now) && secret_source_of(raw)
        == SecretSource::Keychain && raw.username.len() > 0 {
        Some(raw.username)
    } else {
        None
    }
}

/// Whether a configuration is too old to be used.
pub open spec fn expired(raw: ConfigModel, options: ConfigReadOptions, now: Moment) -> bool {
    stale(moment_of(raw.created_at), now, options.max_age_ms) && !options.ignore_expiry
}

/// The options that are meant where none are given.
pub open spec fn options_or_default(opts: Option<ConfigReadOptions>) -> ConfigReadOptions {
    match opts {
        Some(options) => options,
        None => ConfigReadOptions {
            require_auth: false,
            max_age_ms: SESSION_MAX_AGE_MS,
            ignore_expiry: false,
        },
    }
}

/// The user whose secret is to be looked up in the keychain before the configuration is read.
pub fn keychain_lookup(
    found: &Result<APWConfigV1>,
    opts: &Option<ConfigReadOptions>,
    now: &Moment,
) -> (r: Option<String>)
    ensures
        opt_text(r) == match *found {
            Ok(raw) => lookup_user(raw@, options_or_default(*opts), *now),
            Err(_) => None,
        },
{
    let (max_age_ms, ignore_expiry) = match opts {
        Some(options) => (options.max_age_ms, options.ignore_expiry),
        None => (SESSION_MAX_AGE_MS, false),
    };
    match found {
        Ok(raw) => {
            let keychain = match resolve_secret_source(raw) {
                SecretSource::Keychain => true,
                SecretSource::File => false,
            };
            if is_valid_port(raw.port) && is_valid_host(raw.host.as_str()) && !(stale_config(
                raw.created_at.as_str(),
                now,
                max_age_ms,
            ) && !ignore_expiry) && keychain && !raw.username.as_str().is_empty() {
                Some(owned(raw.username.as_str()))
            } else {
                None
            }
        },
        Err(_) => None,
    }
}

/// The stored secret of a configuration, given what the keychain has for its user.
pub open spec fn stored_secret(raw: ConfigModel, keychain: Option<Seq<char>>) -> Option<Seq<char>> {
    let in_file = if raw.shared_key.len() == 0 {
        None
    } else {
        Some(raw.shared_key)
    };
    match secret_source_of(raw) {
        SecretSource::File => in_file,
        SecretSource::Keychain => if raw.username.len() == 0 {
            None
        } else if keychain is Some {
            keychain
        } else {
            in_file
        },
    }
}

/// Whether the stored secret can be read.
pub open spec fn secret_readable(secret: Option<Seq<char>>) -> bool {
    secret is Some ==> base64_bytes(secret->0) is Some
}

/// The number that a stored secret writes; zero for no secret.
pub open spec fn secret_number(secret: Option<Seq<char>>) -> nat {
    match secret {
        Some(text) => match base64_bytes(text) {
            Some(bytes) => be_value(bytes),
            None => 0,
        },
        None => 0,
    }
}

/// A configuration file with its shared key at hand.
pub open spec fn with_key(raw: ConfigModel, schema: i32, shared_key: nat) -> RuntimeModel {
    RuntimeModel {
        schema,
        port: raw.port,
        host: raw.host,
        username: raw.username,
        shared_key,
        runtime_mode: raw.runtime_mode,
        launch: raw.launch,
        bridge: raw.bridge,
        created_at: raw.created_at,
    }
}

fn into_runtime(raw: APWConfigV1, schema: i32, shared_key: BigUint) -> (r: APWRuntimeConfig)
    ensures
        r@ == with_key(raw@, schema, shared_key@),
{
    APWRuntimeConfig {
        schema,
        port: raw.port,
        host: raw.host,
        username: raw.username,
        shared_key,
        runtime_mode: raw.runtime_mode,
        last_launch_status: raw.last_launch_status,
        last_launch_error: raw.last_launch_error,
        last_launch_strategy: raw.last_launch_strategy,
        bridge_status: raw.bridge_status,
        bridge_browser: raw.bridge_browser,
        bridge_connected_at: raw.bridge_connected_at,
        bridge_last_error: raw.bridge_last_error,
        created_at: raw.created_at,
    }
}

fn secret_of(raw: &APWConfigV1, keychain: &Option<String>) -> (r: Option<String>)
    ensures
        opt_text(r) == stored_secret(raw@, opt_text(*keychain)),
{
    let in_file = if raw.shared_key.as_str().is_empty() {
        None
    } else {
        Some(owned(raw.shared_key.as_str()))
    };
    match resolve_secret_source(raw) {
        SecretSource::File => in_file,
        SecretSource::Keychain => if raw.username.as_str().is_empty() {
            None
        } else {
            match keychain {
                Some(secret) => Some(owned(secret.as_str())),
                None => in_file,
            }
        },
    }
}

/// What reading a configuration comes to: the configuration or an error, and whether the
/// configuration is to be cleared.
pub enum ReadVerdict {
    Config(RuntimeModel, bool),
    Failure(Status, Seq<char>, bool),
}

/// What reading a usable configuration file comes to.
pub open spec fn read_verdict(
    raw: ConfigModel,
    options: ConfigReadOptions,
    now: Moment,
    keychain: Option<Seq<char>>,
) -> ReadVerdict {
    let secret = stored_secret(raw, keychain);
    let key = secret_number(secret);
    if raw.port == 0 || !valid_host(raw.host) {
        if options.require_auth {
            ReadVerdict::Failure(Status::InvalidConfig, "Invalid config host/port."@, true)
        } else {
            ReadVerdict::Config(empty_runtime(EPOCH_TEXT@), true)
        }
    } else if expired(raw, options, now) {
        if options.require_auth {
            ReadVerdict::Failure(
                Status::InvalidSession,
                "Session expired. Run `apw auth` again."@,
                true,
            )
        } else {
            ReadVerdict::Config(with_key(raw, CONFIG_SCHEMA, 0), true)
        }
    } else if !secret_readable(secret) {
        ReadVerdict::Failure(Status::InvalidConfig, "Invalid config payload format."@, true)
    } else if options.require_auth && (raw.username.len() == 0 || key == 0) {
        ReadVerdict::Failure(
            Status::InvalidSession,
            "No active session. Run `apw auth` again."@,
            true,
        )
    } else {
        ReadVerdict::Config(with_key(raw, raw.schema, key), false)
    }
}

/// Whether an outcome is what a verdict says.
pub open spec fn meets(outcome: ConfigOutcome<APWRuntimeConfig>, verdict: ReadVerdict) -> bool {
    match verdict {
        ReadVerdict::Config(config, clear) => outcome.result is Ok && outcome.result->Ok_0@
            == config && outcome.clear == clear,
        ReadVerdict::Failure(code, message, clear) => fails(outcome.result, code, message)
            && outcome.clear == clear,
    }
}

/// The configuration, read at `now` with what the keychain has for its user. Without
/// `require_auth` an unusable file reads as an empty configuration, and an expired one loses its
/// key.
pub fn read_config(
    found: Result<APWConfigV1>,
    opts: Option<ConfigReadOptions>,
    now: &Moment,
    keychain: &Option<String>,
) -> (r: ConfigOutcome<APWRuntimeConfig>)
    ensures
        match found {
            Err(error) => if options_or_default(opts).require_auth {
                fails(r.result, error.code, error.message@) && !r.clear
            } else {
                r.result is Ok && r.result->Ok_0@ == empty_runtime(EPOCH_TEXT@) && !r.clear
            },
            Ok(raw) => meets(
                r,
                read_verdict(raw@, options_or_default(opts), *now, opt_text(*keychain)),
            ),
        },
{
    let options = match opts {
        Some(options) => options,
        None => ConfigReadOptions::default(),
    };
    let raw = match found {
        Ok(raw) => raw,
        Err(error) => {
            if options.require_auth {
                return ConfigOutcome { result: Err(error), clear: false };
            }
            return ConfigOutcome {
                result: Ok(APWRuntimeConfig::empty(epoch_text())),
                clear: false,
            };
        },
    };
    if !is_valid_port(raw.port) || !is_valid_host(raw.host.as_str()) {
        if options.require_auth {
            return ConfigOutcome { result: bad_config("Invalid config host/port."), clear: true };
        }
        return ConfigOutcome { result: Ok(APWRuntimeConfig::empty(epoch_text())), clear: true };
    }
    if stale_config(raw.created_at.as_str(), now, options.max_age_ms) && !options.ignore_expiry {
        if options.require_auth {
            return ConfigOutcome {
                result: Err(
                    APWError::new(Status::InvalidSession, "Session expired. Run `apw auth` again."),
                ),
                clear: true,
            };
        }
        return ConfigOutcome {
            result: Ok(into_runtime(raw, CONFIG_SCHEMA, BigUint::zero())),
            clear: true,
        };
    }
    let key = match secret_of(&raw, keychain) {
        Some(secret) => match read_bigint(secret.as_str()) {
            Ok(value) => value,
            Err(error) => {
                return ConfigOutcome { result: Err(error), clear: true };
            },
        },
        None => BigUint::zero(),
    };
    if options.require_auth && (raw.username.as_str().is_empty() || key.is_zero()) {
        return ConfigOutcome {
            result: Err(
                APWError::new(Status::InvalidSession, "No active session. Run `apw auth` again."),
            ),
            clear: true,
        };
    }
    let schema: i32 = raw.schema;
    ConfigOutcome { result: Ok(into_runtime(raw, schema, key)), clear: false }
}

/// What is to be done to write a configuration: first the stored secrets of these users are
/// deleted, whether or not that works; then a user's secret is stored, and a failure of that is
/// the failure of the whole; then the result is the configuration to write to the file, or the
/// error to report.
pub struct WritePlan {
    pub deletes: Vec<String>,
    pub store: Option<(String, String)>,
    pub result: Result<APWConfigV1>,
}

/// The model of an optional configuration.
pub open spec fn opt_config(existing: Option<APWConfigV1>) -> Option<ConfigModel> {
    match existing {
        Some(config) => Some(config@),
        None => None,
    }
}

/// The port that a write sets.
pub open spec fn write_port(existing: Option<ConfigModel>, input: WriteConfigInput) -> u16 {
    match input.port {
        Some(port) => port,
        None => match existing {
            Some(config) => config.port,
            None => DEFAULT_PORT,
        },
    }
}

/// The host that a write sets: the given one if it can be used.
pub open spec fn write_host(existing: Option<ConfigModel>, input: WriteConfigInput) -> Seq<char> {
    if input.host is Some && valid_host(input.host->0@) {
        input.host->0@
    } else {
        match existing {
            Some(config) => config.host,
            None => DEFAULT_HOST@,
        }
    }
}

/// The user that a write sets: the given one, else the present one unless the session is cleared.
pub open spec fn write_username(
    existing: Option<ConfigModel>,
    input: WriteConfigInput,
) -> Seq<char> {
    match input.username {
        Some(username) => username@,
        None => if existing is Some && !input.clear_auth {
            existing->0.username
        } else {
            Seq::empty()
        },
    }
}

/// Whether the present secret is in the keychain.
pub open spec fn in_keychain(existing: Option<ConfigModel>) -> bool {
    existing is Some && existing->0.secret_source == Some(SecretSource::Keychain)
}

/// Where a write keeps the secret and what it puts in the file for it, before it is checked
/// whether there is a keychain for it.
pub open spec fn write_secret(
    existing: Option<ConfigModel>,
    input: WriteConfigInput,
    keychain: bool,
) -> (SecretSource, Seq<char>) {
    let username = write_username(existing, input);
    match input.shared_key {
        Some(key) => if username.len() > 0 && keychain {
            (SecretSource::Keychain, Seq::empty())
        } else {
            (SecretSource::File, base64_text(be_bytes(key@)))
        },
        None => if input.allow_empty && in_keychain(existing) && username.len() > 0 {
            (SecretSource::Keychain, Seq::empty())
        } else if input.clear_auth || existing is None {
            (SecretSource::File, Seq::empty())
        } else {
            (
                match existing->0.secret_source {
                    Some(source) => source,
                    None => SecretSource::File,
                },
                existing->0.shared_key,
            )
        },
    }
}

/// Where a write keeps the secret. A complete session goes to the file where there is no keychain.
pub open spec fn write_source(
    existing: Option<ConfigModel>,
    input: WriteConfigInput,
    keychain: bool,
) -> SecretSource {
    if !input.allow_empty && !keychain {
        SecretSource::File
    } else {
        write_secret(existing, input, keychain).0
    }
}

/// The given text, else the present one unless that is reset.
pub open spec fn kept(
    given: Option<String>,
    reset: bool,
    present: Option<Seq<char>>,
) -> Option<Seq<char>> {
    if given is Some {
        Some(given->0@)
    } else if reset {
        None
    } else {
        present
    }
}

/// What is known of the last launch after a write.
pub open spec fn write_launch(
    existing: Option<ConfigModel>,
    input: WriteConfigInput,
) -> LaunchModel {
    let present = match existing {
        Some(config) => config.launch,
        None => no_launch(),
    };
    let reset = input.reset_launch_metadata;
    LaunchModel {
        status: kept(input.last_launch_status, reset, present.status),
        error: kept(input.last_launch_error, reset, present.error),
        strategy: kept(input.last_launch_strategy, reset, present.strategy),
    }
}

/// What is known of the bridge after a write.
pub open spec fn write_bridge(
    existing: Option<ConfigModel>,
    input: WriteConfigInput,
) -> BridgeModel {
    let present = match existing {
        Some(config) => config.bridge,
        None => no_bridge(),
    };
    let reset = input.reset_bridge_metadata;
    BridgeModel {
        status: kept(input.bridge_status, reset, present.status),
        browser: kept(input.bridge_browser, reset, present.browser),
        connected_at: kept(input.bridge_connected_at, reset, present.connected_at),
        last_error: kept(input.bridge_last_error, reset, present.last_error),
    }
}

/// The configuration that a write puts in the file.
pub open spec fn written(
    existing: Option<ConfigModel>,
    input: WriteConfigInput,
    keychain: bool,
    now: Seq<char>,
) -> ConfigModel {
    ConfigModel {
        schema: CONFIG_SCHEMA,
        port: write_port(existing, input),
        host: write_host(existing, input),
        username: write_username(existing, input),
        shared_key: write_secret(existing, input, keychain).1,
        runtime_mode: match input.runtime_mode {
            Some(mode) => mode,
            None => match existing {
                Some(config) => config.runtime_mode,
                None => RuntimeMode::Auto,
            },
        },
        launch: write_launch(existing, input),
        bridge: write_bridge(existing, input),
        secret_source: Some(write_source(existing, input, keychain)),
        created_at: if input.refresh_created_at || input.clear_auth || existing is None {
            now
        } else {
            existing->0.created_at
        },
    }
}

/// The error of a write that is refused before anything is done.
pub open spec fn refused_early(
    existing: Option<ConfigModel>,
    input: WriteConfigInput,
) -> Option<(Status, Seq<char>)> {
    if write_port(existing, input) == 0 || !valid_host(write_host(existing, input)) {
        Some((Status::InvalidParam, "Invalid config host/port."@))
    } else if !input.allow_empty && write_username(existing, input).len() == 0 {
        Some((Status::InvalidConfig, INCOMPLETE_CONFIG@))
    } else {
        None
    }
}

/// The error of a write: refused at once, or because it would leave no secret.
pub open spec fn refused(
    existing: Option<ConfigModel>,
    input: WriteConfigInput,
    keychain: bool,
) -> Option<(Status, Seq<char>)> {
    let secret = write_secret(existing, input, keychain);
    if refused_early(existing, input) is Some {
        refused_early(existing, input)
    } else if !input.allow_empty && secret.0 == SecretSource::File && secret.1.len() == 0 {
        Some((Status::InvalidConfig, INCOMPLETE_CONFIG@))
    } else {
        None
    }
}

/// The users whose stored secrets a write deletes.
pub open spec fn write_deletes(
    existing: Option<ConfigModel>,
    input: WriteConfigInput,
) -> Seq<Seq<char>> {
    let username = write_username(existing, input);
    if refused_early(existing, input) is Some || !in_keychain(existing) {
        Seq::empty()
    } else {
        (if input.clear_auth && existing->0.username.len() > 0 {
            seq![existing->0.username]
        } else {
            Seq::empty()
        }) + (if input.shared_key is None && input.allow_empty && username.len() > 0 {
            seq![username]
        } else {
            Seq::empty()
        })
    }
}

/// The user and the secret that a write stores in the keychain.
pub open spec fn write_store(
    existing: Option<ConfigModel>,
    input: WriteConfigInput,
    keychain: bool,
) -> Option<(Seq<char>, Seq<char>)> {
    let username = write_username(existing, input);
    if refused_early(existing, input) is None && input.shared_key is Some && username.len() > 0
        && keychain {
        Some((username, base64_text(be_bytes(input.shared_key->0@))))
    } else {
        None
    }
}

/// The texts of a pair of strings.
pub open spec fn opt_pair(pair: Option<(String, String)>) -> Option<(Seq<char>, Seq<char>)> {
    match pair {
        Some((a, b)) => Some((a@, b@)),
        None => None,
    }
}

/// A configuration with a session is read back as it was written: the same user and the same key,
/// at the same address and with the same metadata, until it expires. Where the key went to the
/// keychain, it has to be there still.
pub open spec fn reads_back(
    config: ConfigModel,
    key: nat,
    store: Option<(Seq<char>, Seq<char>)>,
) -> bool {
    forall|options: ConfigReadOptions, now: Moment, found: Option<Seq<char>>|
        #![trigger read_verdict(config, options, now, found)]
        !expired(config, options, now) && (store matches Some((user, secret)) ==> found == Some(
            secret,
        )) ==> read_verdict(config, options, now, found) == ReadVerdict::Config(
            with_key(config, CONFIG_SCHEMA, key),
            false,
        )
}

proof fn lemma_reads_back(
    existing: Option<ConfigModel>,
    input: WriteConfigInput,
    keychain: bool,
    now: Seq<char>,
)
    requires
        input.shared_key is Some,
        input.shared_key->0@ > 0,
        write_username(existing, input).len() > 0,
        refused(existing, input, keychain) is None,
        base64_bytes(base64_text(be_bytes(input.shared_key->0@))) == Some(
            be_bytes(input.shared_key->0@),
        ),
        base64_text(be_bytes(input.shared_key->0@)).len() > 0,
    ensures
        reads_back(
            written(existing, input, keychain, now),
            input.shared_key->0@,
            write_store(existing, input, keychain),
        ),
{
    crate::bignum::lemma_be_round_trip(input.shared_key->0@);
}

fn keep(given: Option<String>, reset: bool, present: Option<String>) -> (r: Option<String>)
    ensures
        opt_text(r) == kept(given, reset, opt_text(present)),
{
    match given {
        Some(text) => Some(text),
        None => if reset {
            None
        } else {
            present
        },
    }
}

/// What is to be done to write a configuration over the present one, at the time that `now`
/// writes, where `keychain` says whether there is a keychain.
pub fn write_config(
    existing: Option<APWConfigV1>,
    input: WriteConfigInput,
    keychain: bool,
    now: &str,
) -> (r: WritePlan)
    ensures
        crate::secrets::texts(r.deletes@) == write_deletes(opt_config(existing), input),
        opt_pair(r.store) == write_store(opt_config(existing), input, keychain),
        match refused(opt_config(existing), input, keychain) {
            Some((code, message)) => fails(r.result, code, message),
            None => r.result is Ok && r.result->Ok_0@ == written(
                opt_config(existing),
                input,
                keychain,
                now@,
            ),
        },
        r.result is Ok && r.result->Ok_0.username@.len() > 0 && input.shared_key is Some
            && input.shared_key->0@ > 0 ==> reads_back(
            r.result->Ok_0@,
            input.shared_key->0@,
            opt_pair(r.store),
        ),
        r.result is Ok && input.shared_key is Some ==> base64_bytes(
            base64_text(be_bytes(input.shared_key->0@)),
        ) == Some(be_bytes(input.shared_key->0@)),
{
    let ghost present = opt_config(existing);
    let ghost asked = input;
    let mut deletes: Vec<String> = Vec::new();
    let mut store: Option<(String, String)> = None;

    let had_existing = existing.is_some();
    let (was_port, was_host, was_username, was_key, was_mode, was_source, was_created) = match &existing {
        Some(config) => (
            config.port,
            owned(config.host.as_str()),
            owned(config.username.as_str()),
            owned(config.shared_key.as_str()),
            config.runtime_mode,
            config.secret_source,
            owned(config.created_at.as_str()),
        ),
        None => (
            DEFAULT_PORT,
            owned(DEFAULT_HOST),
            String::new(),
            String::new(),
            RuntimeMode::Auto,
            None,
            owned(now),
        ),
    };
    let was_in_keychain = match was_source {
        Some(SecretSource::Keychain) => true,
        _ => false,
    };

    let port: u16 = match input.port {
        Some(port) => port,
        None => was_port,
    };
    let host = match input.host {
        Some(host) => if is_valid_host(host.as_str()) {
            host
        } else {
            was_host
        },
        None => was_host,
    };
    let username = match input.username {
        Some(username) => username,
        None => if input.clear_auth {
            String::new()
        } else {
            owned(was_username.as_str())
        },
    };
    proof {
        assert(port == write_port(present, asked));
        assert(host@ == write_host(present, asked));
        assert(username@ == write_username(present, asked));
        assert(crate::secrets::texts(deletes@) =~= Seq::<Seq<char>>::empty());
    }
    if port == 0 || !is_valid_host(host.as_str()) {
        return WritePlan {
            deletes,
            store,
            result: Err(APWError::new(Status::InvalidParam, "Invalid config host/port.")),
        };
    }
    if !input.allow_empty && username.as_str().is_empty() {
        return WritePlan { deletes, store, result: bad_config(INCOMPLETE_CONFIG) };
    }
    if input.clear_auth && was_in_keychain && !was_username.as_str().is_empty() {
        deletes.push(was_username);
    }
    let mut source = if input.clear_auth {
        SecretSource::File
    } else {
        match was_source {
            Some(source) => source,
            None => SecretSource::File,
        }
    };
    let mut shared_key = if input.clear_auth {
        String::new()
    } else {
        was_key
    };
    match &input.shared_key {
        Some(incoming) => {
            let text = bigint_to_base64(incoming);
            proof {
                assert(text@ == base64_text(be_bytes(asked.shared_key->0@)));
            }
            if !username.as_str().is_empty() && keychain {
                store = Some((owned(username.as_str()), text));
                source = SecretSource::Keychain;
                shared_key = String::new();
            } else {
                source = SecretSource::File;
                shared_key = text;
            }
        },
        None => {
            if input.allow_empty && was_in_keychain && !username.as_str().is_empty() {
                deletes.push(owned(username.as_str()));
                shared_key = String::new();
                source = SecretSource::Keychain;
            }
        },
    }
    proof {
        assert(source == write_secret(present, asked, keychain).0);
        assert(shared_key@ =~= write_secret(present, asked, keychain).1);
        assert(crate::secrets::texts(deletes@) =~= write_deletes(present, asked));
        assert(opt_pair(store) == write_store(present, asked, keychain));
    }
    let in_file = match source {
        SecretSource::File => true,
        SecretSource::Keychain => false,
    };
    if !input.allow_empty {
        if in_file && shared_key.as_str().is_empty() {
            return WritePlan { deletes, store, result: bad_config(INCOMPLETE_CONFIG) };
        }
        if !in_file && !keychain {
            source = SecretSource::File;
        }
    }
    let runtime_mode = match input.runtime_mode {
        Some(mode) => mode,
        None => was_mode,
    };
    let created_at = if input.refresh_created_at || input.clear_auth || !had_existing {
        owned(now)
    } else {
        was_created
    };
    let (launch_status, launch_error, launch_strategy) = match &existing {
        Some(config) => (
            copy_opt(&config.last_launch_status),
            copy_opt(&config.last_launch_error),
            copy_opt(&config.last_launch_strategy),
        ),
        None => (None, None, None),
    };
    let (bridge_status, bridge_browser, bridge_connected_at, bridge_last_error) = match &existing {
        Some(config) => (
            copy_opt(&config.bridge_status),
            copy_opt(&config.bridge_browser),
            copy_opt(&config.bridge_connected_at),
            copy_opt(&config.bridge_last_error),
        ),
        None => (None, None, None, None),
    };
    let reset_launch = input.reset_launch_metadata;
    let reset_bridge = input.reset_bridge_metadata;
    let updated = APWConfigV1 {
        schema: CONFIG_SCHEMA,
        port,
        host,
        username,
        shared_key,
        runtime_mode,
        last_launch_status: keep(input.last_launch_status, reset_launch, launch_status),
        last_launch_error: keep(input.last_launch_error, reset_launch, launch_error),
        last_launch_strategy: keep(input.last_launch_strategy, reset_launch, launch_strategy),
        bridge_status: keep(input.bridge_status, reset_bridge, bridge_status),
        bridge_browser: keep(input.bridge_browser, reset_bridge, bridge_browser),
        bridge_connected_at: keep(input.bridge_connected_at, reset_bridge, bridge_connected_at),
        bridge_last_error: keep(input.bridge_last_error, reset_bridge, bridge_last_error),
        secret_source: Some(source),
        created_at,
    };
    proof {
        if asked.shared_key is Some && asked.shared_key->0@ > 0 && write_username(
            present,
            asked,
        ).len() > 0 {
            lemma_reads_back(present, asked, keychain, now@);
        }
    }
    WritePlan { deletes, store, result: Ok(updated) }
}

/// Whether the text of a configuration fits in the file.
pub fn check_config_size(serialized: &[u8]) -> (r: Result<()>)
    ensures
        if serialized@.len() > MAX_CONFIG_SIZE_BYTES {
            fails(r, Status::InvalidConfig, "Config payload too large."@)
        } else {
            r is Ok
        },
{
    if serialized.len() > MAX_CONFIG_SIZE_BYTES {
        bad_config("Config payload too large.")
    } else {
        Ok(())
    }
}

/// The last `length` bytes, with zeros in front where there are fewer.
pub open spec fn padded(input: Seq<u8>, length: int) -> Seq<u8> {
    if input.len() >= length {
        input.subrange(input.len() - length, input.len() as int)
    } else {
        Seq::new((length - input.len()) as nat, |i: int| 0u8) + input
    }
}

/// The last `length` bytes, with zeros in front where there are fewer.
pub fn pad(input: &[u8], length: usize) -> (r: Vec<u8>)
    ensures
        r@ == padded(input@, length as int),
        r@.len() == length,
{
    let mut output: Vec<u8> = Vec::new();
    if input.len() >= length {
        let from: usize = input.len() - length;
        let (_front, rest) = input.split_at(from);
        output.extend_from_slice(rest);
        proof {
            assert(output@ =~= padded(input@, length as int));
        }
        return output;
    }
    let zeros: usize = length - input.len();
    output = vec![0u8; zeros];
    output.extend_from_slice(input);
    proof {
        assert(output@ =~= padded(input@, length as int));
    }
    output
}

/// Padding bytes to a length that holds them all keeps the number that they write.
pub proof fn law_pad_keeps_value(input: Seq<u8>, length: int)
    requires
        input.len() <= length,
    ensures
        be_value(padded(input, length)) == be_value(input),
{
    if input.len() == length {
        assert(input.subrange(0, input.len() as int) =~= input);
    } else {
        crate::bignum::lemma_be_value_zeros(input, (length - input.len()) as nat);
    }
}

/// The status that a number stands for; `GenericError` for every other number.
pub fn normalize_status_code(code: i64) -> (r: Status)
    ensures
        r == normalized_status(code),
{
    normalize_status(code)
}

/// Clearing the session leaves no user and no key in the file, unless a new user is given, keeps
/// the address and the metadata that are not written anew, and has the stored secret deleted.
pub proof fn law_clear_auth(
    existing: ConfigModel,
    input: WriteConfigInput,
    keychain: bool,
    now: Seq<char>,
)
    requires
        input.clear_auth,
        input.allow_empty,
        input.username is None,
        input.shared_key is None,
        refused(Some(existing), input, keychain) is None,
    ensures
        ({
            let config = written(Some(existing), input, keychain, now);
            &&& config.username.len() == 0
            &&& config.shared_key.len() == 0
            &&& config.secret_source == Some(SecretSource::File)
            &&& config.created_at == now
            &&& input.port is None ==> config.port == existing.port
            &&& input.host is None ==> config.host == existing.host
            &&& input.runtime_mode is None ==> config.runtime_mode == existing.runtime_mode
            &&& input.last_launch_status is None && input.last_launch_error is None
                && input.last_launch_strategy is None && !input.reset_launch_metadata
                ==> config.launch == existing.launch
            &&& existing.secret_source == Some(SecretSource::Keychain) && existing.username.len()
                > 0 ==> write_deletes(Some(existing), input) == seq![existing.username]
        }),
{
    if existing.secret_source == Some(SecretSource::Keychain) && existing.username.len() > 0 {
        assert(write_deletes(Some(existing), input) =~= seq![existing.username]);
    }
}

/// A write of metadata alone keeps the user, the key in the file and their time of creation, and
/// touches no stored secret. The one write that does is one that may leave the session empty
/// beside a secret in the keychain.
pub proof fn law_metadata_write_keeps_session(
    existing: ConfigModel,
    input: WriteConfigInput,
    keychain: bool,
    now: Seq<char>,
)
    requires
        !input.clear_auth,
        !input.refresh_created_at,
        input.username is None,
        input.shared_key is None,
        !(input.allow_empty && existing.secret_source == Some(SecretSource::Keychain)
            && existing.username.len() > 0),
    ensures
        ({
            let config = written(Some(existing), input, keychain, now);
            &&& config.username == existing.username
            &&& config.shared_key == existing.shared_key
            &&& config.created_at == existing.created_at
            &&& existing.secret_source == Some(SecretSource::File) ==> config.secret_source
                == existing.secret_source
            &&& existing.secret_source == Some(SecretSource::Keychain) && (keychain
                || input.allow_empty) ==> config.secret_source == existing.secret_source
            &&& write_deletes(Some(existing), input).len() == 0
            &&& write_store(Some(existing), input, keychain) is None
        }),
{
}

/// Resetting the launch or the bridge metadata leaves of it what is written anew and nothing else.
pub proof fn law_reset_metadata(
    existing: Option<ConfigModel>,
    input: WriteConfigInput,
    keychain: bool,
    now: Seq<char>,
)
    ensures
        ({
            let config = written(existing, input, keychain, now);
            &&& input.reset_launch_metadata ==> config.launch == (LaunchModel {
                status: opt_text(input.last_launch_status),
                error: opt_text(input.last_launch_error),
                strategy: opt_text(input.last_launch_strategy),
            })
            &&& input.reset_bridge_metadata ==> config.bridge == (BridgeModel {
                status: opt_text(input.bridge_status),
                browser: opt_text(input.bridge_browser),
                connected_at: opt_text(input.bridge_connected_at),
                last_error: opt_text(input.bridge_last_error),
            })
        }),
{
}

/// What a write puts in the file is accepted when the file is read.
pub proof fn law_written_config_is_accepted(
    existing: Option<ConfigModel>,
    input: WriteConfigInput,
    keychain: bool,
    now: Seq<char>,
)
    requires
        refused(existing, input, keychain) is None,
    ensures
        ({
            let config = written(existing, input, keychain, now);
            config.schema == CONFIG_SCHEMA && config.port != 0 && valid_host(config.host)
        }),
{
}

} // verus!
