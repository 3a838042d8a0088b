//! What a configuration keeps, gives back and forgets.
use crate::bignum::{be_value, lemma_be_round_trip};
use crate::clock::{stale_config, Moment};
use crate::codec::base64_bytes;
use crate::error::{fails, APWError, Result};
use crate::json::{json_parsed, JsonValue};
use crate::laws::app::{directory, lemma_below, lemma_joined};
use crate::laws::basics::{blank, lemma_blank_is_trimmed};
use crate::secrets::texts;
use crate::text::{opt_text, trimmed};
use crate::types::{APWConfig, APWConfigV1, APWRuntimeConfig, RuntimeMode, SecretSource, Status};
use crate::utils::{
    accept_config, check_config_size, clear_config, config_path, config_root, is_valid_host,
    is_valid_port, keychain_lookup, normalize_legacy_config, parse_config_text, read_config,
    read_config_file, read_config_file_or_empty, resolve_secret_source, write_config, ConfigContent,
    ConfigFile, ConfigOutcome, ConfigReadOptions, WriteConfigInput, WritePlan,
};
use vstd::prelude::*;
use vstd::utf8::encode_utf8;

verus! {

/// Whether text is the base64 of a number.
pub open spec fn writes_number(text: Seq<char>, number: nat) -> bool {
    base64_bytes(text) matches Some(bytes) && be_value(bytes) == number
}

/// The text that is given, else nothing where it is reset, else the text on record.
pub open spec fn renewed(
    given: Option<String>,
    reset: bool,
    on_record: Option<String>,
    kept: Option<String>,
) -> bool {
    opt_text(kept) == if given is Some {
        opt_text(given)
    } else if reset {
        None
    } else {
        opt_text(on_record)
    }
}

/// A write changes what is given and nothing else: every part of a configuration is the given one,
/// or the one on record, or where there is neither that of a configuration without a session. What
/// was launched and what is bridged is forgotten where it is reset.
pub proof fn law_write_changes_what_is_given(
    existing: Option<APWConfigV1>,
    input: WriteConfigInput,
    keychain: bool,
    now: &str,
    r: WritePlan,
)
    ensures
        call_ensures(write_config, (existing, input, keychain, now), r) && r.result is Ok ==> {
            let config = r.result->Ok_0;
            let (launch_status, launch_error, launch_strategy) = match existing {
                Some(was) => (was.last_launch_status, was.last_launch_error, was.last_launch_strategy),
                None => (None, None, None),
            };
            let (status, browser, connected_at, last_error) = match existing {
                Some(was) => (
                    was.bridge_status,
                    was.bridge_browser,
                    was.bridge_connected_at,
                    was.bridge_last_error,
                ),
                None => (None, None, None, None),
            };
            &&& config.schema == 1
            &&& config.port == match (input.port, existing) {
                (Some(port), _) => port,
                (None, Some(was)) => was.port,
                (None, None) => 10_000,
            }
            &&& input.host is Some && trimmed(input.host->0@).len() > 0
                && !input.host->0@.contains('\0') ==> config.host@ == input.host->0@
            &&& input.host is None ==> config.host@ == match existing {
                Some(was) => was.host@,
                None => "127.0.0.1"@,
            }
            &&& config.username@ == match (input.username, existing) {
                (Some(username), _) => username@,
                (None, Some(was)) => if input.clear_auth {
                    Seq::empty()
                } else {
                    was.username@
                },
                (None, None) => Seq::empty(),
            }
            &&& config.runtime_mode == match (input.runtime_mode, existing) {
                (Some(mode), _) => mode,
                (None, Some(was)) => was.runtime_mode,
                (None, None) => RuntimeMode::Auto,
            }
            &&& config.created_at@ == match existing {
                Some(was) => if input.refresh_created_at || input.clear_auth {
                    now@
                } else {
                    was.created_at@
                },
                None => now@,
            }
            &&& {
                let reset = input.reset_launch_metadata;
                &&& renewed(
                    input.last_launch_status,
                    reset,
                    launch_status,
                    config.last_launch_status,
                )
                &&& renewed(input.last_launch_error, reset, launch_error, config.last_launch_error)
                &&& renewed(
                    input.last_launch_strategy,
                    reset,
                    launch_strategy,
                    config.last_launch_strategy,
                )
            }
            &&& {
                let reset = input.reset_bridge_metadata;
                &&& renewed(input.bridge_status, reset, status, config.bridge_status)
                &&& renewed(input.bridge_browser, reset, browser, config.bridge_browser)
                &&& renewed(
                    input.bridge_connected_at,
                    reset,
                    connected_at,
                    config.bridge_connected_at,
                )
                &&& renewed(input.bridge_last_error, reset, last_error, config.bridge_last_error)
            }
        },
{
}

/// What is written can be used: it has a port and a host, and unless it may be empty, a user and a
/// secret. What cannot be used is refused.
pub proof fn law_written_configuration_can_be_used(
    existing: Option<APWConfigV1>,
    input: WriteConfigInput,
    keychain: bool,
    now: &str,
    r: WritePlan,
)
    ensures
        call_ensures(write_config, (existing, input, keychain, now), r) ==> {
            &&& r.result matches Ok(config) ==> {
                &&& config.port != 0
                &&& trimmed(config.host@).len() > 0
                &&& !input.allow_empty ==> config.username@.len() > 0
            }
            &&& input.port == Some(0u16) ==> fails(
                r.result,
                Status::InvalidParam,
                "Invalid config host/port."@,
            ) && r.deletes@.len() == 0 && r.store is None
            &&& !input.allow_empty && existing is None && input.port != Some(0u16) && (
            input.username is None || input.shared_key is None) && trimmed("127.0.0.1"@).len() > 0
                && !("127.0.0.1"@).contains('\0') ==> r.result is Err && r.result->Err_0.code
                == Status::InvalidConfig
            &&& input.username is Some && input.username->0@.len() > 0 && input.shared_key is Some
                && existing is Some && existing->0.port != 0 && trimmed(existing->0.host@).len()
                > 0 && !existing->0.host@.contains('\0') && input.port != Some(0u16) && keychain
                ==> r.result is Ok
        },
{
    assert(texts(r.deletes@).len() == r.deletes@.len());
}

/// A new key goes to one place: to the keychain under its user where there is one, and not to the
/// file; else to the file, and not to the keychain. Where it goes, it can be read as the number that
/// it is.
pub proof fn law_key_is_kept_in_one_place(
    existing: Option<APWConfigV1>,
    input: WriteConfigInput,
    keychain: bool,
    now: &str,
    r: WritePlan,
)
    ensures
        call_ensures(write_config, (existing, input, keychain, now), r) && r.result is Ok
            && input.shared_key is Some ==> {
            let config = r.result->Ok_0;
            let key = input.shared_key->0@;
            if keychain && config.username@.len() > 0 {
                &&& config.shared_key@.len() == 0
                &&& config.secret_source == Some(SecretSource::Keychain)
                &&& r.store matches Some((user, secret)) && user@ == config.username@
                    && writes_number(secret@, key)
            } else {
                &&& writes_number(config.shared_key@, key)
                &&& config.secret_source == Some(SecretSource::File)
                &&& r.store is None
            }
        },
{
    if input.shared_key is Some {
        lemma_be_round_trip(input.shared_key->0@);
    }
}

/// Clearing the session leaves neither user nor key in the file, stores nothing, and deletes the
/// secret that the keychain has for the user.
pub proof fn law_cleared_session_is_gone(
    existing: APWConfigV1,
    input: WriteConfigInput,
    keychain: bool,
    now: &str,
    r: WritePlan,
)
    ensures
        call_ensures(write_config, (Some(existing), input, keychain, now), r) && r.result is Ok
            && input.clear_auth && input.username is None && input.shared_key is None ==> {
            &&& r.result->Ok_0.username@.len() == 0
            &&& r.result->Ok_0.shared_key@.len() == 0
            &&& r.result->Ok_0.secret_source == Some(SecretSource::File)
            &&& r.store is None
            &&& existing.secret_source == Some(SecretSource::Keychain) && existing.username@.len()
                > 0 ==> texts(r.deletes@) == seq![existing.username@]
            &&& existing.secret_source != Some(SecretSource::Keychain) ==> r.deletes@.len() == 0
        },
{
    assert(texts(r.deletes@).len() == r.deletes@.len());
    assert(Seq::<Seq<char>>::empty() + seq![existing.username@] =~= seq![existing.username@]);
    assert(seq![existing.username@] + Seq::<Seq<char>>::empty() =~= seq![existing.username@]);
}

/// A write of metadata over a session in the file keeps the session: its user, its key and its time,
/// and no secret in the keychain is touched.
pub proof fn law_metadata_leaves_a_session_in_the_file(
    existing: APWConfigV1,
    input: WriteConfigInput,
    keychain: bool,
    now: &str,
    r: WritePlan,
)
    ensures
        call_ensures(write_config, (Some(existing), input, keychain, now), r) && r.result is Ok
            && !input.clear_auth && !input.refresh_created_at && input.username is None
            && input.shared_key is None && existing.secret_source == Some(SecretSource::File) ==> {
            &&& r.result->Ok_0.username@ == existing.username@
            &&& r.result->Ok_0.shared_key@ == existing.shared_key@
            &&& r.result->Ok_0.secret_source == Some(SecretSource::File)
            &&& r.result->Ok_0.created_at@ == existing.created_at@
            &&& r.deletes@.len() == 0
            &&& r.store is None
        },
{
    assert(texts(r.deletes@).len() == r.deletes@.len());
}

/// A session that was written is read back until it is too old: the same user, the same key, at the
/// same address and in the same mode. Where the key went to the keychain, it is looked up there
/// under the user.
pub proof fn law_written_session_is_read_back(
    existing: Option<APWConfigV1>,
    input: WriteConfigInput,
    keychain: bool,
    written_at: &str,
    plan: WritePlan,
    config: APWConfigV1,
    options: ConfigReadOptions,
    now: &Moment,
    created_at: &str,
    too_old: bool,
    looked_up: Option<String>,
    found: &Option<String>,
    r: ConfigOutcome<APWRuntimeConfig>,
)
    ensures
        call_ensures(write_config, (existing, input, keychain, written_at), plan)
            && plan.result is Ok && plan.result->Ok_0@ == config@ && config.username@.len() > 0
            && input.shared_key is Some && input.shared_key->0@ > 0 && created_at@
            == config.created_at@ && call_ensures(
            stale_config,
            (created_at, now, options.max_age_ms),
            too_old,
        ) && (!too_old || options.ignore_expiry) ==> {
            &&& call_ensures(
                keychain_lookup,
                (&Ok::<APWConfigV1, APWError>(config), &Some(options), now),
                looked_up,
            ) && plan.store is Some ==> opt_text(looked_up) == Some(config.username@)
            &&& call_ensures(
                read_config,
                (Ok::<APWConfigV1, APWError>(config), Some(options), now, found),
                r,
            ) && (plan.store matches Some((user, secret)) ==> opt_text(*found) == Some(secret@))
                ==> {
                &&& r.result is Ok && !r.clear
                &&& r.result->Ok_0.username@ == config.username@
                &&& r.result->Ok_0.shared_key@ == input.shared_key->0@
                &&& r.result->Ok_0.host@ == config.host@
                &&& r.result->Ok_0.port == config.port
                &&& r.result->Ok_0.runtime_mode == config.runtime_mode
                &&& r.result->Ok_0.created_at@ == config.created_at@
            }
        },
{
}

/// What is read of a configuration is what is in the file: the address, the user, the mode and the
/// metadata, and of a key in the file the number that it writes. A session is given out only where
/// there is one and it is not too old.
pub proof fn law_configuration_is_read_as_it_is(
    raw: APWConfigV1,
    options: ConfigReadOptions,
    now: &Moment,
    created_at: &str,
    too_old: bool,
    found: &Option<String>,
    r: ConfigOutcome<APWRuntimeConfig>,
)
    ensures
        call_ensures(
            read_config,
            (Ok::<APWConfigV1, APWError>(raw), Some(options), now, found),
            r,
        ) && created_at@ == raw.created_at@ && call_ensures(
            stale_config,
            (created_at, now, options.max_age_ms),
            too_old,
        ) ==> {
            let usable = raw.port != 0 && trimmed(raw.host@).len() > 0 && !raw.host@.contains('\0');
            let over = too_old && !options.ignore_expiry;
            &&& usable && r.result is Ok ==> {
                let config = r.result->Ok_0;
                &&& config.port == raw.port && config.host@ == raw.host@
                &&& config.username@ == raw.username@
                &&& config.runtime_mode == raw.runtime_mode
                &&& config.created_at@ == raw.created_at@
                &&& opt_text(config.last_launch_status) == opt_text(raw.last_launch_status)
                &&& opt_text(config.last_launch_error) == opt_text(raw.last_launch_error)
                &&& opt_text(config.last_launch_strategy) == opt_text(raw.last_launch_strategy)
                &&& opt_text(config.bridge_status) == opt_text(raw.bridge_status)
                &&& opt_text(config.bridge_browser) == opt_text(raw.bridge_browser)
                &&& opt_text(config.bridge_connected_at) == opt_text(raw.bridge_connected_at)
                &&& opt_text(config.bridge_last_error) == opt_text(raw.bridge_last_error)
                &&& over ==> config.shared_key@ == 0
                &&& !over && raw.secret_source == Some(SecretSource::File)
                    && raw.shared_key@.len() > 0 ==> writes_number(
                    raw.shared_key@,
                    config.shared_key@,
                )
                &&& !over && raw.secret_source == Some(SecretSource::Keychain)
                    && raw.username@.len() > 0 && found is Some ==> writes_number(
                    found->0@,
                    config.shared_key@,
                )
                &&& options.require_auth ==> !over && config.username@.len() > 0
                    && config.shared_key@ > 0
            }
            &&& options.require_auth && !usable ==> r.result is Err && r.clear
            &&& options.require_auth && usable && over ==> fails(
                r.result,
                Status::InvalidSession,
                "Session expired. Run `apw auth` again."@,
            ) && r.clear
            &&& usable && over && !options.require_auth ==> r.result is Ok && r.clear
            &&& r.result is Ok && usable && !over ==> !r.clear
            &&& r.result is Err ==> r.clear
        },
{
}

/// Where there is no configuration, reading gives one without a session at the default address, or
/// the error where a session is asked for. Nothing is cleared.
pub proof fn law_missing_configuration_has_no_session(
    error: APWError,
    options: Option<ConfigReadOptions>,
    now: &Moment,
    found: &Option<String>,
    r: ConfigOutcome<APWRuntimeConfig>,
)
    ensures
        call_ensures(
            read_config,
            (Err::<APWConfigV1, APWError>(error), options, now, found),
            r,
        ) ==> {
            &&& !r.clear
            &&& options is Some && options->0.require_auth ==> fails(
                r.result,
                error.code,
                error.message@,
            )
            &&& !(options is Some && options->0.require_auth) ==> {
                &&& r.result is Ok
                &&& r.result->Ok_0.username@.len() == 0 && r.result->Ok_0.shared_key@ == 0
                &&& r.result->Ok_0.host@ == "127.0.0.1"@ && r.result->Ok_0.port == 10_000
                &&& r.result->Ok_0.runtime_mode == RuntimeMode::Auto
            }
        },
{
}

/// A configuration of the first layout keeps its address, its user, its key and its time.
pub proof fn law_first_layout_is_kept(raw: APWConfig, now: &str, r: APWConfigV1)
    ensures
        call_ensures(normalize_legacy_config, (raw, now), r) ==> {
            &&& r.schema == 1 && r.runtime_mode == RuntimeMode::Auto
            &&& r.port == match raw.port {
                Some(port) => port,
                None => 10_000,
            }
            &&& r.host@ == match raw.host {
                Some(host) => host@,
                None => "127.0.0.1"@,
            }
            &&& r.username@ == match raw.username {
                Some(username) => username@,
                None => Seq::empty(),
            }
            &&& r.shared_key@ == match raw.shared_key {
                Some(key) => key@,
                None => Seq::empty(),
            }
            &&& r.created_at@ == match raw.created_at {
                Some(text) => text@,
                None => now@,
            }
            &&& raw.shared_key is Some && raw.shared_key->0@.len() > 0 ==> r.secret_source == Some(
                SecretSource::File,
            )
            &&& r.bridge_status is None && r.last_launch_status is None
        },
{
    if call_ensures(normalize_legacy_config, (raw, now), r) {
        assert(r@.launch.status is None && r@.bridge.status is None);
    }
}

/// A document is accepted exactly where it is a configuration of the present layout at an address
/// that can be used, or one of the first layout; one of the present layout is accepted as it is.
pub proof fn law_document_is_accepted_as_it_is(
    content: ConfigContent,
    now: &str,
    r: ConfigOutcome<APWConfigV1>,
)
    ensures
        call_ensures(accept_config, (content, now), r) ==> match content {
            ConfigContent::V1(v1) => {
                let usable = v1.schema == 1 && v1.port != 0 && trimmed(v1.host@).len() > 0
                    && !v1.host@.contains('\0');
                &&& r.result is Ok <==> usable
                &&& r.result is Ok ==> r.result->Ok_0 == v1
                &&& r.clear == !usable
            },
            ConfigContent::Legacy(_) => r.result is Ok && !r.clear,
            ConfigContent::Unrecognized => r.result is Err && !r.clear,
        },
{
}

/// Clearing the configuration deletes the secret that the keychain keeps for its user, and none
/// where the secret is in the file.
pub proof fn law_clearing_deletes_the_stored_secret(
    config: APWConfigV1,
    legacy: &Option<APWConfig>,
    r: Option<String>,
)
    ensures
        call_ensures(clear_config, (&Some(config), legacy), r) ==> {
            &&& config.secret_source == Some(SecretSource::Keychain) && config.username@.len() > 0
                ==> opt_text(r) == Some(config.username@)
            &&& config.secret_source == Some(SecretSource::File) ==> r is None
        },
{
}

/// The secret is looked up in the keychain for the user of the configuration, and only where it is
/// kept there.
pub proof fn law_secret_is_looked_up_for_its_user(
    raw: APWConfigV1,
    options: &Option<ConfigReadOptions>,
    now: &Moment,
    r: Option<String>,
)
    ensures
        call_ensures(keychain_lookup, (&Ok::<APWConfigV1, APWError>(raw), options, now), r) ==> {
            &&& r matches Some(user) ==> user@ == raw.username@ && user@.len() > 0
            &&& raw.secret_source == Some(SecretSource::File) ==> r is None
        },
{
}

proof fn lemma_config_path()
    ensures
        "/.apw"@ == "/"@ + ".apw"@,
        "/.apw/config.json"@ == "/.apw"@ + "/"@ + "config.json"@,
        directory("/.apw"@),
        directory(".apw"@),
        directory("config.json"@),
{
    reveal_strlit("/");
    reveal_strlit(".apw");
    reveal_strlit("/.apw");
    reveal_strlit("config.json");
    reveal_strlit("/.apw/config.json");
    assert("/.apw"@ =~= "/"@ + ".apw"@);
    assert("/.apw/config.json"@ =~= "/.apw"@ + "/"@ + "config.json"@);
}

/// The configuration is below the home directory, in a directory of its own.
pub proof fn law_configuration_is_below_the_home_directory(
    home: String,
    profile: &Option<String>,
    root: String,
    path: String,
)
    ensures
        directory(home@) ==> {
            &&& call_ensures(config_root, (&Some(home), profile), root) ==> root@ == home@
                + "/.apw"@
            &&& call_ensures(config_path, (&Some(home), profile), path) ==> path@ == home@
                + "/.apw/config.json"@
        },
{
    if directory(home@) {
        lemma_config_path();
        lemma_joined(home@, ".apw"@);
        assert(home@ + "/"@ + ".apw"@ =~= home@ + "/.apw"@);
        lemma_below(home@, "/.apw"@, "config.json"@);
    }
}

/// A file is cleared only where there is no configuration in it, and is left where there is none or
/// where it cannot be read. One that is too long, or that is no regular file, is never read.
pub proof fn law_file_is_cleared_where_it_is_unusable<R: Fn(JsonValue) -> ConfigContent>(
    file: ConfigFile,
    recognize: &R,
    path: &str,
    now: &str,
    r: ConfigOutcome<APWConfigV1>,
)
    ensures
        call_ensures(read_config_file::<R>, (file, recognize, path, now), r) ==> {
            &&& r.clear ==> r.result is Err
            &&& r.result is Err ==> r.result->Err_0.code == Status::InvalidConfig
            &&& file is Absent ==> r.result is Err && !r.clear
            &&& file is Special ==> r.result is Err && r.clear
            &&& file matches ConfigFile::Regular { len, content } ==> {
                &&& len > 10 * 1024 ==> r.result is Err && r.clear
                &&& len <= 10 * 1024 && content is None ==> r.result is Err && !r.clear
                &&& content matches Some(text) ==> (len <= 10 * 1024 && json_parsed(
                    encode_utf8(text@),
                ) is None ==> r.result is Err && r.clear)
            }
        },
{
}

/// A configuration that is recognized in a file comes out of it, where it has the schema, a port and a
/// host.
pub proof fn law_recognized_configuration_comes_out<R: Fn(JsonValue) -> ConfigContent>(
    len: u64,
    text: String,
    recognize: &R,
    path: &str,
    now: &str,
    config: APWConfigV1,
    r: ConfigOutcome<APWConfigV1>,
)
    ensures
        call_ensures(
            read_config_file::<R>,
            (ConfigFile::Regular { len, content: Some(text) }, recognize, path, now),
            r,
        ) && len <= 10 * 1024 && json_parsed(encode_utf8(text@)) is Some && (forall|
            given: JsonValue,
            content: ConfigContent,
        | #[trigger]
            call_ensures(*recognize, (given,), content) ==> content == ConfigContent::V1(config))
            ==> {
            &&& config.schema == 1 && config.port != 0 && trimmed(config.host@).len() > 0
                && !config.host@.contains('\0') ==> r.result == Ok::<_, APWError>(config) && !r.clear
            &&& config.schema != 1 || config.port == 0 || trimmed(config.host@).len() == 0
                || config.host@.contains('\0') ==> r.result is Err && r.clear
        },
{
}

/// The text of a file is read as the JSON value that it writes, and cleared where it writes none.
pub proof fn law_text_of_a_file(content: &str, r: ConfigOutcome<JsonValue>)
    ensures
        call_ensures(parse_config_text, (content,), r) ==> {
            &&& r.result is Ok <==> json_parsed(encode_utf8(content@)) is Some
            &&& r.result is Ok ==> json_parsed(encode_utf8(content@)) == Some(r.result->Ok_0@)
            &&& r.clear <==> r.result is Err
        },
{
}

/// The key of a configuration is where the configuration says; without a word on it, in the file where
/// there is one, and in the keychain otherwise.
pub proof fn law_place_of_the_key(raw: &APWConfigV1, r: SecretSource)
    ensures
        call_ensures(resolve_secret_source, (raw,), r) ==> {
            &&& raw@.secret_source is Some ==> raw@.secret_source == Some(r)
            &&& raw@.secret_source is None ==> (r == SecretSource::File <==> raw@.shared_key.len() > 0)
        },
{
}

/// A configuration that was found is used as it is. One that was not has no session in it, and is at
/// the usual address.
pub proof fn law_configuration_that_was_not_found(found: Result<APWConfigV1>, r: APWConfigV1)
    ensures
        call_ensures(read_config_file_or_empty, (found,), r) ==> {
            &&& found matches Ok(config) ==> r == config
            &&& found is Err ==> r@.username.len() == 0 && r@.shared_key.len() == 0 && r@.host
                == "127.0.0.1"@ && r@.port == 10_000 && r@.runtime_mode == RuntimeMode::Auto
                && r@.created_at == "1970-01-01T00:00:00+00:00"@
        },
{
}

/// A configuration is written up to ten kilobytes; a host is more than white space, without a null
/// character; and a port is not zero.
pub proof fn law_configuration_limits(
    serialized: &[u8],
    fits: Result<()>,
    host: &str,
    usable: bool,
    port: u16,
    open: bool,
)
    ensures
        call_ensures(check_config_size, (serialized,), fits) ==> (fits is Ok <==> serialized@.len()
            <= 10 * 1024),
        call_ensures(is_valid_host, (host,), usable) ==> {
            &&& usable ==> trimmed(host@).len() > 0 && !host@.contains('\0')
            &&& blank(host@) ==> !usable
            &&& trimmed(host@).len() > 0 && !host@.contains('\0') ==> usable
        },
        call_ensures(is_valid_port, (port,), open) ==> (open <==> port > 0),
{
    if blank(host@) {
        lemma_blank_is_trimmed(host@);
    }
}

} // verus!
