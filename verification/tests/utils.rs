use apw::bignum::BigUint;
use apw::clock::{stale_config, Moment};
use apw::codec::bigint_to_base64;
use apw::error::Result;
use apw::json::JsonValue;
use apw::secrets::{delete_shared_key, make_security_result, SecurityTool};
use apw::types::{
    APWConfig, APWConfigV1, APWRuntimeConfig, RuntimeMode, SecretSource, Status,
};
use apw::utils::{
    check_config_size, clear_config, config_path, config_root, is_valid_host, keychain_lookup,
    normalize_status_code, pad, parse_config_text, read_config, read_config_file,
    read_config_file_or_empty, write_config, ConfigContent, ConfigFile, ConfigOutcome,
    ConfigReadOptions, WriteConfigInput, CONFIG_DIRECTORY_MODE, CONFIG_FILE_MODE,
    MAX_CONFIG_SIZE_BYTES, SESSION_MAX_AGE_MS,
};
use std::cell::RefCell;

fn now_text() -> String {
    chrono::Utc::now().to_rfc3339()
}

fn now() -> Moment {
    Moment::parse(&now_text()).expect("the present")
}

fn copy(config: &APWConfigV1) -> APWConfigV1 {
    APWConfigV1 {
        schema: config.schema,
        port: config.port,
        host: config.host.clone(),
        username: config.username.clone(),
        shared_key: config.shared_key.clone(),
        runtime_mode: config.runtime_mode,
        last_launch_status: config.last_launch_status.clone(),
        last_launch_error: config.last_launch_error.clone(),
        last_launch_strategy: config.last_launch_strategy.clone(),
        bridge_status: config.bridge_status.clone(),
        bridge_browser: config.bridge_browser.clone(),
        bridge_connected_at: config.bridge_connected_at.clone(),
        bridge_last_error: config.bridge_last_error.clone(),
        secret_source: config.secret_source,
        created_at: config.created_at.clone(),
    }
}

/// A home directory with at most a configuration file in it, and no keychain.
struct Home {
    file: Option<APWConfigV1>,
}

impl Home {
    fn new() -> Home {
        Home { file: None }
    }

    fn write(&mut self, input: WriteConfigInput) -> Result<APWConfigV1> {
        let plan = write_config(self.file.as_ref().map(copy), input, false, &now_text());
        assert!(plan.deletes.is_empty());
        assert!(plan.store.is_none());
        let written = plan.result?;
        self.file = Some(copy(&written));
        Ok(written)
    }

    fn read(&self, opts: ConfigReadOptions) -> Result<APWRuntimeConfig> {
        let path = "/home/.apw/config.json";
        let found = match &self.file {
            Some(config) => read_as(100, ConfigContent::V1(copy(config)), path),
            None => read_config_file(ConfigFile::Absent, &nothing, path, &now_text()),
        };
        assert!(!found.clear);
        read_config(found.result, Some(opts), &now(), &None).result
    }
}

fn nothing(_value: JsonValue) -> ConfigContent {
    panic!("there is no document");
}

/// Reads a file whose JSON document is recognized as `content`.
fn read_as(len: u64, content: ConfigContent, path: &str) -> ConfigOutcome<APWConfigV1> {
    let content = RefCell::new(Some(content));
    let file = ConfigFile::Regular {
        len,
        content: Some("{\"a\":1}".to_string()),
    };
    let recognize = |value: JsonValue| {
        assert_eq!(value.get("a"), Some(&JsonValue::integer(1)));
        content.borrow_mut().take().expect("one document")
    };
    read_config_file(file, &recognize, path, &now_text())
}

fn options() -> ConfigReadOptions {
    ConfigReadOptions {
        require_auth: false,
        max_age_ms: SESSION_MAX_AGE_MS,
        ignore_expiry: false,
    }
}

fn one() -> BigUint {
    BigUint::from_byte(1)
}

fn stored(username: &str, shared_key: &str, source: SecretSource, created_at: String) -> APWConfigV1 {
    APWConfigV1 {
        schema: 1,
        port: 10_012,
        host: "127.0.0.1".to_string(),
        username: username.to_string(),
        shared_key: shared_key.to_string(),
        runtime_mode: RuntimeMode::Auto,
        last_launch_status: None,
        last_launch_error: None,
        last_launch_strategy: None,
        bridge_status: None,
        bridge_browser: None,
        bridge_connected_at: None,
        bridge_last_error: None,
        secret_source: Some(source),
        created_at,
    }
}

#[test]
fn read_config_migrates_legacy_shape() {
    let created_at = now_text();
    let legacy = APWConfig {
        port: Some(10_012),
        shared_key: Some(bigint_to_base64(&one())),
        username: Some("alice".to_string()),
        host: Some("127.0.0.1".to_string()),
        created_at: Some(created_at.clone()),
    };
    let found = read_as(120, ConfigContent::Legacy(legacy), "/home/.apw/config.json");
    assert!(!found.clear);
    let migrated = found.result.unwrap();
    assert_eq!(migrated.schema, 1);
    assert_eq!(migrated.port, 10_012);
    assert_eq!(migrated.host, "127.0.0.1");
    assert_eq!(migrated.username, "alice");
    assert_eq!(migrated.shared_key, bigint_to_base64(&one()));
    assert_eq!(migrated.created_at, created_at);

    let runtime = read_config(
        Ok(migrated),
        Some(ConfigReadOptions {
            require_auth: false,
            max_age_ms: 1000 * 60 * 60 * 24 * 365,
            ignore_expiry: false,
        }),
        &now(),
        &None,
    )
    .result
    .unwrap();
    assert_eq!(runtime.username, "alice");
    assert_eq!(runtime.shared_key, one());
    assert_eq!(runtime.port, 10_012);
    assert_eq!(runtime.host, "127.0.0.1");
    assert_eq!(runtime.created_at, created_at);
}

#[test]
fn read_config_clears_invalid_json() {
    let parsed = parse_config_text("{invalid");
    assert!(parsed.result.is_err());
    assert!(parsed.clear);

    let file = ConfigFile::Regular {
        len: 8,
        content: Some("{invalid".to_string()),
    };
    let found = read_config_file(file, &nothing, "/home/.apw/config.json", &now_text());
    assert_eq!(found.result.unwrap_err().message, "Config file contains invalid JSON.");
    assert!(found.clear);
}

#[test]
fn read_config_rejects_oversized_payload() {
    let file = ConfigFile::Regular {
        len: MAX_CONFIG_SIZE_BYTES as u64 + 1,
        content: Some("a".repeat(MAX_CONFIG_SIZE_BYTES + 1)),
    };
    let found = read_config_file(file, &nothing, "/home/.apw/config.json", &now_text());
    assert_eq!(found.result.unwrap_err().code, Status::InvalidConfig);
    assert!(found.clear);
}

#[test]
fn read_config_rejects_symlink_file_path() {
    let path = "/home/.apw/config.json";
    let found = read_config_file(ConfigFile::Special, &nothing, path, &now_text());
    assert_eq!(found.result.unwrap_err().code, Status::InvalidConfig);
    assert!(found.clear);
}

#[test]
fn stale_config_is_invalid_with_reauth_path() {
    let created_at = (chrono::Utc::now() - chrono::Duration::days(40)).to_rfc3339();
    let stale = stored("alice", &bigint_to_base64(&one()), SecretSource::File, created_at);
    let outcome = read_config(
        Ok(stale),
        Some(ConfigReadOptions {
            require_auth: true,
            max_age_ms: SESSION_MAX_AGE_MS,
            ignore_expiry: false,
        }),
        &now(),
        &None,
    );
    assert!(outcome.clear);
    let error = outcome.result.unwrap_err();
    assert_eq!(error.code, Status::InvalidSession);
    assert_eq!(error.message, "Session expired. Run `apw auth` again.");
}

#[test]
fn clear_config_removes_keychain_secret_for_keychain_metadata() {
    let stale = stored("alice", "", SecretSource::Keychain, now_text());
    let user = clear_config(&Some(stale), &None).expect("a stored secret");

    let delete_calls: RefCell<Vec<Vec<String>>> = RefCell::new(Vec::new());
    let tool = SecurityTool {
        on_macos: false,
        keychain_override: Some(true),
        runner: |args: &Vec<String>| {
            if args.first().map(String::as_str) == Some("delete-generic-password") {
                delete_calls.borrow_mut().push(args.clone());
            }
            Ok(make_security_result(0, "", ""))
        },
    };
    delete_shared_key(&tool, &user).unwrap();
    let captured = delete_calls.borrow();
    assert_eq!(captured.len(), 1);
    assert!(captured[0].contains(&"alice".to_string()));
    assert!(captured[0].contains(&"delete-generic-password".to_string()));

    let in_file = stored("alice", "AQ==", SecretSource::File, now_text());
    assert_eq!(clear_config(&Some(in_file), &None), None);
}

#[test]
fn write_config_enforces_permissions_and_modes() {
    let mut home = Home::new();
    let written = home
        .write(WriteConfigInput {
            username: Some("alice".to_string()),
            shared_key: Some(BigUint::from_byte(42)),
            port: Some(10_012),
            host: Some("127.0.0.1".to_string()),
            allow_empty: false,
            ..WriteConfigInput::default()
        })
        .unwrap();
    assert_eq!(CONFIG_DIRECTORY_MODE, 0o700);
    assert_eq!(CONFIG_FILE_MODE, 0o600);
    assert_eq!(written.port, 10_012);
    assert_eq!(written.username, "alice");
}

#[test]
fn read_config_rejects_invalid_host_payload() {
    let mut invalid = stored("alice", "", SecretSource::File, now_text());
    invalid.host = "\0bad".to_string();
    let found = read_as(200, ConfigContent::V1(invalid), "/home/.apw/config.json");
    assert_eq!(found.result.unwrap_err().code, Status::InvalidConfig);
    assert!(found.clear);
}

#[test]
fn write_config_rejects_zero_port() {
    let mut home = Home::new();
    let result = home.write(WriteConfigInput {
        username: Some("alice".to_string()),
        shared_key: Some(one()),
        port: Some(0),
        host: Some("127.0.0.1".to_string()),
        allow_empty: false,
        ..WriteConfigInput::default()
    });
    assert_eq!(result.unwrap_err().code, Status::InvalidParam);
}

#[test]
fn write_config_rejects_incomplete_input() {
    let mut home = Home::new();
    let result = home.write(WriteConfigInput {
        username: None,
        shared_key: Some(one()),
        port: Some(10_012),
        host: Some("127.0.0.1".to_string()),
        allow_empty: false,
        ..WriteConfigInput::default()
    });
    assert!(result.is_err());
}

#[test]
fn write_config_can_clear_auth_while_preserving_launch_metadata() {
    let mut home = Home::new();
    home.write(WriteConfigInput {
        username: Some("alice".to_string()),
        shared_key: Some(one()),
        port: Some(10_012),
        host: Some("127.0.0.1".to_string()),
        allow_empty: false,
        ..WriteConfigInput::default()
    })
    .unwrap();

    let written = home
        .write(WriteConfigInput {
            port: Some(10_045),
            host: Some("127.0.0.1".to_string()),
            allow_empty: true,
            clear_auth: true,
            runtime_mode: Some(RuntimeMode::Direct),
            last_launch_status: Some("ok".to_string()),
            last_launch_error: None,
            last_launch_strategy: Some("direct".to_string()),
            ..WriteConfigInput::default()
        })
        .unwrap();

    assert_eq!(written.port, 10_045);
    assert_eq!(written.host, "127.0.0.1");
    assert_eq!(written.username, "");
    assert_eq!(written.shared_key, "");
    assert_eq!(written.runtime_mode, RuntimeMode::Direct);
    assert_eq!(written.last_launch_status.as_deref(), Some("ok"));
    assert_eq!(written.last_launch_error, None);
    assert_eq!(written.last_launch_strategy.as_deref(), Some("direct"));

    let runtime = home.read(options()).unwrap();
    assert_eq!(runtime.username, "");
    assert!(runtime.shared_key.is_zero());
}

#[test]
fn write_config_allow_empty_preserves_existing_credentials() {
    let mut home = Home::new();
    home.write(WriteConfigInput {
        username: Some("alice".to_string()),
        shared_key: Some(one()),
        port: Some(10_012),
        host: Some("127.0.0.1".to_string()),
        allow_empty: false,
        ..WriteConfigInput::default()
    })
    .unwrap();

    let written = home
        .write(WriteConfigInput {
            port: Some(10_013),
            host: Some("127.0.0.1".to_string()),
            allow_empty: true,
            runtime_mode: Some(RuntimeMode::Direct),
            last_launch_status: Some("failed".to_string()),
            last_launch_error: Some("probe failed".to_string()),
            last_launch_strategy: Some("direct".to_string()),
            ..WriteConfigInput::default()
        })
        .unwrap();

    assert_eq!(written.username, "alice");
    assert!(!written.shared_key.is_empty());
    assert_eq!(written.last_launch_status.as_deref(), Some("failed"));

    let runtime = home.read(options()).unwrap();
    assert_eq!(runtime.username, "alice");
    assert!(!runtime.shared_key.is_zero());
}

#[test]
fn metadata_only_writes_preserve_existing_created_at() {
    let mut home = Home::new();
    let written = home
        .write(WriteConfigInput {
            username: Some("alice".to_string()),
            shared_key: Some(one()),
            port: Some(10_012),
            host: Some("127.0.0.1".to_string()),
            allow_empty: false,
            refresh_created_at: true,
            ..WriteConfigInput::default()
        })
        .unwrap();

    let preserved = home
        .write(WriteConfigInput {
            port: Some(10_013),
            host: Some("127.0.0.1".to_string()),
            allow_empty: true,
            runtime_mode: Some(RuntimeMode::Direct),
            last_launch_status: Some("failed".to_string()),
            last_launch_error: Some("probe failed".to_string()),
            last_launch_strategy: Some("direct".to_string()),
            ..WriteConfigInput::default()
        })
        .unwrap();

    assert_eq!(preserved.created_at, written.created_at);
}

#[test]
fn browser_bridge_metadata_resets_launch_fields_without_clearing_auth() {
    let mut home = Home::new();
    home.write(WriteConfigInput {
        username: Some("alice".to_string()),
        shared_key: Some(one()),
        port: Some(10_012),
        host: Some("127.0.0.1".to_string()),
        allow_empty: false,
        refresh_created_at: true,
        runtime_mode: Some(RuntimeMode::Direct),
        last_launch_status: Some("failed".to_string()),
        last_launch_error: Some("probe failed".to_string()),
        last_launch_strategy: Some("direct".to_string()),
        ..WriteConfigInput::default()
    })
    .unwrap();

    let written = home
        .write(WriteConfigInput {
            port: Some(10_013),
            host: Some("127.0.0.1".to_string()),
            allow_empty: true,
            runtime_mode: Some(RuntimeMode::Browser),
            bridge_status: Some("attached".to_string()),
            bridge_browser: Some("chrome".to_string()),
            bridge_connected_at: Some("2026-03-08T00:00:00Z".to_string()),
            reset_launch_metadata: true,
            reset_bridge_metadata: true,
            ..WriteConfigInput::default()
        })
        .unwrap();

    assert_eq!(written.runtime_mode, RuntimeMode::Browser);
    assert_eq!(written.username, "alice");
    assert_eq!(written.bridge_status.as_deref(), Some("attached"));
    assert_eq!(written.bridge_browser.as_deref(), Some("chrome"));
    assert_eq!(
        written.bridge_connected_at.as_deref(),
        Some("2026-03-08T00:00:00Z")
    );
    assert!(written.last_launch_status.is_none());
    assert!(written.last_launch_error.is_none());
    assert!(written.last_launch_strategy.is_none());

    let runtime = home.read(options()).unwrap();
    assert_eq!(runtime.username, "alice");
    assert!(!runtime.shared_key.is_zero());
    assert_eq!(runtime.bridge_status.as_deref(), Some("attached"));
}

#[test]
fn a_key_goes_to_the_keychain_where_there_is_one() {
    let plan = write_config(
        None,
        WriteConfigInput {
            username: Some("alice".to_string()),
            shared_key: Some(BigUint::from_bytes_be(&[1, 2])),
            ..WriteConfigInput::default()
        },
        true,
        &now_text(),
    );
    assert_eq!(plan.store, Some(("alice".to_string(), "AQI=".to_string())));
    let written = plan.result.unwrap();
    assert_eq!(written.shared_key, "");
    assert_eq!(written.secret_source, Some(SecretSource::Keychain));
    assert_eq!(written.port, 10_000);
    assert_eq!(written.host, "127.0.0.1");

    assert_eq!(
        keychain_lookup(&Ok(copy(&written)), &None, &now()),
        Some("alice".to_string())
    );
    let runtime = read_config(Ok(written), None, &now(), &Some("AQI=".to_string()))
        .result
        .unwrap();
    assert_eq!(runtime.shared_key, BigUint::from_bytes_be(&[1, 2]));
}

#[test]
fn clearing_the_session_deletes_the_stored_secret() {
    let plan = write_config(
        Some(stored("alice", "", SecretSource::Keychain, now_text())),
        WriteConfigInput {
            allow_empty: true,
            clear_auth: true,
            ..WriteConfigInput::default()
        },
        true,
        &now_text(),
    );
    assert_eq!(plan.deletes, vec!["alice".to_string()]);
    let written = plan.result.unwrap();
    assert_eq!(written.username, "");
    assert_eq!(written.shared_key, "");
    assert_eq!(written.port, 10_012);
}

#[test]
fn an_unusable_file_reads_as_an_empty_configuration() {
    let missing = read_config_file(ConfigFile::Absent, &nothing, "/h/config.json", &now_text());
    assert!(!missing.clear);
    let error = missing.result.unwrap_err();
    assert_eq!(error.message, "No config file at /h/config.json.");

    let unreadable = ConfigFile::Regular {
        len: 3,
        content: None,
    };
    let unreadable = read_config_file(unreadable, &nothing, "/h/config.json", &now_text());
    assert!(!unreadable.clear);
    assert_eq!(
        unreadable.result.unwrap_err().message,
        "No config file at /h/config.json."
    );

    let unknown = read_as(3, ConfigContent::Unrecognized, "/h/config.json");
    assert!(!unknown.clear);
    let schema = {
        let mut config = stored("alice", "AQ==", SecretSource::File, now_text());
        config.schema = 2;
        read_as(3, ConfigContent::V1(config), "/h/config.json")
    };
    assert!(schema.clear);
    assert_eq!(schema.result.unwrap_err().message, "Unsupported config schema.");

    let runtime = read_config(unknown.result, None, &now(), &None).result.unwrap();
    assert_eq!(runtime.username, "");
    assert_eq!(runtime.port, 10_000);
    assert_eq!(runtime.created_at, "1970-01-01T00:00:00+00:00");
    let empty = read_config_file_or_empty(Err(error));
    assert_eq!(empty.host, "127.0.0.1");
}

#[test]
fn an_expired_session_loses_its_key_but_keeps_its_address() {
    let created_at = (chrono::Utc::now() - chrono::Duration::days(31)).to_rfc3339();
    let outcome = read_config(
        Ok(stored("alice", "AQ==", SecretSource::File, created_at.clone())),
        Some(options()),
        &now(),
        &None,
    );
    assert!(outcome.clear);
    let runtime = outcome.result.unwrap();
    assert!(runtime.shared_key.is_zero());
    assert_eq!(runtime.port, 10_012);

    let kept = read_config(
        Ok(stored("alice", "AQ==", SecretSource::File, created_at)),
        Some(ConfigReadOptions {
            require_auth: false,
            max_age_ms: SESSION_MAX_AGE_MS,
            ignore_expiry: true,
        }),
        &now(),
        &None,
    );
    assert!(!kept.clear);
    assert_eq!(kept.result.unwrap().shared_key, one());
}

#[test]
fn times_are_compared_to_the_millisecond() {
    let at = |text: &str| Moment::parse(text).expect("a time");
    let start = "2026-03-08T00:00:00Z";
    assert!(!stale_config(start, &at("2026-03-08T00:00:01Z"), 1000));
    assert!(stale_config(start, &at("2026-03-08T00:00:01.001Z"), 1000));
    assert!(stale_config(start, &at("2026-03-07T23:59:59Z"), 1000));
    assert!(stale_config("yesterday", &at(start), 1000));
    assert_eq!(at("1970-01-01T00:00:02+00:00").secs, 2);
    assert_eq!(at("1970-01-01T01:00:02+01:00").secs, 2);
    assert!(Moment::parse("1970-01-01").is_none());
}

#[test]
fn paths_hang_below_the_home_directory() {
    let home = Some("/Users/alice".to_string());
    assert_eq!(config_root(&home, &None), "/Users/alice/.apw");
    assert_eq!(config_path(&home, &None), "/Users/alice/.apw/config.json");
    assert_eq!(config_path(&None, &Some("/p/".to_string())), "/p/.apw/config.json");
    assert_eq!(config_root(&None, &None), "./.apw");
}

#[test]
fn hosts_are_more_than_white_space() {
    assert!(is_valid_host("localhost"));
    assert!(is_valid_host("a b"));
    assert!(!is_valid_host(" \t\u{a0}"));
    assert!(!is_valid_host("a\0b"));
}

#[test]
fn padding_keeps_the_number_and_cuts_from_the_front() {
    assert_eq!(pad(&[1, 2], 4), vec![0, 0, 1, 2]);
    assert_eq!(pad(&[1, 2], 2), vec![1, 2]);
    assert_eq!(pad(&[1, 2, 3], 2), vec![2, 3]);
    assert_eq!(
        BigUint::from_bytes_be(&pad(&[1, 2], 9)),
        BigUint::from_bytes_be(&[1, 2])
    );
}

#[test]
fn a_configuration_that_is_too_long_is_not_written() {
    assert!(check_config_size(&vec![b'a'; MAX_CONFIG_SIZE_BYTES]).is_ok());
    let error = check_config_size(&vec![b'a'; MAX_CONFIG_SIZE_BYTES + 1]).unwrap_err();
    assert_eq!(error.message, "Config payload too large.");
}

#[test]
fn codes_that_stand_for_nothing_are_generic_errors() {
    assert_eq!(normalize_status_code(9), Status::InvalidSession);
    assert_eq!(normalize_status_code(104), Status::ProtoInvalidResponse);
    assert_eq!(normalize_status_code(10), Status::GenericError);
    assert_eq!(normalize_status_code(-1), Status::GenericError);
}

#[test]
fn times_beyond_the_calendar_are_stale() {
    let ever = i64::MAX as u64;
    let at = |secs: i64, nanos: u32| Moment { secs, nanos };
    let start = "1970-01-01T00:00:00+00:00";
    assert!(!stale_config(start, &at(8_210_266_876_799, 0), ever));
    assert!(stale_config(start, &at(8_210_266_876_800, 0), ever));
    assert!(!stale_config(start, &at(59, 1_500_000_000), ever));
    assert!(stale_config(start, &at(60, 1_500_000_000), ever));
}
