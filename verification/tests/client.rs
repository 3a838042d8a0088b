use apw::bignum::BigUint;
use apw::bridge::persistence_for_browser;
use apw::client::{
    browser_bridge_remediation, canonical_daemon_host, helper_launch_profile,
    launch_error_from_config, local_bind_addr_for_target, native_host_remediation,
    parse_legacy_payload, parse_response_envelope, parse_smsg, query_message,
    resolve_daemon_target, APWMessages, ClientSendOpts, BRIDGE_STATUS_ATTACHED,
    BRIDGE_STATUS_DISCONNECTED, BRIDGE_STATUS_WAITING, NO_SESSION_MESSAGE, UNAUTHENTICATED_DAEMON_MESSAGE,
};
use apw::clock::Moment;
use apw::codec::to_base64;
use apw::daemon::persistence_for_launch_error;
use apw::error::Result;
use apw::host::{HostEnvironment, HostOverrides};
use apw::json::{parse_json, to_json, JsonValue};
use apw::manager::{
    accept_data, auth_read_options, decode_response, encode_request, read_payload,
    receive_failure, retry_delay, send_message, ApplePasswordManager,
};
use apw::native_app::{native_app_status, AppEnvironment};
use apw::preflight::{ManifestFinding, PreflightEnvironment};
use apw::srp::{SRPSession, SessionValues};
use apw::types::{
    APWConfigV1, APWResponseEnvelope, APWRuntimeConfig, Command, MSGTypes, Message, RuntimeMode,
    SecretSessionVersion, SecretSource, Status, MAX_MESSAGE_BYTES,
};
use apw::utils::{
    read_config, read_config_file, write_config, ConfigContent, ConfigFile, ConfigReadOptions,
    WriteConfigInput, SESSION_MAX_AGE_MS,
};
use base64::Engine;
use rand::{thread_rng, RngCore};
use std::cell::{Cell, RefCell};

fn json(text: &str) -> JsonValue {
    parse_json(text.as_bytes()).expect("JSON")
}

fn at(value: &JsonValue, path: &[&str]) -> JsonValue {
    path.iter()
        .fold(value.copy(), |inner, key| inner.get_or_null(key))
}

fn env() -> PreflightEnvironment {
    PreflightEnvironment {
        on_macos: false,
        os: "linux".to_string(),
        arch: "x86_64".to_string(),
        macos_major_version: None,
        host: HostEnvironment {
            home: "/home/alice".to_string(),
            os: "linux".to_string(),
            arch: "x86_64".to_string(),
            on_macos: false,
            macos_major_version: None,
            bundle_exists: false,
            bundle_info: None,
            launch_agent_exists: false,
            launch_agent_loaded: false,
            helper_executable: false,
            socket_exists: false,
            overrides: HostOverrides::default(),
        },
        manifest: ManifestFinding {
            path: None,
            content: None,
            binary_executable: false,
        },
    }
}

fn app_status() -> JsonValue {
    native_app_status(&AppEnvironment {
        home: "/home/alice".to_string(),
        bundle_exists: false,
        executable_exists: false,
        bundle_info: None,
        socket_running: false,
        status_file: None,
        live_status: None,
    })
}

fn now_text() -> String {
    chrono::Utc::now().to_rfc3339()
}

fn now() -> Moment {
    Moment::parse(&now_text()).expect("the present")
}

fn copy(config: &APWConfigV1) -> APWConfigV1 {
    APWConfigV1 {
        schema: config.schema,
        port: config.port,
        host: config.host.clone(),
        username: config.username.clone(),
        shared_key: config.shared_key.clone(),
        runtime_mode: config.runtime_mode,
        last_launch_status: config.last_launch_status.clone(),
        last_launch_error: config.last_launch_error.clone(),
        last_launch_strategy: config.last_launch_strategy.clone(),
        bridge_status: config.bridge_status.clone(),
        bridge_browser: config.bridge_browser.clone(),
        bridge_connected_at: config.bridge_connected_at.clone(),
        bridge_last_error: config.bridge_last_error.clone(),
        secret_source: config.secret_source,
        created_at: config.created_at.clone(),
    }
}

/// A home directory with at most a configuration file in it, and no keychain.
struct Home {
    file: Option<APWConfigV1>,
}

impl Home {
    fn new() -> Home {
        Home { file: None }
    }

    /// One whose configuration has an address and no session.
    fn reachable(host: &str) -> Home {
        let mut home = Home::new();
        home.write(WriteConfigInput {
            username: None,
            shared_key: None,
            port: Some(10_033),
            host: Some(host.to_string()),
            allow_empty: true,
            ..WriteConfigInput::default()
        });
        home
    }

    /// One whose configuration has a session of alice.
    fn authenticated(key: BigUint) -> Home {
        let mut home = Home::new();
        home.write(WriteConfigInput {
            username: Some("alice".to_string()),
            shared_key: Some(key),
            port: Some(10_012),
            host: Some("127.0.0.1".to_string()),
            allow_empty: false,
            ..WriteConfigInput::default()
        });
        home
    }

    fn failed_launch(last_launch_error: &str) -> Home {
        let mut home = Home::new();
        home.write(WriteConfigInput {
            username: None,
            shared_key: None,
            port: Some(10_012),
            host: Some("127.0.0.1".to_string()),
            allow_empty: true,
            clear_auth: true,
            runtime_mode: Some(RuntimeMode::Auto),
            last_launch_status: Some("failed".to_string()),
            last_launch_error: Some(last_launch_error.to_string()),
            last_launch_strategy: Some("direct".to_string()),
            ..WriteConfigInput::default()
        });
        home
    }

    fn write(&mut self, input: WriteConfigInput) {
        let plan = write_config(self.file.take(), input, false, &now_text());
        self.file = Some(plan.result.unwrap());
    }

    fn read(&self, opts: ConfigReadOptions) -> Result<APWRuntimeConfig> {
        let file = match &self.file {
            Some(_) => ConfigFile::Regular {
                len: 100,
                content: Some("{}".to_string()),
            },
            None => ConfigFile::Absent,
        };
        let recognize = |_value: JsonValue| match &self.file {
            Some(config) => ConfigContent::V1(copy(config)),
            None => ConfigContent::Unrecognized,
        };
        let path = "/home/alice/.apw/config.json";
        let found = read_config_file(file, &recognize, path, &now_text());
        read_config(found.result, Some(opts), &now(), &None).result
    }

    fn config(&self) -> Result<APWRuntimeConfig> {
        self.read(options(false))
    }

    fn manager(&self) -> ApplePasswordManager {
        ApplePasswordManager::new(self.config())
    }

    fn status(&self) -> JsonValue {
        ApplePasswordManager::status(&env(), self.config(), app_status(), &now())
    }
}

fn options(require_auth: bool) -> ConfigReadOptions {
    ConfigReadOptions {
        require_auth,
        max_age_ms: SESSION_MAX_AGE_MS,
        ignore_expiry: false,
    }
}

fn once() -> Option<ClientSendOpts> {
    Some(ClientSendOpts {
        timeout_ms: 100,
        retries: 0,
    })
}

/// Sends a message to a daemon that answers as `daemon` says; nothing is a timeout.
fn send(
    home: &Home,
    message: &Message,
    opts: Option<ClientSendOpts>,
    daemon: &dyn Fn(&[u8], u8) -> Option<Vec<u8>>,
) -> Result<JsonValue> {
    let try_once = |attempt: u8| -> Result<JsonValue> {
        let config = helper_launch_profile(&env(), home.config())?;
        let host = canonical_daemon_host(&config.host);
        resolve_daemon_target(&host, config.port, &Ok(vec![true]))?;
        let request = encode_request(message)?;
        match daemon(&request, attempt) {
            Some(response) => decode_response(&response),
            None => Err(receive_failure(true, "")),
        }
    };
    send_message(&try_once, &|_attempt: u8, _delay: u64| {}, opts)
}

fn envelope(payload: JsonValue) -> Vec<u8> {
    to_json(
        &APWResponseEnvelope {
            ok: true,
            code: Status::Success,
            payload: Some(payload),
            error: None,
            request_id: None,
        }
        .to_value(),
    )
}

#[test]
fn send_message_round_trips_capsule_response() {
    let home = Home::reachable("127.0.0.1");
    let payload = send(&home, &APWMessages::get_capabilities(), once(), &|_, _| {
        Some(envelope(json("{\"status\":\"ok\"}")))
    })
    .unwrap();
    assert_eq!(at(&payload, &["status"]), JsonValue::text("ok"));
}

#[test]
fn send_message_rejects_malformed_payload() {
    let home = Home::reachable("127.0.0.1");
    let result = send(&home, &APWMessages::get_capabilities(), once(), &|_, _| {
        Some(b"not-json".to_vec())
    });
    assert!(result.is_err());
    assert_eq!(result.unwrap_err().code, Status::ProtoInvalidResponse);
}

#[test]
fn send_message_times_out_with_retries_and_retry_budget() {
    let home = Home::reachable("127.0.0.1");
    let attempts = Cell::new(0);
    let opts = Some(ClientSendOpts {
        timeout_ms: 10,
        retries: 1,
    });
    let result = send(&home, &APWMessages::get_capabilities(), opts, &|_, _| {
        attempts.set(attempts.get() + 1);
        None
    });
    assert!(matches!(result, Err(error) if error.code == Status::CommunicationTimeout));
    assert_eq!(attempts.get(), 2);
}

#[test]
fn send_message_accepts_legacy_payload() {
    let home = Home::reachable("127.0.0.1");
    let result = send(&home, &APWMessages::get_capabilities(), once(), &|_, _| {
        Some(b"{\"STATUS\":0,\"Entries\":[]}".to_vec())
    })
    .unwrap();
    assert_eq!(at(&result, &["STATUS"]), JsonValue::integer(0));
}

#[test]
fn resolve_daemon_target_prefers_ipv4_loopback_for_localhost() {
    // The name resolves to an address of each kind.
    let is_ipv4 = vec![false, true];
    let target = resolve_daemon_target("localhost", 10_000, &Ok(is_ipv4.clone())).unwrap();
    assert!(is_ipv4[target]);
}

#[test]
fn send_message_accepts_legacy_non_success_payload() {
    let home = Home::reachable("127.0.0.1");
    let result = send(&home, &APWMessages::get_capabilities(), once(), &|_, _| {
        Some(b"{\"STATUS\":3,\"Entries\":[]}".to_vec())
    })
    .unwrap();
    assert_eq!(at(&result, &["STATUS"]), JsonValue::integer(3));
}

#[test]
fn send_message_normalizes_wildcard_daemon_host() {
    let home = Home::reachable("0.0.0.0");
    assert_eq!(canonical_daemon_host("0.0.0.0"), "127.0.0.1");
    let result = send(&home, &APWMessages::get_capabilities(), once(), &|_, _| {
        Some(envelope(json("{\"status\":\"ok\"}")))
    })
    .unwrap();
    assert_eq!(at(&result, &["status"]), JsonValue::text("ok"));
}

#[test]
fn send_message_maps_error_envelope() {
    let home = Home::reachable("127.0.0.1");
    let result = send(&home, &APWMessages::get_capabilities(), once(), &|_, _| {
        Some(b"{\"ok\":false,\"code\":101,\"error\":\"daemon timed out\"}".to_vec())
    });
    assert!(result.is_err());
    assert_eq!(result.unwrap_err().code, Status::CommunicationTimeout);
}

#[test]
fn send_message_rejects_oversized_request_payload() {
    let home = Home::reachable("127.0.0.1");
    let message = Message {
        cmd: Command::GetPasswordForLoginName.number(),
        payload: Some(JsonValue::text(&"x".repeat(MAX_MESSAGE_BYTES + 1))),
        msg: None,
        capabilities: None,
        set_up_totp_page_url: None,
        set_up_totp_uri: None,
        url: None,
        tab_id: None,
        frame_id: None,
    };
    let result = send(&home, &message, once(), &|_, _| {
        panic!("nothing is sent");
    });
    assert!(result.is_err());
    assert_eq!(result.unwrap_err().code, Status::ProtoInvalidResponse);
}

#[test]
fn send_message_retries_and_then_succeeds_after_timeout() {
    let home = Home::reachable("127.0.0.1");
    let attempts = Cell::new(0);
    let opts = Some(ClientSendOpts {
        timeout_ms: 10,
        retries: 1,
    });
    let result = send(&home, &APWMessages::get_capabilities(), opts, &|_, attempt| {
        attempts.set(attempts.get() + 1);
        if attempt == 0 {
            None
        } else {
            Some(envelope(json("{\"status\":\"ok\"}")))
        }
    });
    assert!(result.is_ok());
    assert_eq!(attempts.get(), 2);
}

#[test]
fn send_message_rejects_oversized_binary_response() {
    let home = Home::reachable("127.0.0.1");
    let result = send(&home, &APWMessages::get_capabilities(), once(), &|_, _| {
        Some(vec![0_u8; 2048])
    });
    assert!(result.is_err());
    assert_eq!(result.unwrap_err().code, Status::ProtoInvalidResponse);
    let oversized = decode_response(&vec![b' '; MAX_MESSAGE_BYTES + 1]).unwrap_err();
    assert_eq!(oversized.message, "Response payload too large.");
}

#[test]
fn send_message_fuzzes_malformed_binary_responses() {
    let mut seed = 0xA5A5_A5A5_0123_4567_u64;
    let mut malformed_payloads: Vec<Vec<u8>> = Vec::new();
    for _ in 0..24 {
        seed ^= seed << 7;
        seed ^= seed >> 9;
        seed ^= seed << 8;
        let len = (seed % 64) as usize + 1;
        let mut raw = vec![0_u8; len];
        for byte in &mut raw {
            seed = seed
                .wrapping_mul(0x9E3779B97F4A7C15)
                .wrapping_add(0xBF58476D1CE4E5B9);
            *byte = (seed >> 56) as u8;
        }
        if parse_json(&raw).is_some() {
            raw = b"{\"STATUS\":0}".to_vec();
        }
        malformed_payloads.push(raw);
    }

    let home = Home::reachable("127.0.0.1");
    let mut failures = 0_usize;
    for payload in &malformed_payloads {
        let result = send(&home, &APWMessages::get_capabilities(), once(), &|_, _| {
            Some(payload.clone())
        });
        assert!(result.is_err());
        assert_eq!(result.unwrap_err().code, Status::ProtoInvalidResponse);
        failures += 1;
    }
    assert_eq!(failures, malformed_payloads.len());
}

#[test]
fn send_message_rejects_failed_launch_state() {
    let mut home = Home::new();
    home.write(WriteConfigInput {
        username: Some("alice".to_string()),
        shared_key: Some(BigUint::from_byte(1)),
        port: Some(10_012),
        host: Some("127.0.0.1".to_string()),
        allow_empty: false,
        last_launch_status: Some("failed".to_string()),
        last_launch_error: Some("helper test failure".to_string()),
        ..WriteConfigInput::default()
    });
    let result = send(&home, &APWMessages::get_capabilities(), once(), &|_, _| {
        panic!("nothing is sent");
    });
    assert!(result.is_err());
    let error = result.unwrap_err();
    assert_eq!(error.code, Status::ProcessNotRunning);
    assert!(error.message.contains("helper test failure"));
    assert!(error.message.contains("daemon.preflight.status="));
}

fn decode_pake(request: &JsonValue) -> JsonValue {
    let text = at(request, &["msg", "PAKE"]);
    let bytes = base64::engine::general_purpose::STANDARD
        .decode(text.as_str().expect("a message"))
        .unwrap();
    parse_json(&bytes).unwrap()
}

fn server_message(tid: JsonValue, kind: MSGTypes, version: SecretSessionVersion) -> JsonValue {
    JsonValue::object()
        .with("TID", tid)
        .with("MSG", JsonValue::integer(kind.number()))
        .with("A", JsonValue::text("AQ=="))
        .with("s", JsonValue::text("AQ=="))
        .with("B", JsonValue::String(to_base64(&[0xff_u8; 384])))
        .with(
            "PROTO",
            JsonValue::Array(vec![JsonValue::integer(version.number())]),
        )
        .with("VER", JsonValue::text("1"))
        .with("ErrCode", JsonValue::integer(0))
}

fn pake(message: &JsonValue) -> JsonValue {
    JsonValue::object().with("PAKE", JsonValue::String(to_base64(&to_json(message))))
}

/// Takes a manager through the first half of the key exchange.
fn exchange_keys(manager: &mut ApplePasswordManager) {
    let request = manager.request_challenge(1_000).expect("a new exchange").unwrap();
    let first = decode_pake(&request.to_value());
    let answer = server_message(
        first.get_or_null("TID"),
        MSGTypes::ServerKeyExchange,
        SecretSessionVersion::SrpWithRfcVerification,
    );
    manager.accept_challenge(&pake(&answer)).unwrap();
}

fn twin(session: &SRPSession) -> SRPSession {
    let mut copy = SRPSession::new(true);
    copy.update_with_values(session.return_values());
    copy
}

/// Takes a manager through the second half: the server knows the PIN.
fn verify(manager: &mut ApplePasswordManager, server: &mut SRPSession, pin: &str) -> Result<WriteConfigInput> {
    server.set_shared_key(pin).unwrap();
    let (key, proof, request) = manager.verify_challenge(pin)?;
    let second = decode_pake(&request.to_value());
    let sent = server.deserialize(at(&second, &["M"]).as_str().unwrap()).unwrap();
    assert_eq!(sent, proof);
    let hamk = server.compute_hmac(&sent).unwrap();
    let answer = server_message(
        second.get_or_null("TID"),
        MSGTypes::ServerVerification,
        SecretSessionVersion::SrpWithRfcVerification,
    )
    .with("HAMK", JsonValue::String(server.serialize(&hamk, false)));
    manager.accept_verification(key, &proof, &pake(&answer))
}

#[test]
fn verify_challenge_succeeds_with_server_computed_hmac() {
    let mut home = Home::authenticated(BigUint::from_byte(1));
    let mut manager = home.manager();
    exchange_keys(&mut manager);
    let mut server = twin(&manager.session);
    let input = verify(&mut manager, &mut server, "123456").unwrap();
    home.write(input);

    assert!(manager.session.shared_key().is_some());
    let config = home.read(options(true)).unwrap();
    assert_eq!(config.username, "alice");
    assert_eq!(
        config.shared_key.to_bytes_be(),
        manager.session.shared_key().unwrap().to_bytes_be()
    );
}

#[test]
fn data_plane_workflow_with_existing_session_encrypts_and_decrypts() {
    let home = Home::authenticated(BigUint::from_byte(1));
    let mut manager = home.manager();
    exchange_keys(&mut manager);
    let mut server = twin(&manager.session);
    let mut home = home;
    home.write(verify(&mut manager, &mut server, "123456").unwrap());

    let capabilities = send(&home, &APWMessages::get_capabilities(), None, &|_, _| {
        Some(envelope(json("{\"canFillOneTimeCodes\":true,\"scanForOTPURI\":false}")))
    })
    .expect("capabilities");
    assert_eq!(at(&capabilities, &["canFillOneTimeCodes"]), JsonValue::Bool(true));

    // The server reads each query and answers it under the session key.
    let daemon = |request: &[u8], _attempt: u8| -> Option<Vec<u8>> {
        let request = parse_json(request).unwrap();
        let inner = at(&request, &["payload"]);
        let query = parse_json(inner.as_str().unwrap().as_bytes()).unwrap();
        let sealed = server
            .deserialize(at(&query, &["SMSG", "SDATA"]).as_str().unwrap())
            .unwrap();
        let asked = parse_json(&server.decrypt(&sealed).unwrap()).unwrap();
        assert!(asked.get("ACT").is_some());
        let answer = match at(&request, &["cmd"]).as_i64() {
            Some(4) => "{\"STATUS\":0,\"Entries\":[{\"USR\":\"alice\",\"sites\":[\"https://example.com/\"],\"PWD\":\"password\"}]}",
            Some(5) => "{\"STATUS\":0,\"Entries\":[{\"USR\":\"alice\",\"sites\":[\"https://example.com/\"],\"PWD\":\"hunter2\"}]}",
            Some(16) | Some(17) => "{\"STATUS\":0,\"Entries\":[{\"code\":\"111111\",\"username\":\"alice\",\"source\":\"totp\",\"domain\":\"example.com\"}]}",
            _ => "{\"STATUS\":3,\"Entries\":[]}",
        };
        let encrypted = server.encrypt(&json(answer)).unwrap();
        Some(envelope(JsonValue::object().with(
            "SMSG",
            JsonValue::object()
                .with("TID", JsonValue::text(&server.username))
                .with("SDATA", JsonValue::String(server.serialize(&encrypted, true))),
        )))
    };

    let mut manager = home.manager();
    manager.ensure_authenticated(&env(), home.config()).unwrap();
    let ask = |message: Result<Message>| {
        let response = send(&home, &message.unwrap(), None, &daemon).unwrap();
        manager.read_answer(&response).unwrap()
    };
    let login_names = ask(manager.get_login_names_for_url("https://example.com/"));
    assert_eq!(login_names.status, Status::Success);
    assert_eq!(at(&login_names.entries[0], &["USR"]), JsonValue::text("alice"));

    let password = ask(manager.get_password_for_url("https://example.com/", "alice"));
    assert_eq!(password.status, Status::Success);
    assert_eq!(at(&password.entries[0], &["PWD"]), JsonValue::text("hunter2"));

    let otp = ask(manager.get_otp_for_url("example.com"));
    assert_eq!(otp.status, Status::Success);
    assert_eq!(at(&otp.entries[0], &["code"]), JsonValue::text("111111"));

    let codes = ask(manager.list_otp_for_url("example.com"));
    assert_eq!(at(&codes.entries[0], &["domain"]), JsonValue::text("example.com"));
}

#[test]
fn decrypt_payload_rejects_invalid_smsg_body() {
    let manager = Home::new().manager();
    let result = manager.decrypt_payload(&json("{\"SMSG\":\"{bad-json\"}"));
    assert!(result.is_err());
    assert_eq!(result.unwrap_err().code, Status::ProtoInvalidResponse);
}

#[test]
fn parse_response_envelope_fuzzes_random_json_inputs() {
    let mut rng = thread_rng();
    for _ in 0..256 {
        let len = (rng.next_u32() as usize) % 2048;
        let mut raw = vec![0_u8; len];
        rng.fill_bytes(&mut raw);
        let payload = match parse_json(&raw) {
            Some(parsed) => parsed,
            None => JsonValue::text(&String::from_utf8_lossy(&raw)),
        };
        let _ = parse_response_envelope(&payload);
    }
}

#[test]
fn parse_response_envelope_accepts_named_string_codes() {
    let with_timeout = parse_response_envelope(&json(
        "{\"ok\":false,\"code\":\"CommunicationTimeout\",\"error\":\"timed out\"}",
    ));
    assert!(with_timeout.is_err());
    assert_eq!(with_timeout.unwrap_err().code, Status::CommunicationTimeout);

    let missing = parse_response_envelope(&json(
        "{\"ok\":false,\"code\":\"UnknownStatus\",\"error\":\"unknown\"}",
    ));
    assert!(missing.is_err());
    assert_eq!(missing.unwrap_err().code, Status::GenericError);
}

#[test]
fn parse_response_envelope_rejects_legacy_missing_status_fields() {
    let result = parse_response_envelope(&json("{\"STATUS\":0}"));
    assert!(result.is_err());
    assert_eq!(result.unwrap_err().code, Status::ProtoInvalidResponse);
}

#[test]
fn request_challenge_rejects_unsupported_protocol() {
    let mut manager = Home::authenticated(BigUint::from_bytes_be(&[1, 2, 3])).manager();
    manager.set_session_for_response(
        "alice".to_string(),
        BigUint::from_byte(1),
        BigUint::zero(),
        BigUint::zero(),
    );
    let request = manager.request_challenge(1_000).unwrap().unwrap();
    let raw = decode_pake(&request.to_value());
    let answer = server_message(
        raw.get_or_null("TID"),
        MSGTypes::ServerKeyExchange,
        SecretSessionVersion::SrpWithOldVerification,
    );
    let outcome = manager.accept_challenge(&pake(&answer));
    assert!(outcome.is_err());
    assert_eq!(outcome.unwrap_err().code, Status::ServerError);
}

#[test]
fn verify_challenge_returns_invalid_session_on_pin_error() {
    let mut manager = Home::authenticated(BigUint::from_bytes_be(&[1, 2, 3])).manager();
    exchange_keys(&mut manager);
    let (key, proof, request) = manager.verify_challenge("123456").unwrap();
    let raw = decode_pake(&request.to_value());
    let answer = server_message(
        raw.get_or_null("TID"),
        MSGTypes::ServerVerification,
        SecretSessionVersion::SrpWithRfcVerification,
    )
    .with("HAMK", raw.get_or_null("M"))
    .with("ErrCode", JsonValue::integer(1));
    let result = manager.accept_verification(key, &proof, &pake(&answer));
    assert!(result.is_err());
    assert_eq!(result.unwrap_err().code, Status::InvalidSession);
}

#[test]
fn ensure_authenticated_loads_runtime_configuration() {
    let home = Home::authenticated(BigUint::from_bytes_be(&[1u8; 16]));
    let mut manager = home.manager();
    let config = manager
        .ensure_authenticated(&env(), home.read(auth_read_options(None)))
        .unwrap();
    assert_eq!(manager.remote_host(), "127.0.0.1");
    assert_eq!(manager.remote_port(), 10_012);
    assert_eq!(config.username, "alice");
    assert_eq!(config.shared_key, BigUint::from_bytes_be(&[1u8; 16]));
}

#[test]
fn request_challenge_accepts_valid_server_handshake() {
    let mut manager = Home::authenticated(BigUint::from_byte(1)).manager();
    manager.request_challenge(1_000).unwrap().unwrap();
    let message = JsonValue::object()
        .with("TID", JsonValue::text("alice"))
        .with("MSG", JsonValue::integer(MSGTypes::ServerKeyExchange.number()))
        .with("A", JsonValue::text("Ag=="))
        .with("s", JsonValue::text("AQ=="))
        .with("B", JsonValue::text("Aw=="))
        .with("ErrCode", JsonValue::integer(0))
        .with(
            "PROTO",
            JsonValue::Array(vec![JsonValue::integer(
                SecretSessionVersion::SrpWithRfcVerification.number(),
            )]),
        )
        .with("VER", JsonValue::text("1"));
    assert!(manager.accept_challenge(&pake(&message)).is_ok());
    let salt = manager.session.return_values().salt;
    assert_eq!(salt, Some(BigUint::from_byte(1)));
}

#[test]
fn get_password_for_url_decrypts_encrypted_payload() {
    let shared_key = BigUint::from_bytes_be(&[1u8; 16]);
    let home = Home::authenticated(shared_key.copy());
    let mut helper_session = SRPSession::new(true);
    helper_session.update_with_values(SessionValues {
        username: Some("alice".to_string()),
        shared_key: Some(shared_key),
        client_private_key: None,
        salt: None,
        server_public_key: None,
    });
    let mut manager = home.manager();
    manager.ensure_authenticated(&env(), home.config()).unwrap();
    let message = manager.get_password_for_url("example.com", "alice").unwrap();
    assert_eq!(message.url.as_deref(), Some("http://example.com"));
    let response = send(&home, &message, None, &|_, _| {
        let encrypted = helper_session
            .encrypt(&json(
                "{\"STATUS\":0,\"Entries\":[{\"USR\":\"alice\",\"sites\":[\"https://example.com/\"],\"PWD\":\"secret\"}]}",
            ))
            .unwrap();
        Some(envelope(JsonValue::object().with(
            "SMSG",
            JsonValue::object()
                .with("TID", JsonValue::text("alice"))
                .with(
                    "SDATA",
                    JsonValue::String(helper_session.serialize(&encrypted, true)),
                ),
        )))
    })
    .unwrap();
    let output = manager.read_answer(&response).expect("expected response payload");
    assert_eq!(output.status, Status::Success);
    assert_eq!(at(&output.entries[0], &["USR"]), JsonValue::text("alice"));
}

#[test]
fn ensure_authenticated_requires_session_material() {
    let mut home = Home::new();
    home.file = Some(APWConfigV1 {
        schema: 1,
        port: 10_000,
        host: "127.0.0.1".to_string(),
        username: "alice".to_string(),
        shared_key: String::new(),
        secret_source: Some(SecretSource::File),
        created_at: now_text(),
        runtime_mode: RuntimeMode::Auto,
        last_launch_status: None,
        last_launch_error: None,
        last_launch_strategy: None,
        bridge_status: None,
        bridge_browser: None,
        bridge_connected_at: None,
        bridge_last_error: None,
    });
    let mut manager = home.manager();
    let read = home.read(auth_read_options(Some(options(true))));
    let result = manager.ensure_authenticated(&env(), read);
    assert!(result.is_err());
    assert_eq!(result.unwrap_err().code, Status::InvalidSession);
}

fn assert_launch_failure(error: apw::error::APWError) {
    assert_eq!(error.code, Status::ProcessNotRunning);
    assert!(error.message.contains("helper test failure"));
    assert!(error.message.contains("daemon.preflight.status="));
}

#[test]
fn ensure_authenticated_prefers_failed_launch_state_over_missing_session() {
    let home = Home::failed_launch("helper test failure");
    let result = home.manager().ensure_authenticated(&env(), home.config());
    assert_launch_failure(result.unwrap_err());
}

#[test]
fn get_login_names_for_url_prefers_failed_launch_state_over_missing_session() {
    let home = Home::failed_launch("helper test failure");
    let mut manager = home.manager();
    let result = manager
        .ensure_authenticated(&env(), home.config())
        .and_then(|_| manager.get_login_names_for_url("https://example.com/"));
    assert_launch_failure(result.unwrap_err());
}

#[test]
fn list_otp_for_url_prefers_failed_launch_state_over_missing_session() {
    let home = Home::failed_launch("helper test failure");
    let mut manager = home.manager();
    let result = manager
        .ensure_authenticated(&env(), home.config())
        .and_then(|_| manager.list_otp_for_url("https://example.com/"));
    assert_launch_failure(result.unwrap_err());
}

#[test]
fn status_reports_expired_session_state() {
    let mut home = Home::new();
    home.file = Some(APWConfigV1 {
        schema: 1,
        port: 10_012,
        host: "127.0.0.1".to_string(),
        username: "alice".to_string(),
        shared_key: String::new(),
        secret_source: Some(SecretSource::File),
        created_at: (chrono::Utc::now() - chrono::Duration::days(45)).to_rfc3339(),
        runtime_mode: RuntimeMode::Auto,
        last_launch_status: None,
        last_launch_error: None,
        last_launch_strategy: None,
        bridge_status: None,
        bridge_browser: None,
        bridge_connected_at: None,
        bridge_last_error: None,
    });
    let payload = home.status();
    assert_eq!(at(&payload, &["session", "expired"]), JsonValue::Bool(true));
    assert_eq!(at(&payload, &["session", "authenticated"]), JsonValue::Bool(false));
    assert_eq!(at(&payload, &["daemon", "runtimeMode"]), JsonValue::text("auto"));
    for key in ["status", "browser", "connectedAt", "lastError"] {
        assert!(at(&payload, &["bridge", key]).is_null());
    }
    for key in ["lastLaunchStatus", "lastLaunchError", "lastLaunchStrategy"] {
        assert!(at(&payload, &["daemon", key]).is_null());
    }
    assert!(at(&payload, &["daemon", "preflight"]).is_object());
    assert!(at(&payload, &["daemon", "preflight", "status"]).as_str().is_some());
    assert!(matches!(
        at(&payload, &["daemon", "preflight", "launchStrategies"]),
        JsonValue::Array(_)
    ));
}

#[test]
fn status_preserves_failed_launch_metadata_after_launch_failure() {
    let payload = Home::failed_launch("helper test failure").status();
    assert_eq!(at(&payload, &["session", "authenticated"]), JsonValue::Bool(false));
    assert_eq!(at(&payload, &["daemon", "runtimeMode"]), JsonValue::text("auto"));
    assert_eq!(at(&payload, &["daemon", "lastLaunchStatus"]), JsonValue::text("failed"));
    assert_eq!(
        at(&payload, &["daemon", "lastLaunchError"]),
        JsonValue::text("helper test failure")
    );
    assert_eq!(at(&payload, &["daemon", "lastLaunchStrategy"]), JsonValue::text("direct"));
}

fn browser_home(status: &str, connected_at: Option<String>, last_error: Option<&str>) -> Home {
    let mut home = Home::new();
    home.write(WriteConfigInput {
        port: Some(10_012),
        host: Some("127.0.0.1".to_string()),
        allow_empty: true,
        clear_auth: true,
        runtime_mode: Some(RuntimeMode::Browser),
        bridge_status: Some(status.to_string()),
        bridge_browser: Some("chrome".to_string()),
        bridge_connected_at: connected_at,
        bridge_last_error: last_error.map(str::to_string),
        reset_bridge_metadata: true,
        reset_launch_metadata: true,
        ..WriteConfigInput::default()
    });
    home
}

#[test]
fn browser_mode_requires_attached_bridge_before_auth_or_queries() {
    let home = browser_home(BRIDGE_STATUS_WAITING, None, None);
    let error = home
        .manager()
        .ensure_authenticated(&env(), home.config())
        .unwrap_err();
    assert_eq!(error.code, Status::ProcessNotRunning);
    assert!(error.message.contains("bridge.status=attached"));
    assert!(error.message.contains("daemon.preflight.status="));
}

#[test]
fn browser_mode_uses_context_specific_unauthenticated_guidance_once_attached() {
    let home = browser_home(BRIDGE_STATUS_ATTACHED, Some(now_text()), None);
    let error = home
        .manager()
        .ensure_authenticated(&env(), home.config())
        .unwrap_err();
    assert_eq!(error.code, Status::InvalidSession);
    assert_eq!(error.message, UNAUTHENTICATED_DAEMON_MESSAGE);
}

#[test]
fn status_includes_browser_bridge_state() {
    let payload = browser_home(
        BRIDGE_STATUS_ATTACHED,
        Some("2026-03-08T00:00:00Z".to_string()),
        Some("stale"),
    )
    .status();
    assert_eq!(at(&payload, &["daemon", "runtimeMode"]), JsonValue::text("browser"));
    assert_eq!(at(&payload, &["bridge", "status"]), JsonValue::text("attached"));
    assert_eq!(at(&payload, &["bridge", "browser"]), JsonValue::text("chrome"));
    assert_eq!(
        at(&payload, &["bridge", "connectedAt"]),
        JsonValue::text("2026-03-08T00:00:00Z")
    );
    assert_eq!(at(&payload, &["bridge", "lastError"]), JsonValue::text("stale"));
}

#[test]
fn status_json_has_stable_shape() {
    let output = ApplePasswordManager::status_envelope(Home::new().status()).to_value();
    assert_eq!(at(&output, &["ok"]), JsonValue::Bool(true));
    assert!(at(&output, &["payload", "daemon", "host"]).as_str().is_some());
    assert!(at(&output, &["payload", "daemon", "port"]).as_u64().is_some());
    assert!(at(&output, &["payload", "bridge"]).is_object());
    for key in ["status", "browser", "connectedAt", "lastError"] {
        assert!(at(&output, &["payload", "bridge", key]).is_null());
    }
    assert_eq!(
        at(&output, &["payload", "session", "authenticated"]),
        JsonValue::Bool(false)
    );
    assert!(at(&output, &["payload", "session", "createdAt"]).as_str().is_some());
    assert!(at(&output, &["payload", "session", "expired"]).as_bool().is_some());
}

#[test]
fn status_json_preserves_failed_launch_metadata_after_command_failure() {
    let message = "Helper process was terminated by SIGKILL (Code Signature Constraint Violation).";
    let home = Home::failed_launch(message);
    let initial = home.status();
    assert_eq!(at(&initial, &["daemon", "lastLaunchStatus"]), JsonValue::text("failed"));
    assert_eq!(at(&initial, &["daemon", "lastLaunchStrategy"]), JsonValue::text("direct"));
    let error = home
        .manager()
        .ensure_authenticated(&env(), home.config())
        .unwrap_err();
    assert_eq!(i32::from(error.code), 103);
    let after = home.status();
    assert_eq!(at(&after, &["daemon", "runtimeMode"]), JsonValue::text("auto"));
    assert_eq!(at(&after, &["daemon", "lastLaunchError"]), JsonValue::text(message));
    assert_eq!(at(&after, &["session", "authenticated"]), JsonValue::Bool(false));
}

#[test]
fn a_session_is_reported_as_authenticated() {
    let home = Home::authenticated(BigUint::from_byte(1));
    let payload = home.status();
    assert_eq!(at(&payload, &["session", "authenticated"]), JsonValue::Bool(true));
    assert_eq!(at(&payload, &["session", "username"]), JsonValue::text("alice"));
    let unreadable: Result<APWRuntimeConfig> =
        Err(apw::error::APWError::new(Status::InvalidConfig, "x"));
    let moment = Moment { secs: 77, nanos: 0 };
    let report = ApplePasswordManager::status(&env(), unreadable, app_status(), &moment);
    assert_eq!(at(&report, &["session", "createdAt"]), JsonValue::text("77"));
    assert_eq!(at(&report, &["session", "expired"]), JsonValue::Bool(true));
    assert_eq!(at(&report, &["daemon", "port"]), JsonValue::integer(10_000));
}

#[test]
fn a_missing_session_is_told_by_what_is_on_record() {
    let home = Home::new();
    let error = home
        .manager()
        .ensure_authenticated(&env(), home.config())
        .unwrap_err();
    assert_eq!(error.code, Status::InvalidSession);
    assert_eq!(error.message, NO_SESSION_MESSAGE);
}

#[test]
fn a_challenge_is_fresh_for_a_while() {
    let mut manager = Home::authenticated(BigUint::from_byte(1)).manager();
    assert!(manager.request_challenge(10_000).is_some());
    assert!(manager.request_challenge(14_999).is_none());
    assert!(manager.request_challenge(15_000).is_some());
    manager.logout().unwrap();
    assert!(manager.session.shared_key().is_none());
    assert!(manager.request_challenge(15_001).is_some());
    // Without a session key it is begun again each time.
    assert!(manager.request_challenge(15_002).is_some());
}

#[test]
fn challenges_are_refused_for_what_is_wrong_with_them() {
    let mut manager = Home::authenticated(BigUint::from_byte(1)).manager();
    let good = || {
        server_message(
            JsonValue::text("alice"),
            MSGTypes::ServerKeyExchange,
            SecretSessionVersion::SrpWithRfcVerification,
        )
    };
    let mut refused = |payload: &JsonValue| manager.accept_challenge(payload).unwrap_err();
    let error = refused(&json("{}"));
    assert_eq!(error.code, Status::ProtoInvalidResponse);
    assert_eq!(error.message, "Invalid challenge payload.");
    let text = |text: &str| JsonValue::object().with("PAKE", JsonValue::text(text));
    assert_eq!(refused(&text("")).message, "Invalid challenge response.");
    assert_eq!(refused(&text("*")).message, "Invalid server challenge payload.");
    assert_eq!(refused(&text("AQ==")).message, "Invalid server challenge payload.");
    assert_eq!(
        refused(&pake(&json("{}"))).message,
        "Invalid server challenge: malformed PAKE message"
    );
    let wrong_type = server_message(
        JsonValue::text("alice"),
        MSGTypes::ServerVerification,
        SecretSessionVersion::SrpWithRfcVerification,
    );
    assert_eq!(
        refused(&pake(&wrong_type)).message,
        "Invalid server challenge: unexpected message type"
    );
    assert_eq!(
        refused(&pake(&good().with("ErrCode", JsonValue::integer(-4)))).message,
        "Invalid server challenge: error -4"
    );
    let stranger = refused(&pake(&good().with("TID", JsonValue::text("bob"))));
    assert_eq!(stranger.code, Status::InvalidSession);
    assert_eq!(stranger.message, "Invalid server challenge: session mismatch.");
    assert_eq!(
        refused(&pake(&good().with("B", JsonValue::text("*")))).message,
        "Invalid bigint encoding."
    );
    let zero = refused(&pake(&good().with("B", JsonValue::text("AA=="))));
    assert_eq!(zero.code, Status::InvalidSession);
    assert_eq!(zero.message, "Invalid server hello: invalid public key");
    assert!(manager.accept_challenge(&pake(&good())).is_ok());
}

#[test]
fn verifications_are_refused_for_what_is_wrong_with_them() {
    let mut manager = Home::authenticated(BigUint::from_byte(1)).manager();
    exchange_keys(&mut manager);
    let (key, proof, _request) = manager.verify_challenge("123456").unwrap();
    let good = || {
        server_message(
            JsonValue::text("alice"),
            MSGTypes::ServerVerification,
            SecretSessionVersion::SrpWithRfcVerification,
        )
    };
    let refused = |payload: &JsonValue| {
        manager
            .accept_verification(key.copy(), &proof, payload)
            .unwrap_err()
    };
    assert_eq!(refused(&json("{}")).message, "Invalid verification payload.");
    assert_eq!(
        refused(&json("{\"PAKE\":\"*\"}")).message,
        "Invalid server verification payload."
    );
    assert_eq!(refused(&pake(&json("{}"))).message, "Invalid server verification.");
    let wrong_type = good().with("MSG", JsonValue::integer(1));
    assert_eq!(refused(&pake(&wrong_type)).message, "Invalid server verification type.");
    let stranger = refused(&pake(&good().with("TID", JsonValue::text("bob"))));
    assert_eq!(stranger.code, Status::InvalidSession);
    assert_eq!(stranger.message, "Invalid server response session.");
    assert_eq!(
        refused(&pake(&good().with("ErrCode", JsonValue::integer(1)))).message,
        "Incorrect PIN."
    );
    assert_eq!(
        refused(&pake(&good().with("ErrCode", JsonValue::integer(2)))).message,
        "Server verification failed."
    );
    assert_eq!(refused(&pake(&good())).message, "Invalid verification: missing HAMK.");
    assert_eq!(
        refused(&pake(&good().with("HAMK", JsonValue::text("*")))).message,
        "Invalid base64 value."
    );
    assert_eq!(
        refused(&pake(&good().with("HAMK", JsonValue::text("AQ==")))).message,
        "Invalid verification proof."
    );
}

#[test]
fn answers_for_another_session_are_refused() {
    let home = Home::authenticated(BigUint::from_bytes_be(&[1; 16]));
    let manager = home.manager();
    let answer = |tid: &str, data: &str| {
        JsonValue::object()
            .with("TID", JsonValue::text(tid))
            .with("SDATA", JsonValue::text(data))
    };
    let error = manager.decrypt_payload(&answer("bob", "AQ==")).unwrap_err();
    assert_eq!(error.code, Status::InvalidSession);
    assert_eq!(error.message, "Response destined to another session.");
    let error = manager.decrypt_payload(&answer("alice", "*")).unwrap_err();
    assert_eq!(error.message, "Invalid base64 value.");
    for data in [vec![1], vec![0; 16], vec![0; 32], vec![0; 33]] {
        let error = manager
            .decrypt_payload(&answer("alice", &to_base64(&data)))
            .unwrap_err();
        assert_eq!(error.code, Status::ProtoInvalidResponse);
        assert_eq!(error.message, "Invalid data payload.");
    }
    assert_eq!(
        parse_smsg(&json("{\"SMSG\":{\"TID\":\"a\"}}")).unwrap_err().message,
        "Malformed SMSG field."
    );
    assert_eq!(
        parse_smsg(&json("{\"SMSG\":{\"TID\":\"a\",\"SDATA\":1}}")).unwrap_err().message,
        "Invalid SMSG payload."
    );
    assert_eq!(
        parse_smsg(&json("{}")).unwrap_err().message,
        "Invalid helper response payload."
    );
    assert_eq!(accept_data(Ok(b"[1]".to_vec())).unwrap(), json("[1]"));
    assert!(accept_data(Ok(b"[".to_vec())).is_err());
    assert!(accept_data(error_outcome()).is_err());
}

fn error_outcome() -> Result<Vec<u8>> {
    Err(apw::error::APWError::new(Status::ServerError, "x"))
}

#[test]
fn decrypted_answers_have_a_status_and_entries() {
    let payload = read_payload(&json("{\"STATUS\":\"3\",\"Entries\":[1,2],\"more\":0}")).unwrap();
    assert_eq!(payload.status, Status::NoResults);
    assert_eq!(payload.entries, vec![json("1"), json("2")]);
    assert_eq!(read_payload(&json("[0,[]]")).unwrap().status, Status::Success);
    for bad in ["{}", "{\"STATUS\":0}", "{\"STATUS\":null,\"Entries\":[]}", "[0]", "7"] {
        let error = read_payload(&json(bad)).unwrap_err();
        assert_eq!(error.code, Status::ProtoInvalidResponse);
        assert_eq!(error.message, "Invalid helper response payload.");
    }
}

#[test]
fn waits_between_tries_are_bounded() {
    assert_eq!(retry_delay(0), 250);
    assert_eq!(retry_delay(249), 499);
    assert_eq!(retry_delay(250), 250);
    let delays = Cell::new(0);
    let result = send_message(
        &|_attempt: u8| Err(receive_failure(true, "")),
        &|_attempt: u8, delay: u64| {
            assert!((250..500).contains(&delay));
            delays.set(delays.get() + 1);
        },
        Some(ClientSendOpts {
            timeout_ms: 1,
            retries: 3,
        }),
    );
    assert!(result.is_err());
    assert_eq!(delays.get(), 3);
    let lost = receive_failure(false, "reset");
    assert_eq!(lost.code, Status::GenericError);
    assert_eq!(lost.message, "No response from helper process: reset");
    assert_eq!(ClientSendOpts::default().timeout_ms, 5_000);
}

#[test]
fn addresses_of_the_daemon_are_put_right() {
    assert_eq!(canonical_daemon_host("::"), "::1");
    assert_eq!(canonical_daemon_host("example.com"), "example.com");
    assert_eq!(resolve_daemon_target("h", 1, &Ok(vec![false, false])).unwrap(), 0);
    assert_eq!(
        resolve_daemon_target("h", 1, &Ok(Vec::new())).unwrap_err().code,
        Status::GenericError
    );
    assert!(resolve_daemon_target("h", 1, &Err("no such host".to_string()))
        .unwrap_err()
        .message
        .ends_with(": no such host"));
    assert_eq!(local_bind_addr_for_target(true), "0.0.0.0:0");
    assert_eq!(local_bind_addr_for_target(false), "[::]:0");
}

#[test]
fn old_answers_are_known_by_their_status_and_entries() {
    assert!(parse_legacy_payload(&json("{\"STATUS\":0,\"Entries\":[]}")).is_some());
    assert!(parse_legacy_payload(&json("{\"STATUS\":\"0\",\"Entries\":[]}")).is_none());
    assert!(parse_legacy_payload(&json("{\"STATUS\":0,\"Entries\":{}}")).is_none());
    assert!(parse_response_envelope(&json("[]")).is_err());
    assert!(parse_response_envelope(&json("{\"ok\":1}")).is_err());
    assert_eq!(
        parse_response_envelope(&json("{\"ok\":true}")).unwrap_err().message,
        "Missing helper payload."
    );
}

#[test]
fn the_complaint_about_a_bridge_names_the_browser() {
    let home = browser_home("error", None, Some("crashed"));
    let text = browser_bridge_remediation(&env(), &home.config().unwrap(), "error");
    assert!(text.starts_with(
        "Daemon is running in browser mode, but the chrome bridge reported an error: crashed. "
    ));
}

#[test]
fn the_status_on_record_comes_before_the_default() {
    let known = browser_home(BRIDGE_STATUS_DISCONNECTED, None, None).config().unwrap();
    assert_eq!(
        browser_bridge_remediation(&env(), &known, BRIDGE_STATUS_WAITING),
        browser_bridge_remediation(&env(), &known, BRIDGE_STATUS_DISCONNECTED)
    );
    let unknown = Home::reachable("127.0.0.1").config().unwrap();
    assert!(unknown.bridge_status.is_none());
    assert_ne!(
        browser_bridge_remediation(&env(), &unknown, BRIDGE_STATUS_WAITING),
        browser_bridge_remediation(&env(), &unknown, BRIDGE_STATUS_DISCONNECTED)
    );
    assert_eq!(
        native_host_remediation(&env(), &known, BRIDGE_STATUS_WAITING),
        native_host_remediation(&env(), &known, BRIDGE_STATUS_DISCONNECTED)
    );
    assert_ne!(
        native_host_remediation(&env(), &unknown, BRIDGE_STATUS_WAITING),
        native_host_remediation(&env(), &unknown, BRIDGE_STATUS_DISCONNECTED)
    );
}

#[test]
fn a_failed_launch_on_record_is_told_with_its_cause_in_front() {
    let mut home = Home::authenticated(BigUint::from_byte(9));
    home.write(persistence_for_launch_error(
        "127.0.0.1",
        10_012,
        RuntimeMode::Direct,
        "direct",
        "helper crashed".to_string(),
    ));
    let error = launch_error_from_config(&env(), &home.config().unwrap()).unwrap();
    assert_eq!(error.code, Status::ProcessNotRunning);
    assert!(error.message.starts_with("helper crashed"));
}

#[test]
fn a_client_is_told_to_wait_until_the_bridge_is_attached() {
    for mode in [RuntimeMode::Native, RuntimeMode::Browser] {
        for status in ["waiting", "attached", "disconnected", "error", ""] {
            let mut home = Home::authenticated(BigUint::from_byte(9));
            home.write(persistence_for_browser(
                "127.0.0.1", 10_012, mode, status, None, None, None,
            ));
            let error = launch_error_from_config(&env(), &home.config().unwrap());
            assert_eq!(error.is_none(), status == "attached");
        }
    }
}

#[test]
fn a_verified_session_is_gone_on_with() {
    let mut home = Home::authenticated(BigUint::from_byte(1));
    let mut manager = home.manager();
    exchange_keys(&mut manager);
    let mut server = twin(&manager.session);
    let input = verify(&mut manager, &mut server, "123456").unwrap();
    home.write(input);

    let mut next = home.manager();
    next.ensure_authenticated(&env(), home.read(auth_read_options(None))).unwrap();
    assert_eq!(next.session.username, "alice");
    assert_eq!(next.session.shared_key(), manager.session.shared_key());
    assert_eq!(next.remote_port(), manager.remote_port());
    assert_eq!(next.remote_host(), manager.remote_host());

    let value = json("{\"a\": [1, true, \"b\"]}");
    let sealed = manager.session.encrypt(&value).unwrap();
    assert_eq!(parse_json(&next.session.decrypt(&sealed).unwrap()).unwrap(), value);
}

#[test]
fn a_sealed_query_goes_into_its_envelope() {
    let mut session = SRPSession::from_seed(&[3; 32], &[1; 16], true);
    session.username = "alice".to_string();
    let message = query_message(
        &session,
        Command::GetLoginNamesForUrl,
        "CmdGetLoginNames4URL",
        Ok(vec![1, 2, 3]),
        "https://example.com",
        1,
    )
    .unwrap();
    assert_eq!(message.cmd, 4);
    assert_eq!(message.url.as_deref(), Some("https://example.com"));
    assert_eq!((message.tab_id, message.frame_id), (Some(1), Some(1)));
    assert!(message.msg.is_none() && message.capabilities.is_none());
    let payload = message.payload.expect("a payload");
    assert_eq!(
        json(payload.as_str().unwrap()),
        json(
            "{\"QID\":\"CmdGetLoginNames4URL\",\
             \"SMSG\":{\"TID\":\"alice\",\"SDATA\":\"AQID\"}}"
        )
    );

    let error = query_message(
        &session,
        Command::GetOneTimeCodes,
        "CmdDidFillOneTimeCode",
        Err(apw::error::APWError::new(Status::ServerError, "Encryption failed.")),
        "https://example.com",
        0,
    )
    .unwrap_err();
    assert_eq!(error.code, Status::ServerError);
    assert_eq!(error.message, "Encryption failed.");
}

#[test]
fn every_try_but_the_first_comes_after_a_wait() {
    let waits: RefCell<Vec<(u8, u64)>> = RefCell::new(Vec::new());
    let opts = Some(ClientSendOpts {
        timeout_ms: 10,
        retries: 3,
    });
    let result = send_message(
        &|_attempt: u8| Err(receive_failure(true, "")),
        &|attempt: u8, delay: u64| waits.borrow_mut().push((attempt, delay)),
        opts,
    );
    assert_eq!(result.unwrap_err().code, Status::CommunicationTimeout);
    let tries: Vec<u8> = waits.borrow().iter().map(|wait| wait.0).collect();
    assert_eq!(tries, [0, 1, 2]);
    assert!(waits.borrow().iter().all(|wait| (250..500).contains(&wait.1)));
}

#[test]
fn a_request_is_printed_in_the_order_of_its_members() {
    let sent = encode_request(&APWMessages::get_capabilities()).unwrap();
    let text = String::from_utf8(sent).unwrap();
    assert!(text.starts_with("{\"cmd\":14,\"capabilities\":{"));
    let message = Message {
        cmd: 4,
        payload: Some(json("{\"b\":1,\"a\":2}")),
        msg: None,
        capabilities: None,
        set_up_totp_page_url: None,
        set_up_totp_uri: None,
        url: Some("https://example.com".to_string()),
        tab_id: Some(1),
        frame_id: Some(0),
    };
    assert_eq!(
        String::from_utf8(encode_request(&message).unwrap()).unwrap(),
        "{\"cmd\":4,\"payload\":{\"a\":2,\"b\":1},\"url\":\"https://example.com\",\
         \"tabId\":1,\"frameId\":0}"
    );
}
