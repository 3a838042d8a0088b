use apw::bignum::BigUint;
use apw::cli::{
    accept_url, ask_otp_action, ask_pw_action, is_valid_host, json_output, normalize_legacy_args,
    normalize_pin, otp_action_of, parse_host, parse_host_arg, parse_runtime_mode, print_entries,
    print_failure, print_output, print_status, pw_action_of, run, runtime_mode_of, sanitize_url,
    show_challenge, AppCommand, AppSubcommand, AuthCommand, AuthResponseArgs, AuthSubcommand, Cli,
    Commands, DoctorCommand, HostCommand, HostDoctorArgs, HostSubcommand, LoginCommand, OtpAction,
    OtpCommand, PwAction, PwCommand, StartCommand, StatusCommand, Task,
};
use apw::client::normalize_lookup_url;
use apw::error::APWError;
use apw::json::{parse_json, JsonValue};
use apw::srp::{SRPSession, SessionValues};
use apw::types::{Payload, RuntimeMode, Status};
use rand::{thread_rng, Rng};

fn json(text: &str) -> JsonValue {
    parse_json(text.as_bytes()).expect("JSON")
}

fn at(value: &JsonValue, path: &[&str]) -> JsonValue {
    path.iter()
        .fold(value.copy(), |inner, key| inner.get_or_null(key))
}

fn command(command: Commands) -> Cli {
    Cli {
        command,
        json: true,
    }
}

fn auth(pin: Option<&str>) -> Cli {
    command(Commands::Auth(AuthCommand {
        command: None,
        pin: pin.map(str::to_string),
    }))
}

fn list(url: &str) -> Cli {
    command(Commands::Pw(PwCommand {
        action: Some(PwAction::List {
            url: url.to_string(),
        }),
    }))
}

#[test]
fn host_validation_rejects_spaces() {
    assert!(is_valid_host("localhost"));
    assert!(!is_valid_host("local host"));
    assert!(!is_valid_host("   "));
    assert!(!is_valid_host("a\0b"));
}

#[test]
fn parse_host_requires_value() {
    assert!(parse_host("127.0.0.1").is_ok());
    assert!(parse_host("   ").is_err());
    assert!(parse_host("bad host").is_err());
}

#[test]
fn pin_normalization_is_strict() {
    assert_eq!(normalize_pin("123456".to_string()).unwrap(), "123456");
    assert!(normalize_pin("12345".to_string()).is_err());
    assert!(normalize_pin("12ab56".to_string()).is_err());
    assert!(normalize_pin(" 123456 ".to_string()).is_err());
}

#[test]
fn parse_url_is_optional_https_default() {
    assert_eq!(sanitize_url("example.com").unwrap(), "https://example.com");
    assert!(sanitize_url("not a url").is_err());
}

#[test]
fn parse_url_rejects_nulls_and_missing_host() {
    assert!(sanitize_url("   ").is_err());
    assert!(sanitize_url("http://\0evil").is_err());
    assert!(sanitize_url("://bad").is_err());
}

#[test]
fn sanitize_url_fuzzed_inputs_stay_defensive() {
    let mut rng = thread_rng();
    for _ in 0..2048 {
        let len = rng.gen_range(0..256usize);
        let mut raw = vec![0_u8; len];
        rng.fill(raw.as_mut_slice());
        let candidate = String::from_utf8_lossy(&raw).to_string();
        match sanitize_url(&candidate) {
            Ok(value) => {
                let parsed = if value.contains("://") {
                    value.to_string()
                } else {
                    format!("https://{value}")
                };

                let parsed = url::Url::parse(&parsed).expect("sanitized URL must parse");
                assert!(parsed.host_str().is_some());
            }
            Err(error) => {
                assert!(error.code == Status::GenericError || error.code == Status::InvalidParam);
            }
        }
    }
}

#[test]
fn start_command_rejects_invalid_bind_host() {
    assert!(parse_host_arg("bad host").is_err());
}

#[test]
fn start_command_defaults_match_legacy() {
    let start = StartCommand::default();
    assert_eq!(start.port, 0);
    assert_eq!(start.bind, "127.0.0.1");
}

#[test]
fn start_command_accepts_browser_runtime_mode() {
    assert_eq!(parse_runtime_mode("browser").unwrap(), RuntimeMode::Browser);
}

#[test]
fn print_entries_rejects_errors() {
    let payload = Payload {
        status: Status::NoResults,
        entries: Vec::new(),
    };
    let result = print_entries(&payload, false);
    assert!(result.is_err());
    assert_eq!(result.unwrap_err().code, Status::NoResults);
}

#[test]
fn normalizes_legacy_auth_short_flags() {
    let args = vec![
        "apw".to_string(),
        "-sk".to_string(),
        "server".to_string(),
        "-ck".to_string(),
        "client".to_string(),
    ];
    assert_eq!(
        normalize_legacy_args(args),
        vec![
            "apw".to_string(),
            "--serverKey".to_string(),
            "server".to_string(),
            "--clientKey".to_string(),
            "client".to_string(),
        ]
    );
}

#[test]
fn command_invalid_pin_is_rejected_without_network() {
    let cli = auth(Some("12ab"));
    let json_wanted = json_output(&cli);
    let error = run(cli).unwrap_err();
    assert_eq!(i32::from(error.code), 2);
    let output = json(&print_failure(&error, json_wanted));
    assert_eq!(at(&output, &["code"]), JsonValue::integer(2));
    assert!(at(&output, &["error"])
        .as_str()
        .unwrap()
        .contains("PIN must be exactly 6 digits."));
}

#[test]
fn command_invalid_url_rejected_before_auth_dependency() {
    let cli = list("bad host");
    let json_wanted = json_output(&cli);
    let error = run(cli).unwrap_err();
    assert_eq!(i32::from(error.code), 1);
    let output = json(&print_failure(&error, json_wanted));
    assert_eq!(at(&output, &["code"]), JsonValue::integer(1));
    assert_eq!(at(&output, &["ok"]), JsonValue::Bool(false));
    assert!(at(&output, &["error"]).as_str().unwrap().contains("Invalid URL"));
}

#[test]
fn commands_ask_for_tasks() {
    let task = |parsed: Commands| run(command(parsed)).unwrap();
    assert!(matches!(
        task(Commands::App(AppCommand { command: AppSubcommand::Install })),
        Task::InstallApp
    ));
    assert!(matches!(
        task(Commands::App(AppCommand { command: AppSubcommand::Launch })),
        Task::LaunchApp
    ));
    assert!(matches!(task(Commands::Doctor(DoctorCommand {})), Task::ExamineApp));
    assert!(matches!(
        task(Commands::Host(HostCommand { command: HostSubcommand::Install })),
        Task::InstallHost
    ));
    assert!(matches!(
        task(Commands::Host(HostCommand {
            command: HostSubcommand::Doctor(HostDoctorArgs { json: false })
        })),
        Task::ExamineHost
    ));
    assert!(matches!(
        task(Commands::Host(HostCommand { command: HostSubcommand::Uninstall })),
        Task::UninstallHost
    ));
    assert!(matches!(
        task(Commands::Status(StatusCommand { json: false })),
        Task::ReportStatus
    ));
    assert!(matches!(
        task(Commands::Login(LoginCommand { url: "example.com".to_string() })),
        Task::Login { url } if url == "https://example.com"
    ));
    assert!(matches!(
        task(Commands::Auth(AuthCommand { command: Some(AuthSubcommand::Logout), pin: None })),
        Task::Logout
    ));
    assert!(matches!(
        task(Commands::Auth(AuthCommand { command: Some(AuthSubcommand::Request), pin: None })),
        Task::RequestChallenge
    ));
    assert!(matches!(run(auth(None)).unwrap(), Task::AskPin));
    assert!(matches!(
        run(auth(Some("123456"))).unwrap(),
        Task::Authenticate { pin } if pin == "123456"
    ));
    assert!(matches!(
        task(Commands::Pw(PwCommand { action: None })),
        Task::AskPassword
    ));
    assert!(matches!(
        task(Commands::Otp(OtpCommand { action: None })),
        Task::AskCode
    ));
    assert!(matches!(
        run(list("http://example.com/a")).unwrap(),
        Task::ListAccounts { url } if url == "http://example.com/a"
    ));
    assert!(matches!(
        task(Commands::Pw(PwCommand {
            action: Some(PwAction::Get { url: "example.com".to_string(), username: None })
        })),
        Task::GetPassword { url, username } if url == "https://example.com" && username.is_empty()
    ));
    assert!(matches!(
        task(Commands::Otp(OtpCommand {
            action: Some(OtpAction::Get { url: "example.com".to_string() })
        })),
        Task::GetCode { url } if url == "https://example.com"
    ));
    assert!(matches!(
        task(Commands::Otp(OtpCommand {
            action: Some(OtpAction::List { url: "example.com".to_string() })
        })),
        Task::ListCodes { url } if url == "https://example.com"
    ));
}

#[test]
fn the_start_command_sets_the_options_of_the_daemon() {
    let start = StartCommand {
        port: 5000,
        bind: " 0.0.0.0 ".to_string(),
        runtime_mode: RuntimeMode::Direct,
        dry_run: true,
    };
    match run(command(Commands::Start(start))).unwrap() {
        Task::Start(options) => {
            assert_eq!(options.port, 5000);
            assert_eq!(options.host, "0.0.0.0");
            assert_eq!(options.runtime_mode, RuntimeMode::Direct);
            assert!(options.dry_run);
        }
        _ => panic!("the daemon is to start"),
    }
    let blank = StartCommand {
        bind: " ".to_string(),
        ..StartCommand::default()
    };
    let error = run(command(Commands::Start(blank))).unwrap_err();
    assert_eq!(error.code, Status::InvalidParam);
    assert_eq!(error.message, "Missing host.");
    assert_eq!(parse_host("a b").unwrap_err().message, "Invalid host.");
}

fn answer(pin: &str, salt: &str, server_key: &str, client_key: &str) -> Cli {
    command(Commands::Auth(AuthCommand {
        command: Some(AuthSubcommand::Response(AuthResponseArgs {
            pin: pin.to_string(),
            salt: salt.to_string(),
            server_key: server_key.to_string(),
            client_key: client_key.to_string(),
            username: "alice".to_string(),
        })),
        pin: None,
    }))
}

#[test]
fn an_answer_to_a_challenge_takes_its_numbers_back() {
    match run(answer("123456", "AQ==", "Ag==", "Aw==")).unwrap() {
        Task::AnswerChallenge {
            username,
            client_key,
            server_key,
            salt,
            pin,
        } => {
            assert_eq!(username, "alice");
            assert_eq!(salt, BigUint::from_byte(1));
            assert_eq!(server_key, BigUint::from_byte(2));
            assert_eq!(client_key, BigUint::from_byte(3));
            assert_eq!(pin, "123456");
        }
        _ => panic!("a challenge is answered"),
    }
    for (salt, server_key, client_key) in
        [("*", "Ag==", "Aw=="), ("AQ==", "*", "Aw=="), ("AQ==", "Ag==", "*")]
    {
        let error = run(answer("bad", salt, server_key, client_key)).unwrap_err();
        assert_eq!(error.code, Status::InvalidConfig);
        assert_eq!(error.message, "Invalid config payload format.");
    }
    let error = run(answer("12345", "AQ==", "Ag==", "Aw==")).unwrap_err();
    assert_eq!(error.code, Status::InvalidParam);
}

#[test]
fn a_shown_challenge_can_be_answered() {
    let mut session = SRPSession::from_seed(&[1, 2, 3], &[4; 16], true);
    session.update_with_values(SessionValues {
        username: None,
        shared_key: None,
        client_private_key: None,
        salt: Some(BigUint::from_byte(7)),
        server_public_key: Some(BigUint::from_byte(9)),
    });
    let shown = show_challenge(&session);
    let text = |key: &str| shown.get(key).and_then(JsonValue::as_str).unwrap().clone();
    assert_eq!(text("username"), session.username);
    assert_eq!(text("salt"), "Bw==");
    match run(answer("123456", &text("salt"), &text("serverKey"), &text("clientKey"))).unwrap() {
        Task::AnswerChallenge { client_key, server_key, salt, .. } => {
            assert_eq!(client_key, BigUint::from_bytes_be(&[1, 2, 3]));
            assert_eq!(server_key, BigUint::from_byte(9));
            assert_eq!(salt, BigUint::from_byte(7));
        }
        _ => panic!("a challenge is answered"),
    }
    let fresh = show_challenge(&SRPSession::from_seed(&[1], &[4; 16], true));
    assert_eq!(fresh.get("salt"), Some(&JsonValue::text("AA==")));
}

#[test]
fn json_is_printed_where_it_is_asked_for() {
    let status = |global: bool, own: bool| Cli {
        command: Commands::Status(StatusCommand { json: own }),
        json: global,
    };
    assert!(json_output(&status(true, false)));
    assert!(json_output(&status(false, true)));
    assert!(!json_output(&status(false, false)));
    let doctor = Cli {
        command: Commands::Host(HostCommand {
            command: HostSubcommand::Doctor(HostDoctorArgs { json: true }),
        }),
        json: false,
    };
    assert!(json_output(&doctor));
}

#[test]
fn a_url_that_was_put_right_stays_as_it_is() {
    for raw in [" example.com ", "http://a/b?c=://d", "https://\u{fc}.de", "x"] {
        let once = sanitize_url(raw).unwrap();
        assert_eq!(sanitize_url(&once).unwrap(), once);
        assert_eq!(normalize_lookup_url(&once), once);
    }
    assert_eq!(normalize_lookup_url(" example.com "), "http://example.com");
    let error = sanitize_url("mailto://").unwrap_err();
    assert_eq!(error.message, "Invalid URL: 'mailto://'");
    let missing = sanitize_url("\t").unwrap_err();
    assert_eq!(missing.code, Status::InvalidParam);
    assert_eq!(missing.message, "Missing or invalid URL.");
}

#[test]
fn a_url_needs_a_host() {
    let url = || "https://a".to_string();
    assert_eq!(accept_url(url(), Some(Some("a".to_string()))).unwrap(), "https://a");
    assert_eq!(
        accept_url(url(), Some(None)).unwrap_err().message,
        "Invalid URL: 'https://a'"
    );
    assert_eq!(accept_url(url(), None).unwrap_err().code, Status::GenericError);
}

#[test]
fn words_at_the_prompt_name_actions() {
    for word in ["1", " LIST ", "list accounts"] {
        assert!(matches!(ask_pw_action(word).unwrap(), PwAction::List { .. }));
    }
    for word in ["2", "Get", "get password\n"] {
        assert!(matches!(
            ask_pw_action(word).unwrap(),
            PwAction::Get { username: None, .. }
        ));
    }
    for word in ["1", "list", "List OTPs"] {
        assert!(matches!(ask_otp_action(word).unwrap(), OtpAction::List { .. }));
    }
    for word in ["2", "get", "GET OTP"] {
        assert!(matches!(ask_otp_action(word).unwrap(), OtpAction::Get { .. }));
    }
    assert_eq!(ask_pw_action("3").unwrap_err().message, "Invalid action.");
    assert_eq!(ask_otp_action("").unwrap_err().code, Status::InvalidParam);
    assert!(pw_action_of("GET").is_err());
    assert!(otp_action_of("GET").is_err());
}

#[test]
fn modes_are_named_in_any_case() {
    assert_eq!(parse_runtime_mode(" Native ").unwrap(), RuntimeMode::Native);
    assert_eq!(parse_runtime_mode("AUTO").unwrap(), RuntimeMode::Auto);
    assert_eq!(
        parse_runtime_mode("fast").unwrap_err(),
        "runtime mode must be one of auto|native|browser|direct|launchd|disabled."
    );
    assert_eq!(runtime_mode_of("launchd"), Some(RuntimeMode::Launchd));
    assert_eq!(runtime_mode_of("Launchd"), None);
}

#[test]
fn entries_are_printed_as_accounts_and_codes() {
    let payload = Payload {
        status: Status::Success,
        entries: vec![
            json("{\"USR\":\"alice\",\"sites\":[\"https://example.com/\"],\"PWD\":\"hunter2\"}"),
            json("{\"USR\":\"bob\"}"),
            json("{\"other\":1}"),
            json("{\"username\":\"carol\",\"code\":\"111111\",\"domain\":\"example.com\"}"),
        ],
    };
    let printed = json(&print_entries(&payload, true).unwrap());
    assert_eq!(at(&printed, &["ok"]), JsonValue::Bool(true));
    assert_eq!(at(&printed, &["code"]), JsonValue::integer(0));
    assert_eq!(
        at(&printed, &["payload"]),
        json(
            "{\"results\":[{\"username\":\"alice\",\"domain\":\"https://example.com/\",\"password\":\"hunter2\"},\
             {\"username\":\"bob\",\"domain\":\"\",\"password\":\"Not Included\"},\
             {\"username\":\"carol\",\"domain\":\"example.com\",\"code\":\"111111\"}],\"status\":\"ok\"}"
        )
    );
}

#[test]
fn plain_text_is_printed_as_it_is() {
    assert_eq!(print_output(&JsonValue::text("a \"b\""), Status::Success, false), "a \"b\"");
    assert_eq!(print_output(&json("[1,true]"), Status::Success, false), "[1,true]");
    let envelope = json(&print_output(&json("null"), Status::NoResults, true));
    assert_eq!(at(&envelope, &["ok"]), JsonValue::Bool(false));
    assert_eq!(at(&envelope, &["code"]), JsonValue::integer(3));
    assert_eq!(print_status(&json("{}"), false), "{}");
    let error = APWError::new(Status::InvalidParam, "no");
    assert_eq!(print_failure(&error, false), "no");
}
