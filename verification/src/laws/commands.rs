//! What the command line asks for, and what it prints.
use crate::cli::{
    ask_otp_action, ask_pw_action, json_output, normalize_legacy_args, normalize_pin, parse_host,
    parse_host_arg, parse_runtime_mode, print_entries, print_failure, print_output, print_status,
    results_json, run, sanitize_url, show_challenge, shown, shown_first, url_host, AppCommand,
    AppSubcommand, AuthCommand, AuthResponseArgs, AuthSubcommand, Cli, Commands, HostCommand,
    HostSubcommand, LoginCommand, OtpAction, OtpCommand, PwAction, PwCommand, StartCommand, Task,
};
use crate::error::{fails, APWError, Result};
use crate::json::{json_text, Json, JsonValue};
use crate::laws::config::writes_number;
use crate::laws::names::{
    lemma_challenge_names, lemma_choice_names, lemma_mode_names, lemma_output_names,
};
use crate::laws::words::{mode_text, status_number};
use crate::manager::ApplePasswordManager;
use crate::secrets::texts;
use crate::srp::SRPSession;
use crate::text::{lowercased, occurs_in, trimmed};
use crate::types::{Payload, RuntimeMode, Status};
use vstd::prelude::*;
use vstd::utf8::encode_utf8;

verus! {

/// A URL is taken without the white space around it, behind `https://` where it has no scheme, and
/// only where it has a host.
pub proof fn law_url_is_put_right(raw: &str, r: Result<String>)
    ensures
        call_ensures(sanitize_url, (raw,), r) ==> {
            let meant = if occurs_in(trimmed(raw@), "://"@) {
                trimmed(raw@)
            } else {
                "https://"@ + trimmed(raw@)
            };
            &&& r matches Ok(url) ==> url@ == meant
            &&& r is Ok <==> trimmed(raw@).len() > 0 && url_host(meant) is Some && url_host(
                meant,
            )->0 is Some
            &&& trimmed(raw@).len() == 0 ==> fails(
                r,
                Status::InvalidParam,
                "Missing or invalid URL."@,
            )
        },
{
}

/// Whether a command for a URL comes to a task: for the URL that is meant, or the error of it.
pub open spec fn for_url(r: Result<Task>, url: Result<String>, task: spec_fn(Task, Seq<char>) -> bool) -> bool {
    match url {
        Ok(meant) => r is Ok && task(r->Ok_0, meant@),
        Err(error) => fails(r, error.code, error.message@),
    }
}

/// Asking for a password asks for the given account at the given site, and for no account in
/// particular where none is given. Asking for a list asks for that of the given site.
pub proof fn law_password_command(
    given: String,
    username: Option<String>,
    json: bool,
    raw: &str,
    url: Result<String>,
    get: Result<Task>,
    list: Result<Task>,
)
    ensures
        call_ensures(sanitize_url, (raw,), url) && raw@ == given@ ==> {
            &&& call_ensures(
                run,
                (
                    Cli {
                        command: Commands::Pw(
                            PwCommand { action: Some(PwAction::Get { url: given, username }) },
                        ),
                        json,
                    },
                ),
                get,
            ) ==> for_url(
                get,
                url,
                |task: Task, meant: Seq<char>|
                    task matches Task::GetPassword { url: asked, username: name } && asked@ == meant
                        && name@ == match username {
                        Some(username) => username@,
                        None => Seq::empty(),
                    },
            )
            &&& call_ensures(
                run,
                (
                    Cli {
                        command: Commands::Pw(
                            PwCommand { action: Some(PwAction::List { url: given }) },
                        ),
                        json,
                    },
                ),
                list,
            ) ==> for_url(
                list,
                url,
                |task: Task, meant: Seq<char>|
                    task matches Task::ListAccounts { url: asked } && asked@ == meant,
            )
        },
{
}

/// Asking for a one-time code, or for a list of those that have one, asks for the given site.
pub proof fn law_code_command(
    given: String,
    json: bool,
    raw: &str,
    url: Result<String>,
    get: Result<Task>,
    list: Result<Task>,
)
    ensures
        call_ensures(sanitize_url, (raw,), url) && raw@ == given@ ==> {
            &&& call_ensures(
                run,
                (
                    Cli {
                        command: Commands::Otp(
                            OtpCommand { action: Some(OtpAction::Get { url: given }) },
                        ),
                        json,
                    },
                ),
                get,
            ) ==> for_url(
                get,
                url,
                |task: Task, meant: Seq<char>|
                    task matches Task::GetCode { url: asked } && asked@ == meant,
            )
            &&& call_ensures(
                run,
                (
                    Cli {
                        command: Commands::Otp(
                            OtpCommand { action: Some(OtpAction::List { url: given }) },
                        ),
                        json,
                    },
                ),
                list,
            ) ==> for_url(
                list,
                url,
                |task: Task, meant: Seq<char>|
                    task matches Task::ListCodes { url: asked } && asked@ == meant,
            )
        },
{
}

/// Logging in asks for the given site.
pub proof fn law_login_command(
    given: String,
    json: bool,
    raw: &str,
    url: Result<String>,
    r: Result<Task>,
)
    ensures
        call_ensures(sanitize_url, (raw,), url) && raw@ == given@ && call_ensures(
            run,
            (Cli { command: Commands::Login(LoginCommand { url: given }), json },),
            r,
        ) ==> for_url(
            r,
            url,
            |task: Task, meant: Seq<char>|
                task matches Task::Login { url: asked } && asked@ == meant,
        ),
{
}

/// A PIN is six decimal digits, and is taken as it is.
pub proof fn law_pin_is_six_digits(value: String, r: Result<String>)
    ensures
        call_ensures(normalize_pin, (value,), r) ==> {
            &&& r matches Ok(pin) ==> pin@ == value@
            &&& r is Ok <==> value@.len() == 6 && forall|i: int|
                0 <= i < 6 ==> 48 <= #[trigger] value@[i] as int <= 57
        },
{
    if call_ensures(normalize_pin, (value,), r) && value@.len() == 6 {
        if forall|i: int| 0 <= i < 6 ==> 48 <= #[trigger] value@[i] as int <= 57 {
            assert forall|i: int| 0 <= i < value@.len() implies '0' <= #[trigger] value@[i] <= '9' by {
                assert(48 <= value@[i] as int <= 57);
            }
        }
    }
}

/// Authenticating with a PIN that is right in form is done with that PIN; with any other it is
/// refused.
pub proof fn law_auth_command_uses_the_pin(given: String, json: bool, r: Result<Task>)
    ensures
        call_ensures(
            run,
            (Cli { command: Commands::Auth(AuthCommand { command: None, pin: Some(given) }), json },),
            r,
        ) ==> {
            &&& r matches Ok(task) ==> (task matches Task::Authenticate { pin } && pin@ == given@)
            &&& r is Ok <==> given@.len() == 6 && forall|i: int|
                0 <= i < 6 ==> 48 <= #[trigger] given@[i] as int <= 57
            &&& r is Err ==> fails(r, Status::InvalidParam, "PIN must be exactly 6 digits."@)
        },
{
    if given@.len() == 6 {
        if forall|i: int| 0 <= i < 6 ==> 48 <= #[trigger] given@[i] as int <= 57 {
            assert forall|i: int| 0 <= i < given@.len() implies '0' <= #[trigger] given@[i] <= '9' by {
                assert(48 <= given@[i] as int <= 57);
            }
        }
    }
}

/// Starting the daemon uses the port, the mode and the address that are given.
pub proof fn law_start_command(
    args: StartCommand,
    json: bool,
    raw: &str,
    host: Result<String>,
    r: Result<Task>,
)
    ensures
        call_ensures(parse_host, (raw,), host) && raw@ == args.bind@ && call_ensures(
            run,
            (Cli { command: Commands::Start(args), json },),
            r,
        ) ==> match host {
            Ok(host) => {
                &&& r matches Ok(Task::Start(options))
                &&& options.port == args.port
                &&& options.host@ == host@
                &&& options.runtime_mode == args.runtime_mode
                &&& options.dry_run == args.dry_run
            },
            Err(error) => fails(r, error.code, error.message@),
        },
{
}

/// The name of a host is taken without the white space around it, unless that leaves nothing or
/// there is a space or a null character in it.
pub proof fn law_host_is_trimmed(
    raw: &str,
    r: Result<String>,
    argument: std::result::Result<String, String>,
)
    ensures
        call_ensures(parse_host, (raw,), r) && call_ensures(parse_host_arg, (raw,), argument) ==> {
            let host = trimmed(raw@);
            &&& r matches Ok(name) ==> name@ == host
            &&& r is Ok <==> host.len() > 0 && trimmed(host).len() > 0 && !host.contains('\0')
                && !host.contains(' ')
            &&& match r {
                Ok(name) => argument is Ok && argument->Ok_0@ == name@,
                Err(error) => argument is Err && argument->Err_0@ == error.message@,
            }
        },
{
}

/// Every command that takes nothing asks for what it is called.
pub proof fn law_plain_commands(json: bool, r: Result<Task>)
    ensures
        call_ensures(
            run,
            (
                Cli {
                    command: Commands::App(AppCommand { command: AppSubcommand::Install }),
                    json,
                },
            ),
            r,
        ) ==> r is Ok && r->Ok_0 is InstallApp,
        call_ensures(
            run,
            (Cli { command: Commands::App(AppCommand { command: AppSubcommand::Launch }), json },),
            r,
        ) ==> r is Ok && r->Ok_0 is LaunchApp,
        call_ensures(
            run,
            (
                Cli {
                    command: Commands::Auth(
                        AuthCommand { command: Some(AuthSubcommand::Logout), pin: None },
                    ),
                    json,
                },
            ),
            r,
        ) ==> r is Ok && r->Ok_0 is Logout,
        call_ensures(
            run,
            (
                Cli {
                    command: Commands::Auth(
                        AuthCommand { command: Some(AuthSubcommand::Request), pin: None },
                    ),
                    json,
                },
            ),
            r,
        ) ==> r is Ok && r->Ok_0 is RequestChallenge,
        call_ensures(
            run,
            (Cli { command: Commands::Auth(AuthCommand { command: None, pin: None }), json },),
            r,
        ) ==> r is Ok && r->Ok_0 is AskPin,
        call_ensures(
            run,
            (
                Cli {
                    command: Commands::Host(HostCommand { command: HostSubcommand::Install }),
                    json,
                },
            ),
            r,
        ) ==> r is Ok && r->Ok_0 is InstallHost,
        call_ensures(
            run,
            (
                Cli {
                    command: Commands::Host(HostCommand { command: HostSubcommand::Uninstall }),
                    json,
                },
            ),
            r,
        ) ==> r is Ok && r->Ok_0 is UninstallHost,
{
}

/// A mode is named by its word, in letters of either case.
pub proof fn law_mode_argument(raw: &str, mode: RuntimeMode, r: std::result::Result<RuntimeMode, String>)
    ensures
        call_ensures(parse_runtime_mode, (raw,), r) ==> {
            &&& lowercased(trimmed(raw@)) == mode_text(mode) ==> r is Ok && r->Ok_0 == mode
            &&& r matches Ok(named) ==> lowercased(trimmed(raw@)) == mode_text(named)
        },
{
    lemma_mode_names();
}

/// What is shown in the middle of a key exchange is enough for another run to go on with it: the
/// user, the private key, the server's key and the salt are the same there.
pub proof fn law_shown_challenge_is_gone_on_with(
    session: &SRPSession,
    shown: JsonValue,
    args: AuthResponseArgs,
    json: bool,
    task: Result<Task>,
    manager: &mut ApplePasswordManager,
)
    ensures
        call_ensures(show_challenge, (session,), shown) && session@.salt is Some
            && session@.server_public_key is Some && shown@.get("salt"@) == Some(
            Json::Str(args.salt@),
        ) && shown@.get("serverKey"@) == Some(Json::Str(args.server_key@)) && shown@.get(
            "clientKey"@,
        ) == Some(Json::Str(args.client_key@)) && shown@.get("username"@) == Some(
            Json::Str(args.username@),
        ) && call_ensures(
            run,
            (
                Cli {
                    command: Commands::Auth(
                        AuthCommand { command: Some(AuthSubcommand::Response(args)), pin: None },
                    ),
                    json,
                },
            ),
            task,
        ) && task is Ok ==> (task->Ok_0 matches Task::AnswerChallenge {
            username,
            client_key,
            server_key,
            salt,
            pin,
        } && pin@ == args.pin@ && (call_ensures(
            ApplePasswordManager::set_session_for_response,
            (manager, username, client_key, server_key, salt),
            (),
        ) ==> {
            &&& final(manager)@.session.username == session@.username
            &&& final(manager)@.session.client_private_key == session@.client_private_key
            &&& final(manager)@.session.server_public_key == session@.server_public_key
            &&& final(manager)@.session.salt == session@.salt
        })),
{
    lemma_challenge_names();
}

/// What is shown in the middle of a key exchange names the session.
pub proof fn law_challenge_names_the_session(session: &SRPSession, shown: JsonValue)
    ensures
        call_ensures(show_challenge, (session,), shown) ==> {
            &&& shown@.get("username"@) == Some(Json::Str(session@.username))
            &&& shown@.get("clientKey"@) matches Some(Json::Str(text)) && writes_number(
                text,
                session@.client_private_key,
            )
            &&& session@.salt is Some ==> (shown@.get("salt"@) matches Some(Json::Str(text))
                && writes_number(text, session@.salt->0))
            &&& session@.server_public_key is Some ==> (shown@.get("serverKey"@) matches Some(
                Json::Str(text),
            ) && writes_number(text, session@.server_public_key->0))
        },
{
    lemma_challenge_names();
}

/// The two short names of arguments are put in full, and every other argument is left as it is.
pub proof fn law_short_arguments(raw: Vec<String>, r: Vec<String>)
    ensures
        call_ensures(normalize_legacy_args, (raw,), r) ==> {
            &&& r@.len() == raw@.len()
            &&& forall|i: int|
                0 <= i < raw@.len() ==> (#[trigger] r@[i])@ == if raw@[i]@ == "-sk"@ {
                    "--serverKey"@
                } else if raw@[i]@ == "-ck"@ {
                    "--clientKey"@
                } else {
                    raw@[i]@
                }
        },
{
    if call_ensures(normalize_legacy_args, (raw,), r) {
        assert(texts(r@).len() == r@.len());
        assert(texts(raw@).len() == raw@.len());
        assert forall|i: int| 0 <= i < raw@.len() implies (#[trigger] r@[i])@ == crate::cli::long_argument(
            raw@[i]@,
        ) by {
            assert(texts(r@)[i] == r@[i]@);
            assert(texts(raw@)[i] == raw@[i]@);
        }
    }
}

/// Whether text is the JSON text of a value.
pub open spec fn is_text_of(text: Seq<char>, value: Json) -> bool {
    encode_utf8(text) == json_text(value)
}

/// Whether a value is the envelope that a payload is printed in.
pub open spec fn output_envelope(envelope: Json, payload: Json, status: Status) -> bool {
    &&& envelope.get("ok"@) == Some(Json::Bool(status == Status::Success))
    &&& envelope.get("code"@) == Some(Json::Int(status_number(status)))
    &&& envelope.get("payload"@) == Some(payload)
}

/// Where JSON is asked for, a payload is printed in an envelope with the number of its status; else
/// text is printed as it is, and anything else as JSON.
pub proof fn law_output(payload: &JsonValue, status: Status, r: String, plain: String)
    ensures
        call_ensures(print_output, (payload, status, true), r) ==> exists|envelope: Json| #[trigger]
            is_text_of(r@, envelope) && output_envelope(envelope, payload@, status),
        call_ensures(print_output, (payload, status, false), plain) ==> match payload@ {
            Json::Str(text) => plain@ == text,
            _ => is_text_of(plain@, payload@),
        },
{
    lemma_output_names();
    assert(is_text_of(r@, crate::cli::output_json(payload@, status)) == (encode_utf8(r@)
        == json_text(crate::cli::output_json(payload@, status))));
}

/// The status report is printed as a success.
pub proof fn law_status_output(payload: &JsonValue, r: String)
    ensures
        call_ensures(print_status, (payload, true), r) ==> exists|envelope: Json| #[trigger]
            is_text_of(r@, envelope) && output_envelope(envelope, payload@, Status::Success),
{
    lemma_output_names();
    assert(is_text_of(r@, crate::cli::output_json(payload@, Status::Success)) == (encode_utf8(r@)
        == json_text(crate::cli::output_json(payload@, Status::Success))));
}

/// The error that the program ends with is printed with its number and its message where JSON is
/// asked for, else the message alone.
pub proof fn law_failure_output(error: &APWError, r: String, plain: String)
    ensures
        call_ensures(print_failure, (error, true), r) ==> exists|envelope: Json| #[trigger]
            is_text_of(r@, envelope) && {
                &&& envelope.get("ok"@) == Some(Json::Bool(false))
                &&& envelope.get("code"@) == Some(Json::Int(status_number(error.code)))
                &&& envelope.get("error"@) == Some(Json::Str(error.message@))
            },
        call_ensures(print_failure, (error, false), plain) ==> plain@ == error.message@,
{
    lemma_output_names();
    let printed = crate::cli::error_json(error.code, error.message@);
    assert(is_text_of(r@, printed) == (encode_utf8(r@) == json_text(printed)));
}

/// Whether an entry is an account of the helper.
pub open spec fn is_account(entry: Json) -> bool {
    entry.get("USR"@) matches Some(Json::Str(_))
}

/// Whether an entry is a one-time code of the helper.
pub open spec fn is_code(entry: Json) -> bool {
    &&& entry.get("USR"@) is None
    &&& entry.get("username"@) matches Some(Json::Str(_))
}

/// Whether a line shows an account: its user, its first site, and its password where there is one.
pub open spec fn shows_account(line: Json, entry: Json) -> bool {
    &&& line.get("username"@) == entry.get("USR"@)
    &&& entry.get("PWD"@) matches Some(Json::Str(password)) ==> line.get("password"@) == Some(
        Json::Str(password),
    )
    &&& entry.get("PWD"@) is None ==> line.get("password"@) == Some(Json::Str("Not Included"@))
    &&& entry.get("sites"@) matches Some(Json::Arr(sites)) ==> (sites.len() > 0 && sites[0] is Str
        ==> line.get("domain"@) == Some(sites[0]))
}

/// Whether a line shows a one-time code: its user, its domain, and the code where there is one.
pub open spec fn shows_code(line: Json, entry: Json) -> bool {
    &&& line.get("username"@) == entry.get("username"@)
    &&& entry.get("code"@) matches Some(Json::Str(code)) ==> line.get("code"@) == Some(
        Json::Str(code),
    )
    &&& entry.get("code"@) is None ==> line.get("code"@) == Some(Json::Str("Not Included"@))
    &&& entry.get("domain"@) matches Some(Json::Str(domain)) ==> line.get("domain"@) == Some(
        Json::Str(domain),
    )
}

proof fn lemma_shown(entry: Json)
    ensures
        is_account(entry) ==> shown(entry) is Some && shows_account(shown(entry)->0, entry),
        is_code(entry) ==> shown(entry) is Some && shows_code(shown(entry)->0, entry),
        !is_account(entry) && !(entry.get("username"@) matches Some(Json::Str(_))) ==> shown(
            entry,
        ) is None,
{
    lemma_output_names();
    reveal_strlit("USR");
    reveal_strlit("PWD");
    reveal_strlit("sites");
    reveal_strlit("Not Included");
}

proof fn lemma_all_shown(entries: Seq<JsonValue>, count: int)
    requires
        0 <= count <= entries.len(),
        forall|i: int| 0 <= i < count ==> shown((#[trigger] entries[i])@) is Some,
    ensures
        shown_first(entries, count).len() == count,
        forall|i: int|
            0 <= i < count ==> (#[trigger] shown_first(entries, count)[i]) == shown(entries[i]@)->0,
    decreases count,
{
    if count > 0 {
        lemma_all_shown(entries, count - 1);
        assert(shown(entries[count - 1]@) is Some);
    }
}

/// Whether a value has a line for each entry, in their order.
pub open spec fn has_lines(value: Json, entries: Seq<JsonValue>) -> bool {
    &&& value.get("status"@) == Some(Json::Str("ok"@))
    &&& value.get("results"@) matches Some(Json::Arr(lines)) && {
        &&& lines.len() == entries.len()
        &&& forall|i: int|
            0 <= i < lines.len() ==> {
                &&& is_account(entries[i]@) ==> shows_account(#[trigger] lines[i], entries[i]@)
                &&& is_code(entries[i]@) ==> shows_code(lines[i], entries[i]@)
            }
    }
}

/// The entries of a successful answer are printed one by one, in their order: of an account the
/// user, the site and the password, of a one-time code the user, the domain and the code. An answer
/// that is no success is the error.
pub proof fn law_entries_are_printed(payload: &Payload, r: Result<String>, plain: Result<String>)
    ensures
        call_ensures(print_entries, (payload, true), r) && call_ensures(
            print_entries,
            (payload, false),
            plain,
        ) ==> {
            &&& r is Ok <==> payload.status == Status::Success
            &&& plain is Ok <==> payload.status == Status::Success
            &&& r matches Err(error) ==> error.code == payload.status
            &&& r is Ok && (forall|i: int|
                0 <= i < payload.entries@.len() ==> is_account((#[trigger] payload.entries@[i])@)
                    || is_code(payload.entries@[i]@)) ==> {
                &&& exists|envelope: Json| #[trigger]
                    is_text_of(r->Ok_0@, envelope) && envelope.get("ok"@) == Some(Json::Bool(true))
                        && envelope.get("code"@) == Some(Json::Int(0)) && envelope.get(
                        "payload"@,
                    ) is Some && has_lines(envelope.get("payload"@)->0, payload.entries@)
                &&& exists|value: Json| #[trigger]
                    is_text_of(plain->Ok_0@, value) && has_lines(value, payload.entries@)
            }
        },
{
    lemma_output_names();
    let entries = payload.entries@;
    if call_ensures(print_entries, (payload, true), r) && call_ensures(
        print_entries,
        (payload, false),
        plain,
    ) && r is Ok && (forall|i: int|
        0 <= i < entries.len() ==> is_account((#[trigger] entries[i])@) || is_code(entries[i]@)) {
        assert forall|i: int| 0 <= i < entries.len() implies shown((#[trigger] entries[i])@) is Some by {
            lemma_shown(entries[i]@);
        }
        lemma_all_shown(entries, entries.len() as int);
        let value = results_json(entries);
        let lines = shown_first(entries, entries.len() as int);
        assert forall|i: int| 0 <= i < lines.len() implies {
            &&& is_account(entries[i]@) ==> shows_account(#[trigger] lines[i], entries[i]@)
            &&& is_code(entries[i]@) ==> shows_code(lines[i], entries[i]@)
        } by {
            lemma_shown(entries[i]@);
        }
        assert(has_lines(value, entries));
        let envelope = crate::cli::output_json(value, Status::Success);
        assert(is_text_of(r->Ok_0@, envelope));
        assert(envelope.get("payload"@) == Some(value));
        assert(is_text_of(plain->Ok_0@, value));
    }
}

/// What is chosen at a prompt is the action of its number or its name.
pub proof fn law_prompt_choices(
    selected: &str,
    password: Result<PwAction>,
    code: Result<OtpAction>,
)
    ensures
        call_ensures(ask_pw_action, (selected,), password) ==> {
            let word = lowercased(trimmed(selected@));
            &&& word == "1"@ || word == "list"@ ==> password is Ok && password->Ok_0 is List
            &&& word == "2"@ || word == "get"@ ==> password is Ok && password->Ok_0 is Get
        },
        call_ensures(ask_otp_action, (selected,), code) ==> {
            let word = lowercased(trimmed(selected@));
            &&& word == "1"@ || word == "list"@ ==> code is Ok && code->Ok_0 is List
            &&& word == "2"@ || word == "get"@ ==> code is Ok && code->Ok_0 is Get
        },
{
    lemma_choice_names();
}

/// JSON is printed where the command line asks for it, and by no command that takes no such option
/// of its own where it does not.
pub proof fn law_json_is_printed_where_asked(cli: &Cli, r: bool)
    ensures
        call_ensures(json_output, (cli,), r) ==> {
            &&& cli.json ==> r
            &&& cli.command matches Commands::Status(args) ==> r == (cli.json || args.json)
            &&& !cli.json && !(cli.command is Status) && !(cli.command is Host) ==> !r
        },
{
}

} // verus!
