//! The command line: what a parsed command asks for, how arguments and answers at the prompt are
//! read, and what is printed. Parsing the arguments and the terminal are the caller's.
use crate::bignum::{be_value, BigUint};
use crate::client::lookup_url;
use crate::codec::{base64_bytes, base64_text, bigint_to_base64, read_bigint};
use crate::daemon::DaemonOptions;
use crate::error::{fails, APWError, Result};
use crate::json::{json_text, member_text, to_json_string, Json, JsonValue};
use crate::secrets::texts;
use crate::srp::{SessionModel, SRPSession};
use crate::text::{
    cat, cat3, contains, contains_char, lowercased, occurs_at, occurs_in, owned, str_eq,
    to_lowercase, trim, trim_end_of, trim_start_of, trimmed, white_space,
};
use crate::types::{
    status_code, status_message, status_text, Payload, RuntimeMode, Status,
};
use vstd::prelude::*;
use vstd::utf8::encode_utf8;

verus! {

/// The command line.
#[derive(Debug)]
pub struct Cli {
    pub command: Commands,
    pub json: bool,
}

#[derive(Debug)]
pub enum Commands {
    App(AppCommand),
    Auth(AuthCommand),
    Doctor(DoctorCommand),
    Host(HostCommand),
    Login(LoginCommand),
    Pw(PwCommand),
    Otp(OtpCommand),
    Start(StartCommand),
    Status(StatusCommand),
}

#[derive(Debug)]
pub struct AppCommand {
    pub command: AppSubcommand,
}

#[derive(Debug)]
pub enum AppSubcommand {
    Install,
    Launch,
}

#[derive(Debug)]
pub struct DoctorCommand {}

#[derive(Debug)]
pub struct LoginCommand {
    pub url: String,
}

#[derive(Debug)]
pub struct AuthCommand {
    pub command: Option<AuthSubcommand>,
    pub pin: Option<String>,
}

#[derive(Debug)]
pub enum AuthSubcommand {
    Logout,
    Request,
    Response(AuthResponseArgs),
}

#[derive(Debug)]
pub struct AuthResponseArgs {
    pub pin: String,
    pub salt: String,
    pub server_key: String,
    pub client_key: String,
    pub username: String,
}

#[derive(Debug)]
pub struct HostCommand {
    pub command: HostSubcommand,
}

#[derive(Debug)]
pub enum HostSubcommand {
    Install,
    Doctor(HostDoctorArgs),
    Uninstall,
}

#[derive(Debug)]
pub struct HostDoctorArgs {
    pub json: bool,
}

#[derive(Debug)]
pub struct PwCommand {
    pub action: Option<PwAction>,
}

#[derive(Debug)]
pub enum PwAction {
    Get { url: String, username: Option<String> },
    List { url: String },
}

#[derive(Debug)]
pub struct OtpCommand {
    pub action: Option<OtpAction>,
}

#[derive(Debug)]
pub enum OtpAction {
    Get { url: String },
    List { url: String },
}

#[derive(Debug)]
pub struct StartCommand {
    pub port: u16,
    pub bind: String,
    pub runtime_mode: RuntimeMode,
    pub dry_run: bool,
}

impl Default for StartCommand {
    fn default() -> (r: StartCommand)
        ensures
            r.port == 0,
            r.bind@ == "127.0.0.1"@,
            r.runtime_mode == RuntimeMode::Auto,
            !r.dry_run,
    {
        StartCommand {
            port: 0,
            bind: owned("127.0.0.1"),
            runtime_mode: RuntimeMode::Auto,
            dry_run: false,
        }
    }
}

#[derive(Debug)]
pub struct StatusCommand {
    pub json: bool,
}

/// The long name of an argument.
pub open spec fn long_argument(argument: Seq<char>) -> Seq<char> {
    if argument == "-sk"@ {
        "--serverKey"@
    } else if argument == "-ck"@ {
        "--clientKey"@
    } else {
        argument
    }
}

/// The arguments with two short names put in full.
pub fn normalize_legacy_args(raw: Vec<String>) -> (r: Vec<String>)
    ensures
        texts(r@) == texts(raw@).map_values(|argument: Seq<char>| long_argument(argument)),
{
    let mut out: Vec<String> = Vec::new();
    let mut i: usize = 0;
    while i < raw.len()
        invariant
            i <= raw@.len(),
            out@.len() == i,
            forall|k: int| 0 <= k < i ==> (#[trigger] out@[k])@ == long_argument(raw@[k]@),
        decreases raw.len() - i,
    {
        let argument = raw[i].as_str();
        if str_eq(argument, "-sk") {
            out.push(owned("--serverKey"));
        } else if str_eq(argument, "-ck") {
            out.push(owned("--clientKey"));
        } else {
            out.push(owned(argument));
        }
        i = i + 1;
    }
    proof {
        assert(texts(out@) =~= texts(raw@).map_values(
            |argument: Seq<char>| long_argument(argument),
        ));
    }
    out
}

/// Whether a PIN is six decimal digits.
pub open spec fn valid_pin(pin: Seq<char>) -> bool {
    pin.len() == 6 && forall|i: int| 0 <= i < pin.len() ==> '0' <= #[trigger] pin[i] <= '9'
}

/// A PIN as it was entered, where it is six decimal digits.
pub fn normalize_pin(value: String) -> (r: Result<String>)
    ensures
        if valid_pin(value@) {
            r is Ok && r->Ok_0@ == value@
        } else {
            fails(r, Status::InvalidParam, "PIN must be exactly 6 digits."@)
        },
{
    let chars = crate::text::chars_of(value.as_str());
    let mut digits = chars.len() == 6;
    let mut i: usize = 0;
    while i < chars.len()
        invariant
            chars@ == value@,
            i <= chars@.len(),
            digits == (chars@.len() == 6 && forall|k: int|
                0 <= k < i ==> '0' <= #[trigger] chars@[k] <= '9'),
        decreases chars.len() - i,
    {
        let c = chars[i];
        if !('0' <= c && c <= '9') {
            digits = false;
        }
        i = i + 1;
    }
    if digits {
        Ok(value)
    } else {
        Err(APWError::new(Status::InvalidParam, "PIN must be exactly 6 digits."))
    }
}

/// Whether text can name a host: it is not blank and holds neither a zero character nor a space.
pub open spec fn valid_host(host: Seq<char>) -> bool {
    trimmed(host).len() > 0 && !host.contains('\0') && !host.contains(' ')
}

/// Whether text can name a host.
pub fn is_valid_host(host: &str) -> (r: bool)
    ensures
        r == valid_host(host@),
{
    !trim(host).as_str().is_empty() && !contains_char(host, '\0') && !contains_char(host, ' ')
}

/// What the name of a host comes to.
pub open spec fn host_outcome(raw: Seq<char>) -> std::result::Result<Seq<char>, (Status, Seq<char>)> {
    let host = trimmed(raw);
    if host.len() == 0 {
        Err((Status::InvalidParam, "Missing host."@))
    } else if !valid_host(host) {
        Err((Status::InvalidParam, "Invalid host."@))
    } else {
        Ok(host)
    }
}

/// The name of a host without the white space around it.
pub fn parse_host(raw: &str) -> (r: Result<String>)
    ensures
        match host_outcome(raw@) {
            Ok(host) => r is Ok && r->Ok_0@ == host,
            Err((code, message)) => fails(r, code, message),
        },
{
    let host = trim(raw);
    if host.as_str().is_empty() {
        return Err(APWError::new(Status::InvalidParam, "Missing host."));
    }
    if !is_valid_host(host.as_str()) {
        return Err(APWError::new(Status::InvalidParam, "Invalid host."));
    }
    Ok(host)
}

/// The name of a host without the white space around it, or the complaint.
pub fn parse_host_arg(raw: &str) -> (r: std::result::Result<String, String>)
    ensures
        match host_outcome(raw@) {
            Ok(host) => r is Ok && r->Ok_0@ == host,
            Err((_, message)) => r is Err && r->Err_0@ == message,
        },
{
    match parse_host(raw) {
        Ok(host) => Ok(host),
        Err(error) => Err(error.message),
    }
}

/// The mode that a word names.
pub open spec fn named_mode(word: Seq<char>) -> Option<RuntimeMode> {
    if word == "auto"@ {
        Some(RuntimeMode::Auto)
    } else if word == "native"@ {
        Some(RuntimeMode::Native)
    } else if word == "browser"@ {
        Some(RuntimeMode::Browser)
    } else if word == "direct"@ {
        Some(RuntimeMode::Direct)
    } else if word == "launchd"@ {
        Some(RuntimeMode::Launchd)
    } else if word == "disabled"@ {
        Some(RuntimeMode::Disabled)
    } else {
        None
    }
}

/// The mode that a word names.
pub fn runtime_mode_of(word: &str) -> (r: Option<RuntimeMode>)
    ensures
        r == named_mode(word@),
{
    if str_eq(word, "auto") {
        Some(RuntimeMode::Auto)
    } else if str_eq(word, "native") {
        Some(RuntimeMode::Native)
    } else if str_eq(word, "browser") {
        Some(RuntimeMode::Browser)
    } else if str_eq(word, "direct") {
        Some(RuntimeMode::Direct)
    } else if str_eq(word, "launchd") {
        Some(RuntimeMode::Launchd)
    } else if str_eq(word, "disabled") {
        Some(RuntimeMode::Disabled)
    } else {
        None
    }
}

/// The mode that an argument names, in any case, or the complaint.
pub fn parse_runtime_mode(raw: &str) -> (r: std::result::Result<RuntimeMode, String>)
    ensures
        match named_mode(lowercased(trimmed(raw@))) {
            Some(mode) => r is Ok && r->Ok_0 == mode,
            None => r is Err && r->Err_0@
                == "runtime mode must be one of auto|native|browser|direct|launchd|disabled."@,
        },
{
    let word = to_lowercase(trim(raw).as_str());
    match runtime_mode_of(word.as_str()) {
        Some(mode) => Ok(mode),
        None => Err(
            owned("runtime mode must be one of auto|native|browser|direct|launchd|disabled."),
        ),
    }
}

/// What a URL is for the `url` crate: nothing where it is none, else its host, where it has one.
pub uninterp spec fn url_host(url: Seq<char>) -> Option<Option<Seq<char>>>;

/// The host of an optional host.
pub open spec fn host_text(host: Option<Option<String>>) -> Option<Option<Seq<char>>> {
    match host {
        Some(Some(text)) => Some(Some(text@)),
        Some(None) => Some(None),
        None => None,
    }
}

/// `url::Url::parse`, and `url::Url::host_str` of what it gives: nothing where the text is no
/// absolute URL, else the host, where there is one.
#[verifier::external_body]
fn url_parse(url: &str) -> (r: Option<Option<String>>)
    ensures
        host_text(r) == url_host(url@),
{
    match url::Url::parse(url) {
        Ok(parsed) => Some(parsed.host_str().map(|host| host.to_string())),
        Err(_) => None,
    }
}

/// The URL that is meant: with a scheme in front where it has none.
pub open spec fn url_candidate(raw: Seq<char>) -> Seq<char> {
    let url = trimmed(raw);
    if occurs_in(url, "://"@) {
        url
    } else {
        "https://"@ + url
    }
}

/// Whether a URL has a host.
pub open spec fn has_host(host: Option<Option<Seq<char>>>) -> bool {
    host matches Some(Some(_))
}

/// What a URL comes to, by what the `url` crate makes of it.
pub open spec fn url_outcome(raw: Seq<char>) -> std::result::Result<Seq<char>, (Status, Seq<char>)> {
    if trimmed(raw).len() == 0 {
        Err((Status::InvalidParam, "Missing or invalid URL."@))
    } else if has_host(url_host(url_candidate(raw))) {
        Ok(url_candidate(raw))
    } else {
        Err((Status::GenericError, "Invalid URL: '"@ + url_candidate(raw) + "'"@))
    }
}

/// A URL by the host that was found in it.
pub fn accept_url(candidate: String, host: Option<Option<String>>) -> (r: Result<String>)
    ensures
        if has_host(host_text(host)) {
            r is Ok && r->Ok_0@ == candidate@
        } else {
            fails(r, Status::GenericError, "Invalid URL: '"@ + candidate@ + "'"@)
        },
{
    match host {
        Some(Some(_)) => Ok(candidate),
        _ => Err(
            APWError {
                code: Status::GenericError,
                message: cat3("Invalid URL: '", candidate.as_str(), "'"),
            },
        ),
    }
}

/// The URL that is meant, where it is a URL with a host.
pub fn sanitize_url(raw: &str) -> (r: Result<String>)
    ensures
        match url_outcome(raw@) {
            Ok(url) => r is Ok && r->Ok_0@ == url,
            Err((code, message)) => fails(r, code, message),
        },
{
    let url = trim(raw);
    if url.as_str().is_empty() {
        return Err(APWError::new(Status::InvalidParam, "Missing or invalid URL."));
    }
    let candidate = if contains(url.as_str(), "://") {
        url
    } else {
        cat("https://", url.as_str())
    };
    let host = url_parse(candidate.as_str());
    accept_url(candidate, host)
}

proof fn lemma_trim_start(s: Seq<char>)
    ensures
        ({
            let t = trim_start_of(s);
            &&& t.len() > 0 ==> !white_space(t[0])
            &&& t.len() <= s.len()
        }),
    decreases s.len(),
{
    if s.len() > 0 && white_space(s[0]) {
        lemma_trim_start(s.subrange(1, s.len() as int));
    }
}

proof fn lemma_trim_end(s: Seq<char>)
    ensures
        ({
            let t = trim_end_of(s);
            &&& t.len() > 0 ==> !white_space(t[t.len() - 1]) && t[0] == s[0]
            &&& t.len() <= s.len()
        }),
    decreases s.len(),
{
    if s.len() > 0 && white_space(s[s.len() - 1]) {
        lemma_trim_end(s.subrange(0, s.len() - 1));
    }
}

proof fn lemma_no_margin(s: Seq<char>)
    requires
        s.len() > 0,
        !white_space(s[0]),
        !white_space(s[s.len() - 1]),
    ensures
        trimmed(s) == s,
{
}

/// A URL that was put right is left as it is, both when it is put right again and when it is
/// looked up.
pub proof fn law_sanitized_url_is_kept(raw: Seq<char>)
    requires
        trimmed(raw).len() > 0,
    ensures
        url_candidate(url_candidate(raw)) == url_candidate(raw),
        lookup_url(url_candidate(raw)) == url_candidate(raw),
{
    let url = trimmed(raw);
    let candidate = url_candidate(raw);
    lemma_trim_start(raw);
    lemma_trim_end(trim_start_of(raw));
    reveal_strlit("https://");
    reveal_strlit("://");
    if !occurs_in(url, "://"@) {
        assert(candidate.subrange(5, 8) =~= "://"@);
        assert(occurs_at(candidate, "://"@, 5));
        assert(candidate[0] == 'h');
        assert(candidate[candidate.len() - 1] == url[url.len() - 1]);
    }
    lemma_no_margin(candidate);
}

/// What is asked for at the first prompt of the password command.
pub open spec fn chosen_pw(word: Seq<char>) -> Option<bool> {
    if word == "1"@ || word == "list"@ || word == "list accounts"@ {
        Some(false)
    } else if word == "2"@ || word == "get"@ || word == "get password"@ {
        Some(true)
    } else {
        None
    }
}

/// The action that a word in lower case names.
pub fn pw_action_of(word: &str) -> (r: Result<PwAction>)
    ensures
        match chosen_pw(word@) {
            Some(true) => r matches Ok(PwAction::Get { url, username }) && url@.len() == 0
                && username is None,
            Some(false) => r matches Ok(PwAction::List { url }) && url@.len() == 0,
            None => fails(r, Status::InvalidParam, "Invalid action."@),
        },
{
    if str_eq(word, "1") || str_eq(word, "list") || str_eq(word, "list accounts") {
        Ok(PwAction::List { url: String::new() })
    } else if str_eq(word, "2") || str_eq(word, "get") || str_eq(word, "get password") {
        Ok(PwAction::Get { url: String::new(), username: None })
    } else {
        Err(APWError::new(Status::InvalidParam, "Invalid action."))
    }
}

/// The action that was entered at the first prompt of the password command.
pub fn ask_pw_action(selected: &str) -> (r: Result<PwAction>)
    ensures
        match chosen_pw(lowercased(trimmed(selected@))) {
            Some(true) => r matches Ok(PwAction::Get { url, username }) && url@.len() == 0
                && username is None,
            Some(false) => r matches Ok(PwAction::List { url }) && url@.len() == 0,
            None => fails(r, Status::InvalidParam, "Invalid action."@),
        },
{
    let word = to_lowercase(trim(selected).as_str());
    pw_action_of(word.as_str())
}

/// What is asked for at the first prompt of the one-time code command.
pub open spec fn chosen_otp(word: Seq<char>) -> Option<bool> {
    if word == "1"@ || word == "list"@ || word == "list otps"@ {
        Some(false)
    } else if word == "2"@ || word == "get"@ || word == "get otp"@ {
        Some(true)
    } else {
        None
    }
}

/// The action that a word in lower case names.
pub fn otp_action_of(word: &str) -> (r: Result<OtpAction>)
    ensures
        match chosen_otp(word@) {
            Some(true) => r matches Ok(OtpAction::Get { url }) && url@.len() == 0,
            Some(false) => r matches Ok(OtpAction::List { url }) && url@.len() == 0,
            None => fails(r, Status::InvalidParam, "Invalid action."@),
        },
{
    if str_eq(word, "1") || str_eq(word, "list") || str_eq(word, "list otps") {
        Ok(OtpAction::List { url: String::new() })
    } else if str_eq(word, "2") || str_eq(word, "get") || str_eq(word, "get otp") {
        Ok(OtpAction::Get { url: String::new() })
    } else {
        Err(APWError::new(Status::InvalidParam, "Invalid action."))
    }
}

/// The action that was entered at the first prompt of the one-time code command.
pub fn ask_otp_action(selected: &str) -> (r: Result<OtpAction>)
    ensures
        match chosen_otp(lowercased(trimmed(selected@))) {
            Some(true) => r matches Ok(OtpAction::Get { url }) && url@.len() == 0,
            Some(false) => r matches Ok(OtpAction::List { url }) && url@.len() == 0,
            None => fails(r, Status::InvalidParam, "Invalid action."@),
        },
{
    let word = to_lowercase(trim(selected).as_str());
    otp_action_of(word.as_str())
}

/// What is printed of a payload as JSON.
pub open spec fn output_json(payload: Json, status: Status) -> Json {
    Json::Obj(
        Map::<Seq<char>, Json>::empty().insert("ok"@, Json::Bool(status == Status::Success)).insert(
            "code"@,
            Json::Int(status_code(status) as int),
        ).insert("payload"@, payload),
    )
}

/// Whether text is what is printed of a payload: its envelope where JSON is asked for, else plain
/// text as it is and anything else as JSON.
pub open spec fn prints(text: Seq<char>, payload: Json, status: Status, json_output: bool) -> bool {
    if json_output {
        encode_utf8(text) == json_text(output_json(payload, status))
    } else {
        match payload {
            Json::Str(plain) => text == plain,
            _ => encode_utf8(text) == json_text(payload),
        }
    }
}

/// What is printed of a payload.
pub fn print_output(payload: &JsonValue, status: Status, json_output: bool) -> (r: String)
    ensures
        prints(r@, payload@, status, json_output),
{
    if json_output {
        let success = match status {
            Status::Success => true,
            _ => false,
        };
        let envelope = JsonValue::object().with("ok", JsonValue::Bool(success)).with(
            "code",
            JsonValue::integer(status.code() as i64),
        ).with("payload", payload.copy());
        return to_json_string(&envelope);
    }
    match payload {
        JsonValue::String(text) => owned(text.as_str()),
        _ => to_json_string(payload),
    }
}

/// The text of a member, or the one given where there is no such text.
pub open spec fn text_or(entry: Json, key: Seq<char>, otherwise: Seq<char>) -> Seq<char> {
    match entry.get(key) {
        Some(Json::Str(text)) => text,
        _ => otherwise,
    }
}

/// The first site of an account.
pub open spec fn first_site(entry: Json) -> Seq<char> {
    match entry.get("sites"@) {
        Some(Json::Arr(sites)) => if sites.len() > 0 {
            match sites[0] {
                Json::Str(site) => site,
                _ => Seq::empty(),
            }
        } else {
            Seq::empty()
        },
        _ => Seq::empty(),
    }
}

/// What is shown of an entry: an account, or a one-time code; nothing of any other.
pub open spec fn shown(entry: Json) -> Option<Json> {
    let empty = Map::<Seq<char>, Json>::empty();
    match entry.get("USR"@) {
        Some(Json::Str(username)) => Some(
            Json::Obj(
                empty.insert("username"@, Json::Str(username)).insert(
                    "domain"@,
                    Json::Str(first_site(entry)),
                ).insert("password"@, Json::Str(text_or(entry, "PWD"@, "Not Included"@))),
            ),
        ),
        _ => match entry.get("username"@) {
            Some(Json::Str(username)) => Some(
                Json::Obj(
                    empty.insert("username"@, Json::Str(username)).insert(
                        "domain"@,
                        Json::Str(text_or(entry, "domain"@, Seq::empty())),
                    ).insert("code"@, Json::Str(text_or(entry, "code"@, "Not Included"@))),
                ),
            ),
            _ => None,
        },
    }
}

/// What is shown of the first entries of a list, in their order.
pub open spec fn shown_first(entries: Seq<JsonValue>, count: int) -> Seq<Json>
    decreases count,
{
    if count <= 0 {
        Seq::empty()
    } else {
        match shown(entries[count - 1]@) {
            Some(item) => shown_first(entries, count - 1).push(item),
            None => shown_first(entries, count - 1),
        }
    }
}

/// The list of results.
pub open spec fn results_json(entries: Seq<JsonValue>) -> Json {
    Json::Obj(
        Map::<Seq<char>, Json>::empty().insert(
            "results"@,
            Json::Arr(shown_first(entries, entries.len() as int)),
        ).insert("status"@, Json::Str("ok"@)),
    )
}

fn member_text_or(entry: &JsonValue, key: &str, otherwise: &str) -> (r: String)
    ensures
        r@ == text_or(entry@, key@, otherwise@),
{
    match member_text(entry, key) {
        Some(text) => text,
        None => owned(otherwise),
    }
}

fn read_first_site(entry: &JsonValue) -> (r: String)
    ensures
        r@ == first_site(entry@),
{
    match entry.get("sites") {
        Some(JsonValue::Array(sites)) => {
            if sites.len() > 0 {
                proof {
                    assert(entry@.get("sites"@)->0->Arr_0[0] == sites@[0]@);
                }
                match sites[0].as_str() {
                    Some(site) => owned(site.as_str()),
                    None => String::new(),
                }
            } else {
                String::new()
            }
        },
        _ => String::new(),
    }
}

fn show(entry: &JsonValue) -> (r: Option<JsonValue>)
    ensures
        crate::types::opt_json(r) == shown(entry@),
{
    match member_text(entry, "USR") {
        Some(username) => {
            return Some(
                JsonValue::object().with("username", JsonValue::String(username)).with(
                    "domain",
                    JsonValue::String(read_first_site(entry)),
                ).with("password", JsonValue::String(member_text_or(entry, "PWD", "Not Included"))),
            );
        },
        None => {},
    }
    proof {
        reveal_strlit("");
        assert(""@ =~= Seq::<char>::empty());
    }
    match member_text(entry, "username") {
        Some(username) => Some(
            JsonValue::object().with("username", JsonValue::String(username)).with(
                "domain",
                JsonValue::String(member_text_or(entry, "domain", "")),
            ).with("code", JsonValue::String(member_text_or(entry, "code", "Not Included"))),
        ),
        None => None,
    }
}

/// What is printed of the entries of an answer, where it was a success.
pub fn print_entries(payload: &Payload, json_output: bool) -> (r: Result<String>)
    ensures
        if payload.status == Status::Success {
            r is Ok && prints(
                r->Ok_0@,
                results_json(payload.entries@),
                Status::Success,
                json_output,
            )
        } else {
            fails(r, payload.status, status_message(payload.status))
        },
{
    let success = match payload.status {
        Status::Success => true,
        _ => false,
    };
    if !success {
        return Err(APWError::new(payload.status, status_text(payload.status)));
    }
    let mut results: Vec<JsonValue> = Vec::new();
    let mut i: usize = 0;
    while i < payload.entries.len()
        invariant
            i <= payload.entries@.len(),
            results@.map_values(|item: JsonValue| item@) == shown_first(
                payload.entries@,
                i as int,
            ),
        decreases payload.entries.len() - i,
    {
        match show(&payload.entries[i]) {
            Some(item) => {
                let ghost before = results@;
                results.push(item);
                proof {
                    assert(results@.map_values(|item: JsonValue| item@) =~= before.map_values(
                        |item: JsonValue| item@,
                    ).push(item@));
                }
            },
            None => {},
        }
        i = i + 1;
    }
    let list = JsonValue::Array(results);
    proof {
        assert(list@->Arr_0 =~= results@.map_values(|item: JsonValue| item@));
    }
    let mapped = JsonValue::object().with("results", list).with("status", JsonValue::text("ok"));
    Ok(print_output(&mapped, Status::Success, json_output))
}

/// What is printed of the status report.
pub fn print_status(payload: &JsonValue, json_output: bool) -> (r: String)
    ensures
        prints(r@, payload@, Status::Success, json_output),
{
    print_output(payload, Status::Success, json_output)
}

/// What is printed of an error as JSON.
pub open spec fn error_json(code: Status, message: Seq<char>) -> Json {
    Json::Obj(
        Map::<Seq<char>, Json>::empty().insert("ok"@, Json::Bool(false)).insert(
            "code"@,
            Json::Int(status_code(code) as int),
        ).insert("error"@, Json::Str(message)),
    )
}

/// What is printed of the error that the program ends with.
pub fn print_failure(error: &APWError, json_output: bool) -> (r: String)
    ensures
        if json_output {
            encode_utf8(r@) == json_text(error_json(error.code, error.message@))
        } else {
            r@ == error.message@
        },
{
    if json_output {
        let report = JsonValue::object().with("ok", JsonValue::Bool(false)).with(
            "code",
            JsonValue::integer(error.code.code() as i64),
        ).with("error", JsonValue::text(error.message.as_str()));
        to_json_string(&report)
    } else {
        owned(error.message.as_str())
    }
}

/// What is shown of a session in the middle of its key exchange, so that another run can go on
/// with it.
pub open spec fn challenge_json(session: SessionModel) -> Json {
    let number = |n: Option<nat>|
        match n {
            Some(n) => base64_text(crate::bignum::be_bytes(n)),
            None => base64_text(crate::bignum::be_bytes(0)),
        };
    Json::Obj(
        Map::<Seq<char>, Json>::empty().insert("salt"@, Json::Str(number(session.salt))).insert(
            "serverKey"@,
            Json::Str(number(session.server_public_key)),
        ).insert("username"@, Json::Str(session.username)).insert(
            "clientKey"@,
            Json::Str(number(Some(session.client_private_key))),
        ),
    )
}

fn number_text(n: &Option<BigUint>) -> (r: String)
    ensures
        r@ == match *n {
            Some(n) => base64_text(crate::bignum::be_bytes(n@)),
            None => base64_text(crate::bignum::be_bytes(0)),
        },
        match *n {
            Some(n) => base64_bytes(r@) is Some && be_value(base64_bytes(r@)->0) == n@,
            None => base64_bytes(r@) is Some && be_value(base64_bytes(r@)->0) == 0,
        },
{
    match n {
        Some(n) => bigint_to_base64(n),
        None => bigint_to_base64(&BigUint::zero()),
    }
}

/// Whether a command that goes on with a shown session takes its numbers back.
pub open spec fn shows_numbers(shown: Json, session: SessionModel) -> bool {
    let number = |key: Seq<char>|
        match shown.get(key) {
            Some(Json::Str(text)) => match base64_bytes(text) {
                Some(bytes) => Some(be_value(bytes)),
                None => None,
            },
            _ => None,
        };
    &&& number("clientKey"@) == Some(session.client_private_key)
    &&& session.salt is Some ==> number("salt"@) == session.salt
    &&& session.server_public_key is Some ==> number("serverKey"@) == session.server_public_key
}

/// What is shown of a session in the middle of its key exchange. Its numbers can be read back.
pub fn show_challenge(session: &SRPSession) -> (r: JsonValue)
    ensures
        r@ == challenge_json(session@),
        shows_numbers(r@, session@),
{
    let values = session.return_values();
    let salt = number_text(&values.salt);
    let server_key = number_text(&values.server_public_key);
    let client_key = number_text(&values.client_private_key);
    let r = JsonValue::object().with("salt", JsonValue::String(salt)).with(
        "serverKey",
        JsonValue::String(server_key),
    ).with("username", JsonValue::String(session.name())).with(
        "clientKey",
        JsonValue::String(client_key),
    );
    proof {
        reveal_strlit("salt");
        reveal_strlit("serverKey");
        reveal_strlit("username");
        reveal_strlit("clientKey");
        assert("salt"@.len() == 4 && "username"@.len() == 8);
        assert("serverKey"@[0] == 's' && "clientKey"@[0] == 'c');
        assert(r@ == challenge_json(session@));
    }
    r
}

/// What a command asks for.
#[derive(Debug)]
pub enum Task {
    InstallApp,
    LaunchApp,
    ExamineApp,
    Login { url: String },
    ReportStatus,
    Logout,
    RequestChallenge,
    /// Goes on with a key exchange that another run began.
    AnswerChallenge {
        username: String,
        client_key: BigUint,
        server_key: BigUint,
        salt: BigUint,
        pin: String,
    },
    Authenticate { pin: String },
    /// The PIN is to be asked for first.
    AskPin,
    InstallHost,
    ExamineHost,
    UninstallHost,
    GetPassword { url: String, username: String },
    ListAccounts { url: String },
    /// The action is to be asked for first.
    AskPassword,
    GetCode { url: String },
    ListCodes { url: String },
    /// The action is to be asked for first.
    AskCode,
    Start(DaemonOptions),
}

/// The number that an argument writes.
pub open spec fn argument_number(text: Seq<char>) -> Option<nat> {
    match base64_bytes(text) {
        Some(bytes) => Some(be_value(bytes)),
        None => None,
    }
}

/// Whether a task is the one for a URL, or an error is that of the URL.
pub open spec fn url_task(raw: Seq<char>, r: Result<Task>, task: spec_fn(Task, Seq<char>) -> bool) -> bool {
    match url_outcome(raw) {
        Ok(url) => r is Ok && task(r->Ok_0, url),
        Err((code, message)) => fails(r, code, message),
    }
}

/// Whether a task is what the authentication command asks for.
pub open spec fn auth_task(args: AuthCommand, r: Result<Task>) -> bool {
    match args.command {
        Some(AuthSubcommand::Logout) => r is Ok && r->Ok_0 is Logout,
        Some(AuthSubcommand::Request) => r is Ok && r->Ok_0 is RequestChallenge,
        Some(AuthSubcommand::Response(options)) => {
            let salt = argument_number(options.salt@);
            let server_key = argument_number(options.server_key@);
            let client_key = argument_number(options.client_key@);
            if salt is None || server_key is None || client_key is None {
                fails(r, Status::InvalidConfig, "Invalid config payload format."@)
            } else if !valid_pin(options.pin@) {
                fails(r, Status::InvalidParam, "PIN must be exactly 6 digits."@)
            } else {
                &&& r matches Ok(
                    Task::AnswerChallenge { username, client_key: a, server_key: b, salt: s, pin },
                )
                &&& username@ == options.username@ && pin@ == options.pin@
                &&& Some(a@) == client_key && Some(b@) == server_key && Some(s@) == salt
            }
        },
        None => match args.pin {
            Some(given) => if valid_pin(given@) {
                r matches Ok(Task::Authenticate { pin }) && pin@ == given@
            } else {
                fails(r, Status::InvalidParam, "PIN must be exactly 6 digits."@)
            },
            None => r is Ok && r->Ok_0 is AskPin,
        },
    }
}

/// Whether a task is what a command asks for. URLs, PINs and hosts that are not right are refused
/// here, before anything is sent.
pub open spec fn command_task(command: Commands, r: Result<Task>) -> bool {
    match command {
        Commands::App(args) => match args.command {
            AppSubcommand::Install => r is Ok && r->Ok_0 is InstallApp,
            AppSubcommand::Launch => r is Ok && r->Ok_0 is LaunchApp,
        },
        Commands::Auth(args) => auth_task(args, r),
        Commands::Doctor(_) => r is Ok && r->Ok_0 is ExamineApp,
        Commands::Host(args) => match args.command {
            HostSubcommand::Install => r is Ok && r->Ok_0 is InstallHost,
            HostSubcommand::Doctor(_) => r is Ok && r->Ok_0 is ExamineHost,
            HostSubcommand::Uninstall => r is Ok && r->Ok_0 is UninstallHost,
        },
        Commands::Login(args) => url_task(
            args.url@,
            r,
            |task: Task, url: Seq<char>| task matches Task::Login { url: u } && u@ == url,
        ),
        Commands::Pw(args) => match args.action {
            Some(PwAction::Get { url: raw, username: name }) => url_task(
                raw@,
                r,
                |task: Task, url: Seq<char>|
                    task matches Task::GetPassword { url: u, username } && u@ == url
                        && username@ == match name {
                        Some(name) => name@,
                        None => Seq::empty(),
                    },
            ),
            Some(PwAction::List { url: raw }) => url_task(
                raw@,
                r,
                |task: Task, url: Seq<char>|
                    task matches Task::ListAccounts { url: u } && u@ == url,
            ),
            None => r is Ok && r->Ok_0 is AskPassword,
        },
        Commands::Otp(args) => match args.action {
            Some(OtpAction::Get { url: raw }) => url_task(
                raw@,
                r,
                |task: Task, url: Seq<char>| task matches Task::GetCode { url: u } && u@ == url,
            ),
            Some(OtpAction::List { url: raw }) => url_task(
                raw@,
                r,
                |task: Task, url: Seq<char>| task matches Task::ListCodes { url: u } && u@ == url,
            ),
            None => r is Ok && r->Ok_0 is AskCode,
        },
        Commands::Start(args) => match host_outcome(args.bind@) {
            Ok(host) => {
                &&& r matches Ok(Task::Start(options))
                &&& options.port == args.port && options.host@ == host
                &&& options.runtime_mode == args.runtime_mode && options.dry_run == args.dry_run
            },
            Err((code, message)) => fails(r, code, message),
        },
        Commands::Status(_) => r is Ok && r->Ok_0 is ReportStatus,
    }
}

/// Whether a command prints JSON: where the command line or the command itself asks for it.
pub open spec fn wants_json(cli: Cli) -> bool {
    cli.json || match cli.command {
        Commands::Status(args) => args.json,
        Commands::Host(args) => match args.command {
            HostSubcommand::Doctor(options) => options.json,
            _ => false,
        },
        _ => false,
    }
}

/// Whether a command prints JSON.
pub fn json_output(cli: &Cli) -> (r: bool)
    ensures
        r == wants_json(*cli),
{
    if cli.json {
        return true;
    }
    match &cli.command {
        Commands::Status(args) => args.json,
        Commands::Host(args) => match &args.command {
            HostSubcommand::Doctor(options) => options.json,
            _ => false,
        },
        _ => false,
    }
}

fn run_auth(args: AuthCommand) -> (r: Result<Task>)
    ensures
        auth_task(args, r),
{
    match args.command {
        Some(AuthSubcommand::Logout) => Ok(Task::Logout),
        Some(AuthSubcommand::Request) => Ok(Task::RequestChallenge),
        Some(AuthSubcommand::Response(options)) => {
            let salt = match read_bigint(options.salt.as_str()) {
                Ok(number) => number,
                Err(error) => {
                    return Err(error);
                },
            };
            let server_key = match read_bigint(options.server_key.as_str()) {
                Ok(number) => number,
                Err(error) => {
                    return Err(error);
                },
            };
            let client_key = match read_bigint(options.client_key.as_str()) {
                Ok(number) => number,
                Err(error) => {
                    return Err(error);
                },
            };
            let pin = match normalize_pin(options.pin) {
                Ok(pin) => pin,
                Err(error) => {
                    return Err(error);
                },
            };
            Ok(
                Task::AnswerChallenge {
                    username: options.username,
                    client_key,
                    server_key,
                    salt,
                    pin,
                },
            )
        },
        None => match args.pin {
            Some(pin) => match normalize_pin(pin) {
                Ok(pin) => Ok(Task::Authenticate { pin }),
                Err(error) => Err(error),
            },
            None => Ok(Task::AskPin),
        },
    }
}

fn run_pw(action: Option<PwAction>) -> (r: Result<Task>)
    ensures
        command_task(Commands::Pw(PwCommand { action }), r),
{
    match action {
        Some(PwAction::Get { url, username }) => match sanitize_url(url.as_str()) {
            Ok(url) => {
                let username = match username {
                    Some(name) => name,
                    None => String::new(),
                };
                Ok(Task::GetPassword { url, username })
            },
            Err(error) => Err(error),
        },
        Some(PwAction::List { url }) => match sanitize_url(url.as_str()) {
            Ok(url) => Ok(Task::ListAccounts { url }),
            Err(error) => Err(error),
        },
        None => Ok(Task::AskPassword),
    }
}

fn run_otp(action: Option<OtpAction>) -> (r: Result<Task>)
    ensures
        command_task(Commands::Otp(OtpCommand { action }), r),
{
    match action {
        Some(OtpAction::Get { url }) => match sanitize_url(url.as_str()) {
            Ok(url) => Ok(Task::GetCode { url }),
            Err(error) => Err(error),
        },
        Some(OtpAction::List { url }) => match sanitize_url(url.as_str()) {
            Ok(url) => Ok(Task::ListCodes { url }),
            Err(error) => Err(error),
        },
        None => Ok(Task::AskCode),
    }
}

/// What a command asks for.
pub fn run(cli: Cli) -> (r: Result<Task>)
    ensures
        command_task(cli.command, r),
{
    match cli.command {
        Commands::App(args) => match args.command {
            AppSubcommand::Install => Ok(Task::InstallApp),
            AppSubcommand::Launch => Ok(Task::LaunchApp),
        },
        Commands::Auth(args) => run_auth(args),
        Commands::Doctor(_) => Ok(Task::ExamineApp),
        Commands::Host(args) => match args.command {
            HostSubcommand::Install => Ok(Task::InstallHost),
            HostSubcommand::Doctor(_) => Ok(Task::ExamineHost),
            HostSubcommand::Uninstall => Ok(Task::UninstallHost),
        },
        Commands::Login(args) => match sanitize_url(args.url.as_str()) {
            Ok(url) => Ok(Task::Login { url }),
            Err(error) => Err(error),
        },
        Commands::Pw(args) => run_pw(args.action),
        Commands::Otp(args) => run_otp(args.action),
        Commands::Start(args) => match parse_host(args.bind.as_str()) {
            Ok(host) => Ok(
                Task::Start(
                    DaemonOptions {
                        port: args.port,
                        host,
                        runtime_mode: args.runtime_mode,
                        dry_run: args.dry_run,
                    },
                ),
            ),
            Err(error) => Err(error),
        },
        Commands::Status(_) => Ok(Task::ReportStatus),
    }
}

} // verus!
