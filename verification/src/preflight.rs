//! Whether the helper can be launched on this machine, and what to tell the operator where it
//! cannot. What is found on the machine is the caller's to find out.
use crate::error::{fails, APWError, Result};
use crate::host::{
    host_failure, host_note, host_report, native_host_failure_message,
    native_host_preflight_status, native_host_status_note, platform_json, platform_value,
    HostEnvironment,
};
use crate::json::{json_parsed, parse_json, text_or_null, Json, JsonValue};
use crate::secrets::texts;
use crate::text::{
    before_first, begins_with, cat, cat3, contains, contains_char, occurs_in, opt_text, owned,
    parse_u32, small_number_of, str_eq, text_before, trim, trimmed,
};
use crate::types::{mode_word, ManifestConfig, RuntimeMode, Status};
use vstd::prelude::*;
use vstd::utf8::encode_utf8;

verus! {

pub const FIREFOX_MANIFEST: &'static str =
    "/Library/Application Support/Mozilla/NativeMessagingHosts/com.apple.passwordmanager.json";

pub const CHROME_MANIFEST: &'static str =
    "/Library/Google/Chrome/NativeMessagingHosts/com.apple.passwordmanager.json";

pub const MANIFEST_NOT_FOUND: &'static str =
    "APW Helper manifest not found. You must be running macOS 14+.";

pub const MANIFEST_MALFORMED: &'static str = "Malformed helper manifest.";

pub const MANIFEST_UNREADABLE: &'static str = "Malformed helper manifest JSON.";

pub const UNEXPECTED_BINARY: &'static str = "Unexpected helper binary path.";

pub const BINARY_NOT_EXECUTABLE: &'static str = "Cannot execute helper binary.";

pub const MANIFEST_UNSUPPORTED: &'static str = "APW Helper manifest unsupported outside of macOS.";

/// What is found of the helper's manifest: the first of the searched paths that exists, its
/// content where it could be read, and whether the binary that it names can be executed.
#[derive(Debug)]
pub struct ManifestFinding {
    pub path: Option<String>,
    pub content: Option<String>,
    pub binary_executable: bool,
}

/// What is found on the machine.
#[derive(Debug)]
pub struct PreflightEnvironment {
    pub on_macos: bool,
    pub os: String,
    pub arch: String,
    pub macos_major_version: Option<u32>,
    pub host: HostEnvironment,
    pub manifest: ManifestFinding,
}

/// The major version in the text of a version: the number in front of the first dot.
pub open spec fn major_of(text: Seq<char>) -> Option<u32> {
    let version = trimmed(text);
    small_number_of(
        match before_first(version, "."@) {
            Some(major) => major,
            None => version,
        },
    )
}

/// The major version in the text of a version.
pub fn parse_major_version(text: &str) -> (r: Option<u32>)
    ensures
        r == major_of(text@),
{
    let version = trim(text);
    match text_before(version.as_str(), ".") {
        Some(major) => parse_u32(major.as_str()),
        None => parse_u32(version.as_str()),
    }
}

/// The major version that is set in place of the machine's own: the override, else the number in
/// the environment.
pub open spec fn configured_major(
    override_value: Option<u32>,
    variable: Option<Seq<char>>,
) -> Option<u32> {
    match override_value {
        Some(value) => Some(value),
        None => match variable {
            Some(text) => small_number_of(trimmed(text)),
            None => None,
        },
    }
}

/// The major version that is set in place of the machine's own.
pub fn configured_macos_major_version(
    override_value: Option<u32>,
    variable: &Option<String>,
) -> (r: Option<u32>)
    ensures
        r == configured_major(override_value, opt_text(*variable)),
{
    match override_value {
        Some(value) => Some(value),
        None => match variable {
            Some(text) => parse_u32(trim(text.as_str()).as_str()),
            None => None,
        },
    }
}

/// Sets or lifts the override of the major version.
pub fn set_macos_major_override_for_tests(override_value: &mut Option<u32>, value: Option<u32>)
    ensures
        *final(override_value) == value,
{
    *override_value = value;
}

/// The major version of macOS: what is set, else on macOS what the system reports.
pub fn current_macos_major_version(
    configured: Option<u32>,
    on_macos: bool,
    reported: &Option<String>,
) -> (r: Option<u32>)
    ensures
        r == match configured {
            Some(value) => Some(value),
            None => if on_macos && reported is Some {
                major_of(reported->0@)
            } else {
                None
            },
        },
{
    match configured {
        Some(value) => Some(value),
        None => if on_macos {
            match reported {
                Some(text) => parse_major_version(text.as_str()),
                None => None,
            }
        } else {
            None
        },
    }
}

/// The mode that is meant: `Auto` is `Native` from macOS 26 on.
pub open spec fn resolved_mode(mode: RuntimeMode, major: Option<u32>) -> RuntimeMode {
    if mode == RuntimeMode::Auto && major is Some && major->0 >= 26 {
        RuntimeMode::Native
    } else {
        mode
    }
}

/// The mode that is meant.
pub fn resolve_runtime_mode(mode: RuntimeMode, major: Option<u32>) -> (r: RuntimeMode)
    ensures
        r == resolved_mode(mode, major),
{
    match mode {
        RuntimeMode::Auto => match major {
            Some(major) => if major >= 26 {
                RuntimeMode::Native
            } else {
                mode
            },
            None => mode,
        },
        _ => mode,
    }
}

/// Resolving a mode twice is resolving it once.
pub proof fn law_resolve_is_stable(mode: RuntimeMode, major: Option<u32>)
    ensures
        resolved_mode(resolved_mode(mode, major), major) == resolved_mode(mode, major),
        mode != RuntimeMode::Auto ==> resolved_mode(mode, major) == mode,
{
}

/// A way to launch the helper.
#[derive(Debug, Clone, Copy, PartialEq, Eq, Structural)]
pub enum HelperBackend {
    Direct,
    LaunchdCompatible,
}

/// The word for a way to launch the helper.
pub open spec fn strategy_word(backend: HelperBackend) -> Seq<char> {
    match backend {
        HelperBackend::Direct => "direct"@,
        HelperBackend::LaunchdCompatible => "launchd_compatible"@,
    }
}

impl HelperBackend {
    /// The word for this way to launch the helper.
    pub fn strategy(self) -> (r: &'static str)
        ensures
            r@ == strategy_word(self),
    {
        match self {
            HelperBackend::Direct => "direct",
            HelperBackend::LaunchdCompatible => "launchd_compatible",
        }
    }
}

/// The ways to launch the helper in a mode, in the order in which they are tried.
pub open spec fn backends(mode: RuntimeMode) -> Seq<HelperBackend> {
    match mode {
        RuntimeMode::Direct => seq![HelperBackend::Direct],
        RuntimeMode::Launchd => seq![HelperBackend::LaunchdCompatible],
        RuntimeMode::Auto => seq![HelperBackend::Direct, HelperBackend::LaunchdCompatible],
        _ => Seq::empty(),
    }
}

/// The ways to launch the helper in a mode, in the order in which they are tried.
pub fn backend_selection(mode: RuntimeMode) -> (r: Vec<HelperBackend>)
    ensures
        r@ == backends(mode),
{
    let mut list: Vec<HelperBackend> = Vec::new();
    match mode {
        RuntimeMode::Direct => {
            list.push(HelperBackend::Direct);
        },
        RuntimeMode::Launchd => {
            list.push(HelperBackend::LaunchdCompatible);
        },
        RuntimeMode::Auto => {
            list.push(HelperBackend::Direct);
            list.push(HelperBackend::LaunchdCompatible);
        },
        _ => {},
    }
    proof {
        assert(list@ =~= backends(mode));
    }
    list
}

/// The words for the ways to reach the password store in a mode.
pub open spec fn strategies(mode: RuntimeMode) -> Seq<Seq<char>> {
    match mode {
        RuntimeMode::Native => seq!["native_host"@],
        RuntimeMode::Browser => seq!["browser_bridge"@],
        RuntimeMode::Disabled => Seq::empty(),
        _ => Seq::new(backends(mode).len(), |i: int| strategy_word(backends(mode)[i])),
    }
}

/// The words for the ways to reach the password store in a mode.
pub fn launch_strategy_labels(mode: RuntimeMode) -> (r: Vec<String>)
    ensures
        texts(r@) == strategies(mode),
{
    let mut labels: Vec<String> = Vec::new();
    match mode {
        RuntimeMode::Native => {
            labels.push(owned("native_host"));
        },
        RuntimeMode::Browser => {
            labels.push(owned("browser_bridge"));
        },
        RuntimeMode::Disabled => {},
        _ => {
            let list = backend_selection(mode);
            let mut i: usize = 0;
            while i < list.len()
                invariant
                    i <= list.len(),
                    list@ == backends(mode),
                    labels@.len() == i,
                    forall|k: int| 0 <= k < i ==> (#[trigger] labels@[k])@ == strategy_word(list@[k]),
                decreases list.len() - i,
            {
                labels.push(owned(list[i].strategy()));
                i = i + 1;
            }
        },
    }
    proof {
        assert(texts(labels@) =~= strategies(mode));
    }
    labels
}

/// A list of texts as a value.
pub open spec fn texts_json(list: Seq<Seq<char>>) -> Json {
    Json::Arr(Seq::new(list.len(), |i: int| Json::Str(list[i])))
}

/// A list of texts as a value.
pub(crate) fn texts_value(list: &Vec<String>) -> (r: JsonValue)
    ensures
        r@ == texts_json(texts(list@)),
{
    let mut items: Vec<JsonValue> = Vec::new();
    let mut i: usize = 0;
    while i < list.len()
        invariant
            i <= list.len(),
            items@.len() == i,
            forall|k: int| 0 <= k < i ==> (#[trigger] items@[k])@ == Json::Str(list@[k]@),
        decreases list.len() - i,
    {
        items.push(JsonValue::text(list[i].as_str()));
        i = i + 1;
    }
    let r = JsonValue::Array(items);
    proof {
        assert(r@->Arr_0 =~= texts_json(texts(list@))->Arr_0);
    }
    r
}

/// The paths at which the helper's manifest is looked for.
pub open spec fn search_paths(on_macos: bool) -> Seq<Seq<char>> {
    if on_macos {
        seq![FIREFOX_MANIFEST@, CHROME_MANIFEST@]
    } else {
        Seq::empty()
    }
}

/// The paths at which the helper's manifest is looked for, in this order.
pub fn manifest_search_paths(on_macos: bool) -> (r: Vec<String>)
    ensures
        texts(r@) == search_paths(on_macos),
{
    let mut paths: Vec<String> = Vec::new();
    if on_macos {
        paths.push(owned(FIREFOX_MANIFEST));
        paths.push(owned(CHROME_MANIFEST));
    }
    proof {
        assert(texts(paths@) =~= search_paths(on_macos));
    }
    paths
}

/// Whether a path is one at which the helper's manifest is looked for.
pub fn is_safe_manifest_path(path: &str) -> (r: bool)
    ensures
        r == (path@ == FIREFOX_MANIFEST@ || path@ == CHROME_MANIFEST@),
{
    str_eq(path, FIREFOX_MANIFEST) || str_eq(path, CHROME_MANIFEST)
}

/// Whether a path is absolute and has no null character.
pub open spec fn absolute_path(path: Seq<char>) -> bool {
    path.len() > 0 && path[0] == '/' && !path.contains('\0')
}

/// Whether a path is absolute and has no null character.
pub fn is_absolute_unix_path(path: &str) -> (r: bool)
    ensures
        r == absolute_path(path@),
{
    let chars = crate::text::chars_of(path);
    chars.len() > 0 && chars[0] == '/' && !contains_char(path, '\0')
}

/// Whether the path of a helper binary is acceptable: absolute, and not by way of a parent.
pub open spec fn binary_path_ok(path: Seq<char>) -> bool {
    absolute_path(path) && !occurs_in(path, ".."@)
}

fn is_binary_path_ok(path: &str) -> (r: bool)
    ensures
        r == binary_path_ok(path@),
{
    is_absolute_unix_path(path) && !contains(path, "..")
}

/// Whether a member is text that is not empty.
pub open spec fn filled(value: Json, key: Seq<char>) -> bool {
    match value.get(key) {
        Some(Json::Str(text)) => text.len() > 0,
        _ => false,
    }
}

/// The list of those who may use the helper, under either of its names.
pub open spec fn origins(value: Json) -> Option<Json> {
    match value.get("allowedOrigins"@) {
        Some(list) => Some(list),
        None => value.get("allowed_extensions"@),
    }
}

/// Whether a value has the form of a manifest: four texts that are not empty, and a list of texts.
pub open spec fn manifest_form(value: Json) -> bool {
    &&& filled(value, "name"@)
    &&& filled(value, "description"@)
    &&& filled(value, "path"@)
    &&& filled(value, "type"@)
    &&& match origins(value) {
        Some(Json::Arr(items)) => forall|i: int|
            0 <= i < items.len() ==> (#[trigger] items[i]) is Str,
        _ => false,
    }
}

fn is_filled(value: &JsonValue, key: &str) -> (r: bool)
    ensures
        r == filled(value@, key@),
{
    match value.get(key) {
        Some(member) => match member.as_str() {
            Some(text) => !text.as_str().is_empty(),
            None => false,
        },
        None => false,
    }
}

fn get_origins(value: &JsonValue) -> (r: Option<&JsonValue>)
    ensures
        r is Some == (origins(value@) is Some),
        r is Some ==> origins(value@) == Some(r->0@),
{
    match value.get("allowedOrigins") {
        Some(list) => Some(list),
        None => value.get("allowed_extensions"),
    }
}

fn all_texts(items: &Vec<JsonValue>) -> (r: bool)
    ensures
        r == (forall|i: int| 0 <= i < items@.len() ==> (#[trigger] items@[i])@ is Str),
{
    let mut i: usize = 0;
    while i < items.len()
        invariant
            i <= items.len(),
            forall|k: int| 0 <= k < i ==> (#[trigger] items@[k])@ is Str,
        decreases items.len() - i,
    {
        match items[i].as_str() {
            Some(_) => {},
            None => {
                proof {
                    assert(!(items@[i as int]@ is Str));
                }
                return false;
            },
        }
        i = i + 1;
    }
    true
}

/// Whether a value has the form of a manifest.
pub fn is_manifest(value: &JsonValue) -> (r: bool)
    ensures
        r == manifest_form(value@),
{
    if !is_filled(value, "name") || !is_filled(value, "description") || !is_filled(value, "path")
        || !is_filled(value, "type") {
        return false;
    }
    match get_origins(value) {
        Some(list) => match list {
            JsonValue::Array(items) => {
                let ok = all_texts(items);
                proof {
                    let model = list@->Arr_0;
                    assert(forall|i: int| 0 <= i < model.len() ==> model[i] == items@[i]@);
                    if !ok {
                        let k = choose|k: int|
                            0 <= k < items@.len() && !((#[trigger] items@[k])@ is Str);
                        assert(!(model[k] is Str));
                    }
                }
                ok
            },
            _ => false,
        },
        None => false,
    }
}

/// The value in a manifest's content.
pub open spec fn content_json(content: Option<String>) -> Option<Json> {
    match content {
        Some(content) => json_parsed(encode_utf8(content@)),
        None => None,
    }
}

fn parse_content(content: &Option<String>) -> (r: Option<JsonValue>)
    ensures
        match content_json(*content) {
            Some(value) => r is Some && r->0@ == value,
            None => r is None,
        },
{
    match content {
        Some(content) => parse_json(content.as_str().as_bytes()),
        None => None,
    }
}

/// The binary that a manifest names, where its content has the form of a manifest: the one of
/// which it is to be found out whether it can be executed.
pub fn manifest_binary(content: &Option<String>) -> (r: Option<String>)
    ensures
        opt_text(r) == match content_json(*content) {
            Some(value) => if manifest_form(value) {
                value.get("path"@)->0.as_str()
            } else {
                None
            },
            None => None,
        },
{
    match parse_content(content) {
        Some(value) => {
            if !is_manifest(&value) {
                return None;
            }
            match value.get("path") {
                Some(path) => match path.as_str() {
                    Some(text) => Some(owned(text.as_str())),
                    None => None,
                },
                None => None,
            }
        },
        None => None,
    }
}

/// How far a manifest is from a helper that can be launched.
#[derive(Debug, Clone, Copy, PartialEq, Eq, Structural)]
pub enum ManifestState {
    Missing,
    Unreadable,
    Malformed,
    UnexpectedBinary,
    BinaryNotExecutable,
    Ready,
}

/// The first thing that is wrong with a manifest.
pub open spec fn manifest_state(finding: ManifestFinding) -> ManifestState {
    if finding.path is None {
        ManifestState::Missing
    } else if finding.content is None {
        ManifestState::Unreadable
    } else {
        match content_json(finding.content) {
            None => ManifestState::Malformed,
            Some(value) => if !manifest_form(value) {
                ManifestState::Malformed
            } else if !binary_path_ok(value.get("path"@)->0->Str_0) {
                ManifestState::UnexpectedBinary
            } else if !finding.binary_executable {
                ManifestState::BinaryNotExecutable
            } else {
                ManifestState::Ready
            },
        }
    }
}

/// The word for the state of a manifest.
pub open spec fn manifest_word(state: ManifestState) -> Seq<char> {
    match state {
        ManifestState::Missing => "manifest_missing"@,
        ManifestState::BinaryNotExecutable => "binary_not_executable"@,
        ManifestState::Ready => "ready"@,
        _ => "manifest_invalid"@,
    }
}

/// The complaint about the state of a manifest, where there is one.
pub open spec fn manifest_error(state: ManifestState) -> Option<Seq<char>> {
    match state {
        ManifestState::Missing => Some(MANIFEST_NOT_FOUND@),
        ManifestState::Unreadable => Some(MANIFEST_UNREADABLE@),
        ManifestState::Malformed => Some(MANIFEST_MALFORMED@),
        ManifestState::UnexpectedBinary => Some(UNEXPECTED_BINARY@),
        ManifestState::BinaryNotExecutable => Some(BINARY_NOT_EXECUTABLE@),
        ManifestState::Ready => None,
    }
}

/// A truth value, or null for none.
pub open spec fn flag_or_null(flag: Option<bool>) -> Json {
    match flag {
        Some(flag) => Json::Bool(flag),
        None => Json::Null,
    }
}

/// A report on a manifest.
pub open spec fn manifest_report(
    searched: Seq<Seq<char>>,
    path: Option<Seq<char>>,
    valid: bool,
    binary_path: Option<Seq<char>>,
    binary_absolute: Option<bool>,
    binary_executable: Option<bool>,
    allowed_origins: Option<nat>,
) -> Json {
    Json::Obj(
        Map::<Seq<char>, Json>::empty().insert("searchedPaths"@, texts_json(searched)).insert(
            "path"@,
            text_or_null(path),
        ).insert("found"@, Json::Bool(path is Some)).insert("valid"@, Json::Bool(valid)).insert(
            "binaryPath"@,
            text_or_null(binary_path),
        ).insert("binaryAbsolute"@, flag_or_null(binary_absolute)).insert(
            "binaryExecutable"@,
            flag_or_null(binary_executable),
        ).insert(
            "allowedOrigins"@,
            match allowed_origins {
                Some(n) => Json::Int(n as int),
                None => Json::Null,
            },
        ),
    )
}

fn flag_value(flag: Option<bool>) -> (r: JsonValue)
    ensures
        r@ == flag_or_null(flag),
{
    match flag {
        Some(flag) => JsonValue::Bool(flag),
        None => JsonValue::Null,
    }
}

fn manifest_value(
    searched: &Vec<String>,
    path: &Option<String>,
    valid: bool,
    binary_path: &Option<String>,
    binary_absolute: Option<bool>,
    binary_executable: Option<bool>,
    allowed_origins: Option<usize>,
) -> (r: JsonValue)
    ensures
        r@ == manifest_report(
            texts(searched@),
            opt_text(*path),
            valid,
            opt_text(*binary_path),
            binary_absolute,
            binary_executable,
            match allowed_origins {
                Some(n) => Some(n as nat),
                None => None,
            },
        ),
{
    let count = match allowed_origins {
        Some(n) => JsonValue::Number(crate::json::JsonNumber::Unsigned(n as u64)),
        None => JsonValue::Null,
    };
    JsonValue::object().with("searchedPaths", texts_value(searched)).with(
        "path",
        JsonValue::opt(path),
    ).with("found", JsonValue::Bool(path.is_some())).with("valid", JsonValue::Bool(valid)).with(
        "binaryPath",
        JsonValue::opt(binary_path),
    ).with("binaryAbsolute", flag_value(binary_absolute)).with(
        "binaryExecutable",
        flag_value(binary_executable),
    ).with("allowedOrigins", count)
}

/// The report on no manifest.
pub fn empty_manifest_preflight(on_macos: bool) -> (r: JsonValue)
    ensures
        r@ == manifest_report(search_paths(on_macos), None, false, None, None, None, None),
{
    let searched = manifest_search_paths(on_macos);
    manifest_value(&searched, &None, false, &None, None, None, None)
}

/// The report on what was found of the manifest.
pub open spec fn finding_report(finding: ManifestFinding) -> Json {
    let searched = search_paths(true);
    let path = opt_text(finding.path);
    let value = content_json(finding.content)->0;
    let binary = value.get("path"@)->0.as_str();
    let count = origins(value)->0->Arr_0.len();
    match manifest_state(finding) {
        ManifestState::Missing => manifest_report(searched, None, false, None, None, None, None),
        ManifestState::Unreadable | ManifestState::Malformed => manifest_report(
            searched,
            path,
            false,
            None,
            None,
            None,
            None,
        ),
        ManifestState::UnexpectedBinary => manifest_report(
            searched,
            path,
            false,
            binary,
            Some(false),
            None,
            Some(count),
        ),
        ManifestState::BinaryNotExecutable => manifest_report(
            searched,
            path,
            true,
            binary,
            Some(true),
            Some(false),
            Some(count),
        ),
        ManifestState::Ready => manifest_report(
            searched,
            path,
            true,
            binary,
            Some(true),
            Some(true),
            Some(count),
        ),
    }
}

fn origin_count(value: &JsonValue) -> (r: usize)
    requires
        manifest_form(value@),
    ensures
        r == origins(value@)->0->Arr_0.len(),
{
    match get_origins(value) {
        Some(list) => match list {
            JsonValue::Array(items) => items.len(),
            _ => 0,
        },
        None => 0,
    }
}

/// What was found of the manifest: a report on it, and its state.
pub fn inspect_manifest_preflight(finding: &ManifestFinding) -> (r: (JsonValue, ManifestState))
    ensures
        r.1 == manifest_state(*finding),
        r.0@ == finding_report(*finding),
{
    let searched = manifest_search_paths(true);
    if finding.path.is_none() {
        return (empty_manifest_preflight(true), ManifestState::Missing);
    }
    if finding.content.is_none() {
        return (
            manifest_value(&searched, &finding.path, false, &None, None, None, None),
            ManifestState::Unreadable,
        );
    }
    let value = match parse_content(&finding.content) {
        Some(value) => value,
        None => {
            return (
                manifest_value(&searched, &finding.path, false, &None, None, None, None),
                ManifestState::Malformed,
            );
        },
    };
    if !is_manifest(&value) {
        return (
            manifest_value(&searched, &finding.path, false, &None, None, None, None),
            ManifestState::Malformed,
        );
    }
    let count = origin_count(&value);
    let binary = match value.get("path") {
        Some(path) => match path.as_str() {
            Some(text) => Some(owned(text.as_str())),
            None => None,
        },
        None => None,
    };
    let absolute = match &binary {
        Some(path) => is_binary_path_ok(path.as_str()),
        None => false,
    };
    if !absolute {
        return (
            manifest_value(
                &searched,
                &finding.path,
                false,
                &binary,
                Some(false),
                None,
                Some(count),
            ),
            ManifestState::UnexpectedBinary,
        );
    }
    if !finding.binary_executable {
        return (
            manifest_value(
                &searched,
                &finding.path,
                true,
                &binary,
                Some(true),
                Some(false),
                Some(count),
            ),
            ManifestState::BinaryNotExecutable,
        );
    }
    (
        manifest_value(
            &searched,
            &finding.path,
            true,
            &binary,
            Some(true),
            Some(true),
            Some(count),
        ),
        ManifestState::Ready,
    )
}

impl ManifestState {
    /// The word for this state.
    pub fn word(self) -> (r: &'static str)
        ensures
            r@ == manifest_word(self),
    {
        match self {
            ManifestState::Missing => "manifest_missing",
            ManifestState::BinaryNotExecutable => "binary_not_executable",
            ManifestState::Ready => "ready",
            _ => "manifest_invalid",
        }
    }

    /// The complaint about this state, where there is one.
    pub fn error(self) -> (r: Option<String>)
        ensures
            opt_text(r) == manifest_error(self),
    {
        match self {
            ManifestState::Missing => Some(owned(MANIFEST_NOT_FOUND)),
            ManifestState::Unreadable => Some(owned(MANIFEST_UNREADABLE)),
            ManifestState::Malformed => Some(owned(MANIFEST_MALFORMED)),
            ManifestState::UnexpectedBinary => Some(owned(UNEXPECTED_BINARY)),
            ManifestState::BinaryNotExecutable => Some(owned(BINARY_NOT_EXECUTABLE)),
            ManifestState::Ready => None,
        }
    }
}

/// Whether a manifest has the texts and the list that a value writes.
pub open spec fn manifest_parts(manifest: ManifestConfig, value: Json) -> bool {
    &&& value.get("name"@) == Some(Json::Str(manifest.name@))
    &&& value.get("description"@) == Some(Json::Str(manifest.description@))
    &&& value.get("path"@) == Some(Json::Str(manifest.path@))
    &&& value.get("type"@) == Some(Json::Str(manifest.type_@))
    &&& origins(value) == Some(texts_json(texts(manifest.allowed_origins@)))
}

/// Whether a value has the list of those who may use the helper under both of its names.
pub open spec fn ambiguous(value: Json) -> bool {
    value.get("allowedOrigins"@) is Some && value.get("allowed_extensions"@) is Some
}

fn member_string(value: &JsonValue, key: &str) -> (r: String)
    requires
        filled(value@, key@),
    ensures
        value@.get(key@) == Some(Json::Str(r@)),
{
    match value.get(key) {
        Some(member) => match member.as_str() {
            Some(text) => owned(text.as_str()),
            None => String::new(),
        },
        None => String::new(),
    }
}

fn origin_texts(value: &JsonValue) -> (r: Vec<String>)
    requires
        manifest_form(value@),
    ensures
        origins(value@) == Some(texts_json(texts(r@))),
{
    let mut out: Vec<String> = Vec::new();
    match get_origins(value) {
        Some(list) => match list {
            JsonValue::Array(items) => {
                let ghost model = list@->Arr_0;
                let mut i: usize = 0;
                while i < items.len()
                    invariant
                        i <= items.len(),
                        out@.len() == i,
                        list@ == Json::Arr(model),
                        model.len() == items@.len(),
                        forall|k: int| 0 <= k < items@.len() ==> (#[trigger] model[k]) == items@[k]@,
                        forall|k: int| 0 <= k < items@.len() ==> (#[trigger] model[k]) is Str,
                        forall|k: int| 0 <= k < i ==> model[k] == Json::Str((#[trigger] out@[k])@),
                    decreases items.len() - i,
                {
                    proof {
                        assert(model[i as int] is Str);
                    }
                    match items[i].as_str() {
                        Some(text) => {
                            out.push(owned(text.as_str()));
                        },
                        None => {
                            out.push(String::new());
                        },
                    }
                    i = i + 1;
                }
                proof {
                    let written = texts_json(texts(out@))->Arr_0;
                    assert forall|k: int| 0 <= k < model.len() implies model[k] == written[k] by {
                        assert(model[k] == Json::Str(out@[k]@));
                    }
                    assert(model =~= written);
                }
            },
            _ => {},
        },
        None => {},
    }
    out
}

fn bad_manifest(code: Status, message: &str) -> (r: Result<ManifestConfig>)
    ensures
        fails(r, code, message@),
{
    Err(APWError::new(code, message))
}

/// Whether an outcome is what reading the helper's manifest comes to. Off macOS there is none; on
/// macOS it has to be at one of the searched paths, well formed, and name an executable at an
/// acceptable path.
pub open spec fn manifest_read(
    on_macos: bool,
    finding: ManifestFinding,
    r: Result<ManifestConfig>,
) -> bool {
    if !on_macos {
        fails(r, Status::GenericError, MANIFEST_UNSUPPORTED@)
    } else if finding.path is None {
        fails(r, Status::GenericError, MANIFEST_NOT_FOUND@)
    } else if finding.path->0@ != FIREFOX_MANIFEST@ && finding.path->0@ != CHROME_MANIFEST@ {
        fails(r, Status::InvalidConfig, UNEXPECTED_BINARY@)
    } else {
        match manifest_state(finding) {
            ManifestState::BinaryNotExecutable => fails(
                r,
                Status::ProcessNotRunning,
                BINARY_NOT_EXECUTABLE@,
            ),
            ManifestState::Ready => if ambiguous(content_json(finding.content)->0) {
                fails(r, Status::InvalidConfig, MANIFEST_MALFORMED@)
            } else {
                r is Ok && manifest_parts(r->Ok_0, content_json(finding.content)->0)
            },
            state => fails(r, Status::InvalidConfig, manifest_error(state)->0),
        }
    }
}

/// The helper's manifest.
pub fn read_manifest(on_macos: bool, finding: &ManifestFinding) -> (r: Result<ManifestConfig>)
    ensures
        manifest_read(on_macos, *finding, r),
{
    if !on_macos {
        return bad_manifest(Status::GenericError, MANIFEST_UNSUPPORTED);
    }
    match &finding.path {
        Some(path) => {
            if !is_safe_manifest_path(path.as_str()) {
                return bad_manifest(Status::InvalidConfig, UNEXPECTED_BINARY);
            }
        },
        None => {
            return bad_manifest(Status::GenericError, MANIFEST_NOT_FOUND);
        },
    }
    if finding.content.is_none() {
        return bad_manifest(Status::InvalidConfig, MANIFEST_UNREADABLE);
    }
    let value = match parse_content(&finding.content) {
        Some(value) => value,
        None => {
            return bad_manifest(Status::InvalidConfig, MANIFEST_MALFORMED);
        },
    };
    if !is_manifest(&value) {
        return bad_manifest(Status::InvalidConfig, MANIFEST_MALFORMED);
    }
    let path = member_string(&value, "path");
    if !is_binary_path_ok(path.as_str()) {
        return bad_manifest(Status::InvalidConfig, UNEXPECTED_BINARY);
    }
    if !finding.binary_executable {
        return bad_manifest(Status::ProcessNotRunning, BINARY_NOT_EXECUTABLE);
    }
    if value.get("allowedOrigins").is_some() && value.get("allowed_extensions").is_some() {
        return bad_manifest(Status::InvalidConfig, MANIFEST_MALFORMED);
    }
    Ok(
        ManifestConfig {
            name: member_string(&value, "name"),
            description: member_string(&value, "description"),
            path,
            type_: member_string(&value, "type"),
            allowed_origins: origin_texts(&value),
        },
    )
}

/// A manifest that is read was found on macOS at one of the searched paths, and names a helper
/// binary at an acceptable path that can be executed.
pub proof fn law_read_manifest_is_safe(
    on_macos: bool,
    finding: ManifestFinding,
    r: Result<ManifestConfig>,
)
    ensures
        manifest_read(on_macos, finding, r) && r is Ok ==> {
            &&& on_macos
            &&& finding.path is Some
            &&& finding.path->0@ == FIREFOX_MANIFEST@ || finding.path->0@ == CHROME_MANIFEST@
            &&& binary_path_ok(r->Ok_0.path@)
            &&& finding.binary_executable
            &&& r->Ok_0.name@.len() > 0
            &&& r->Ok_0.description@.len() > 0
            &&& r->Ok_0.type_@.len() > 0
        },
{
}

/// The word for how ready the helper is in a mode other than the native one.
pub open spec fn preflight_word(env: PreflightEnvironment, resolved: RuntimeMode) -> Seq<char> {
    if resolved == RuntimeMode::Disabled {
        "disabled"@
    } else if !env.on_macos {
        "unsupported_platform"@
    } else if resolved == RuntimeMode::Browser {
        "browser_bridge"@
    } else {
        manifest_word(manifest_state(env.manifest))
    }
}

/// The complaint about how ready the helper is in a mode other than the native one.
pub open spec fn preflight_error(
    env: PreflightEnvironment,
    resolved: RuntimeMode,
) -> Option<Seq<char>> {
    if resolved == RuntimeMode::Disabled {
        None
    } else if !env.on_macos {
        Some(MANIFEST_UNSUPPORTED@)
    } else if resolved == RuntimeMode::Browser {
        None
    } else {
        manifest_error(manifest_state(env.manifest))
    }
}

/// The report on how ready the helper is in a mode.
pub open spec fn preflight_report(env: PreflightEnvironment, configured: RuntimeMode) -> Json {
    let resolved = resolved_mode(configured, env.macos_major_version);
    if resolved == RuntimeMode::Native {
        host_report(env.host, configured)
    } else {
        Json::Obj(
            Map::<Seq<char>, Json>::empty().insert("supported"@, Json::Bool(env.on_macos)).insert(
                "platform"@,
                platform_json(env.os@, env.arch@, env.macos_major_version),
            ).insert("configuredRuntimeMode"@, Json::Str(mode_word(configured))).insert(
                "resolvedRuntimeMode"@,
                Json::Str(mode_word(resolved)),
            ).insert("launchStrategies"@, texts_json(strategies(resolved))).insert(
                "status"@,
                Json::Str(preflight_word(env, resolved)),
            ).insert("error"@, text_or_null(preflight_error(env, resolved))).insert(
                "manifest"@,
                if env.on_macos && resolved != RuntimeMode::Disabled && resolved
                    != RuntimeMode::Browser {
                    finding_report(env.manifest)
                } else {
                    manifest_report(search_paths(env.on_macos), None, false, None, None, None, None)
                },
            ),
        )
    }
}

/// How ready the helper is in a mode other than the native one: the word, the complaint and the
/// report on the manifest.
fn inspect_mode(env: &PreflightEnvironment, resolved: RuntimeMode) -> (r: (
    &'static str,
    Option<String>,
    JsonValue,
))
    ensures
        r.0@ == preflight_word(*env, resolved),
        opt_text(r.1) == preflight_error(*env, resolved),
        r.2@ == if env.on_macos && resolved != RuntimeMode::Disabled && resolved
            != RuntimeMode::Browser {
            finding_report(env.manifest)
        } else {
            manifest_report(search_paths(env.on_macos), None, false, None, None, None, None)
        },
{
    match resolved {
        RuntimeMode::Disabled => {
            return ("disabled", None, empty_manifest_preflight(env.on_macos));
        },
        _ => {},
    }
    if !env.on_macos {
        return (
            "unsupported_platform",
            Some(owned(MANIFEST_UNSUPPORTED)),
            empty_manifest_preflight(false),
        );
    }
    match resolved {
        RuntimeMode::Browser => ("browser_bridge", None, empty_manifest_preflight(true)),
        _ => {
            let (report, state) = inspect_manifest_preflight(&env.manifest);
            (state.word(), state.error(), report)
        },
    }
}

fn is_native(mode: RuntimeMode) -> (r: bool)
    ensures
        r == (mode == RuntimeMode::Native),
{
    match mode {
        RuntimeMode::Native => true,
        _ => false,
    }
}

/// The report on how ready the helper is in a mode.
pub fn helper_preflight_status(env: &PreflightEnvironment, configured: RuntimeMode) -> (r: JsonValue)
    ensures
        r@ == preflight_report(*env, configured),
{
    let resolved = resolve_runtime_mode(configured, env.macos_major_version);
    if is_native(resolved) {
        return native_host_preflight_status(&env.host, configured);
    }
    let (word, error, manifest) = inspect_mode(env, resolved);
    let labels = launch_strategy_labels(resolved);
    JsonValue::object().with("supported", JsonValue::Bool(env.on_macos)).with(
        "platform",
        platform_value(env.os.as_str(), env.arch.as_str(), env.macos_major_version),
    ).with("configuredRuntimeMode", JsonValue::text(configured.as_str())).with(
        "resolvedRuntimeMode",
        JsonValue::text(resolved.as_str()),
    ).with("launchStrategies", texts_value(&labels)).with("status", JsonValue::text(word)).with(
        "error",
        JsonValue::opt(&error),
    ).with("manifest", manifest)
}

pub const GUIDE_BROWSER: &'static str = "Install the browser bridge with `./scripts/install-browser-bridge.sh`, load `browser-bridge/` in Chrome, start the daemon with `apw start`, and wait for `apw status --json` to report `bridge.status=attached`.";

pub const GUIDE_MISSING: &'static str = "Run `apw status --json` and review `daemon.preflight.manifest.searchedPaths`; the Apple helper manifest is missing on this host.";

pub const GUIDE_INVALID: &'static str = "Run `apw status --json` and review `daemon.preflight.manifest.path` plus `daemon.preflight.manifest.binaryPath`; the helper manifest is present but invalid.";

pub const GUIDE_NOT_EXECUTABLE: &'static str = "Run `apw status --json` and review `daemon.preflight.manifest.binaryPath` plus `daemon.preflight.manifest.binaryExecutable`; the helper binary is not executable.";

pub const GUIDE_DISABLED: &'static str = "Re-run `apw start` with `--runtime-mode native`, `--runtime-mode direct`, or `--runtime-mode launchd`.";

pub const GUIDE_DEFAULT: &'static str = "Run `apw status --json` and inspect `daemon.preflight` for the resolved runtime path and helper launch diagnostics.";

/// What to do about a word for how ready the helper is.
pub open spec fn guidance_for(word: Seq<char>, os: Seq<char>, arch: Seq<char>) -> Seq<char> {
    if word == "browser_bridge"@ {
        GUIDE_BROWSER@
    } else if word == "manifest_missing"@ {
        GUIDE_MISSING@
    } else if word == "manifest_invalid"@ {
        GUIDE_INVALID@
    } else if word == "binary_not_executable"@ {
        GUIDE_NOT_EXECUTABLE@
    } else if word == "unsupported_platform"@ {
        "APW is supported only on macOS. Current platform: "@ + os + "/"@ + arch + "."@
    } else if word == "disabled"@ {
        GUIDE_DISABLED@
    } else {
        GUIDE_DEFAULT@
    }
}

/// What to do about a word for how ready the helper is.
pub fn helper_preflight_guidance(word: &str, os: &str, arch: &str) -> (r: String)
    ensures
        r@ == guidance_for(word@, os@, arch@),
{
    if str_eq(word, "browser_bridge") {
        owned(GUIDE_BROWSER)
    } else if str_eq(word, "manifest_missing") {
        owned(GUIDE_MISSING)
    } else if str_eq(word, "manifest_invalid") {
        owned(GUIDE_INVALID)
    } else if str_eq(word, "binary_not_executable") {
        owned(GUIDE_NOT_EXECUTABLE)
    } else if str_eq(word, "unsupported_platform") {
        let text = cat3("APW is supported only on macOS. Current platform: ", os, "/");
        cat3(text.as_str(), arch, ".")
    } else if str_eq(word, "disabled") {
        owned(GUIDE_DISABLED)
    } else {
        owned(GUIDE_DEFAULT)
    }
}

/// The note that tells how ready the helper is.
pub open spec fn preflight_note(env: PreflightEnvironment, configured: RuntimeMode) -> Seq<char> {
    let resolved = resolved_mode(configured, env.macos_major_version);
    if resolved == RuntimeMode::Native {
        host_note(env.host)
    } else {
        "Run `apw status --json` and inspect `daemon.preflight`; current `daemon.preflight.status="@
            + preflight_word(env, resolved) + "`."@
    }
}

/// The note that tells how ready the helper is.
pub fn helper_preflight_status_note(env: &PreflightEnvironment, configured: RuntimeMode) -> (r: String)
    ensures
        r@ == preflight_note(*env, configured),
{
    let resolved = resolve_runtime_mode(configured, env.macos_major_version);
    if is_native(resolved) {
        return native_host_status_note(&env.host);
    }
    let (word, _error, _manifest) = inspect_mode(env, resolved);
    cat3(
        "Run `apw status --json` and inspect `daemon.preflight`; current `daemon.preflight.status=",
        word,
        "`.",
    )
}

/// A failure with what to do about it.
pub open spec fn preflight_failure(
    env: PreflightEnvironment,
    configured: RuntimeMode,
    base: Seq<char>,
) -> Seq<char> {
    let resolved = resolved_mode(configured, env.macos_major_version);
    if resolved == RuntimeMode::Native {
        host_failure(env.host, base)
    } else {
        base + " "@ + guidance_for(preflight_word(env, resolved), env.os@, env.arch@)
            + " Current `daemon.preflight.status="@ + preflight_word(env, resolved) + "`."@
    }
}

/// A failure with what to do about it.
pub fn helper_preflight_failure_message(
    env: &PreflightEnvironment,
    configured: RuntimeMode,
    base_message: &str,
) -> (r: String)
    ensures
        r@ == preflight_failure(*env, configured, base_message@),
{
    let resolved = resolve_runtime_mode(configured, env.macos_major_version);
    if is_native(resolved) {
        return native_host_failure_message(&env.host, base_message);
    }
    let (word, _error, _manifest) = inspect_mode(env, resolved);
    let guidance = helper_preflight_guidance(word, env.os.as_str(), env.arch.as_str());
    let text = cat3(base_message, " ", guidance.as_str());
    let text = cat3(text.as_str(), " Current `daemon.preflight.status=", word);
    cat(text.as_str(), "`.")
}

/// A failure message begins with the failure.
pub proof fn law_failure_begins_with_its_cause(
    env: PreflightEnvironment,
    configured: RuntimeMode,
    base: Seq<char>,
)
    ensures
        begins_with(preflight_failure(env, configured, base), base),
{
    let message = preflight_failure(env, configured, base);
    assert(message.subrange(0, base.len() as int) =~= base);
}

} // verus!
