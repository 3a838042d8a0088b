//! The shared key in the user's keychain, through the `security` command line tool.
use crate::error::{fails, APWError, Result};
use crate::text::{ascii_lowered, contains, occurs_in, opt_text, owned, to_ascii_lower};
use crate::types::Status;
use vstd::prelude::*;

verus! {

/// The keychain service under which shared keys are stored.
pub const KEYCHAIN_SERVICE: &'static str = "dev.benjaminedwards.apw.sharedKey";

pub const KEYCHAIN_UNSUPPORTED: &'static str = "Keychain storage is only available on macOS.";

/// What a run of the `security` tool gave.
#[derive(Debug)]
pub struct SecurityResult {
    pub code: i32,
    pub stdout: String,
    pub stderr: String,
}

/// The way to the keychain: whether there is one, and what runs the `security` tool.
pub struct SecurityTool<R> {
    pub on_macos: bool,
    pub keychain_override: Option<bool>,
    pub runner: R,
}

/// A result of the `security` tool.
pub fn make_security_result(code: i32, stdout: &str, stderr: &str) -> (r: SecurityResult)
    ensures
        r.code == code,
        r.stdout@ == stdout@,
        r.stderr@ == stderr@,
{
    SecurityResult { code, stdout: owned(stdout), stderr: owned(stderr) }
}

/// Whether a failed run says that there is no such item.
pub open spec fn not_found(result: SecurityResult) -> bool {
    let text = ascii_lowered(result.stderr@);
    result.code != 0 && (occurs_in(text, "not found"@) || occurs_in(text, "no such item"@)
        || occurs_in(text, "could not be found"@))
}

/// Whether a failed run says that there is no such item.
pub fn is_not_found(result: &SecurityResult) -> (r: bool)
    ensures
        r == not_found(*result),
{
    if result.code == 0 {
        return false;
    }
    let lowered = to_ascii_lower(result.stderr.as_str());
    contains(lowered.as_str(), "not found") || contains(lowered.as_str(), "no such item")
        || contains(lowered.as_str(), "could not be found")
}

/// Whether there is a keychain: what the override says, else whether this is macOS.
pub open spec fn keychain_supported<R>(tool: SecurityTool<R>) -> bool {
    match tool.keychain_override {
        Some(value) => value,
        None => tool.on_macos,
    }
}

/// Whether there is a keychain.
pub fn supports_keychain<R>(tool: &SecurityTool<R>) -> (r: bool)
    ensures
        r == keychain_supported(*tool),
{
    match tool.keychain_override {
        Some(value) => value,
        None => tool.on_macos,
    }
}

/// Sets or lifts the override of whether there is a keychain.
pub fn supports_keychain_for_tests<R>(tool: SecurityTool<R>, value: Option<bool>) -> (r:
    SecurityTool<R>)
    ensures
        r == (SecurityTool { on_macos: tool.on_macos, keychain_override: value, runner: tool.runner }),
{
    SecurityTool { on_macos: tool.on_macos, keychain_override: value, runner: tool.runner }
}

/// The same keychain, reached through another runner.
pub fn set_security_command_runner_for_tests<R, S>(tool: SecurityTool<R>, runner: S) -> (r:
    SecurityTool<S>)
    ensures
        r == (SecurityTool {
            on_macos: tool.on_macos,
            keychain_override: tool.keychain_override,
            runner,
        }),
{
    SecurityTool { on_macos: tool.on_macos, keychain_override: tool.keychain_override, runner }
}

/// The same keychain, reached through the default runner again.
pub fn reset_security_command_runner_for_tests<R, S>(
    tool: SecurityTool<R>,
    default_runner: S,
) -> (r: SecurityTool<S>)
    ensures
        r == (SecurityTool {
            on_macos: tool.on_macos,
            keychain_override: tool.keychain_override,
            runner: default_runner,
        }),
{
    set_security_command_runner_for_tests(tool, default_runner)
}

/// The texts of a list of strings.
pub open spec fn texts(args: Seq<String>) -> Seq<Seq<char>> {
    Seq::new(args.len(), |i: int| args[i]@)
}

/// The arguments that look up a user's secret.
pub open spec fn find_args(username: Seq<char>) -> Seq<Seq<char>> {
    seq!["find-generic-password"@, "-a"@, username, "-s"@, KEYCHAIN_SERVICE@, "-w"@]
}

/// The arguments that store a user's secret.
pub open spec fn add_args(username: Seq<char>, shared_key: Seq<char>) -> Seq<Seq<char>> {
    seq![
        "add-generic-password"@,
        "-a"@,
        username,
        "-s"@,
        KEYCHAIN_SERVICE@,
        "-w"@,
        shared_key,
        "-U"@,
    ]
}

/// The arguments that delete a user's secret.
pub open spec fn delete_args(username: Seq<char>) -> Seq<Seq<char>> {
    seq!["delete-generic-password"@, "-a"@, username, "-s"@, KEYCHAIN_SERVICE@]
}

fn find_command(username: &str) -> (r: Vec<String>)
    ensures
        texts(r@) == find_args(username@),
{
    let mut args: Vec<String> = Vec::new();
    args.push(owned("find-generic-password"));
    args.push(owned("-a"));
    args.push(owned(username));
    args.push(owned("-s"));
    args.push(owned(KEYCHAIN_SERVICE));
    args.push(owned("-w"));
    proof {
        assert(texts(args@) =~= find_args(username@));
    }
    args
}

fn add_command(username: &str, shared_key: &str) -> (r: Vec<String>)
    ensures
        texts(r@) == add_args(username@, shared_key@),
{
    let mut args: Vec<String> = Vec::new();
    args.push(owned("add-generic-password"));
    args.push(owned("-a"));
    args.push(owned(username));
    args.push(owned("-s"));
    args.push(owned(KEYCHAIN_SERVICE));
    args.push(owned("-w"));
    args.push(owned(shared_key));
    args.push(owned("-U"));
    proof {
        assert(texts(args@) =~= add_args(username@, shared_key@));
    }
    args
}

fn delete_command(username: &str) -> (r: Vec<String>)
    ensures
        texts(r@) == delete_args(username@),
{
    let mut args: Vec<String> = Vec::new();
    args.push(owned("delete-generic-password"));
    args.push(owned("-a"));
    args.push(owned(username));
    args.push(owned("-s"));
    args.push(owned(KEYCHAIN_SERVICE));
    proof {
        assert(texts(args@) =~= delete_args(username@));
    }
    args
}

/// The message of a failed run: what it printed, else `fallback`.
pub open spec fn failure_text(result: SecurityResult, fallback: Seq<char>) -> Seq<char> {
    if result.stderr@.len() == 0 {
        fallback
    } else {
        result.stderr@
    }
}

/// Whether a lookup that ran as `reply` says may end in `outcome`.
pub open spec fn lookup_outcome(reply: Result<SecurityResult>, outcome: Result<Option<String>>) -> bool {
    match reply {
        Err(error) => fails(outcome, error.code, error.message@),
        Ok(result) => if result.code == 0 {
            outcome is Ok && outcome->Ok_0 is Some && outcome->Ok_0->0@ == result.stdout@
        } else if not_found(result) {
            outcome is Ok && outcome->Ok_0 is None
        } else {
            fails(
                outcome,
                Status::InvalidConfig,
                failure_text(result, "Keychain lookup failed."@),
            )
        },
    }
}

/// Whether a store that ran as `reply` says may end in `outcome`.
pub open spec fn store_outcome(reply: Result<SecurityResult>, outcome: Result<()>) -> bool {
    match reply {
        Err(error) => fails(outcome, error.code, error.message@),
        Ok(result) => if result.code == 0 {
            outcome is Ok
        } else {
            fails(
                outcome,
                Status::InvalidConfig,
                failure_text(result, "Failed to store secret."@),
            )
        },
    }
}

/// Whether a deletion that ran as `reply` says may end in `outcome`.
pub open spec fn delete_outcome(reply: Result<SecurityResult>, outcome: Result<()>) -> bool {
    match reply {
        Err(error) => fails(outcome, error.code, error.message@),
        Ok(result) => if result.code == 0 || not_found(result) {
            outcome is Ok
        } else {
            fails(
                outcome,
                Status::InvalidConfig,
                failure_text(result, "Failed to delete secret."@),
            )
        },
    }
}

fn failure(result: SecurityResult, fallback: &str) -> (r: APWError)
    ensures
        r.code == Status::InvalidConfig,
        r.message@ == failure_text(result, fallback@),
{
    if result.stderr.as_str().is_empty() {
        APWError::new(Status::InvalidConfig, fallback)
    } else {
        APWError { code: Status::InvalidConfig, message: result.stderr }
    }
}

/// What a lookup that ran as `reply` says means.
pub fn interpret_lookup(reply: Result<SecurityResult>) -> (r: Result<Option<String>>)
    ensures
        lookup_outcome(reply, r),
{
    match reply {
        Err(error) => Err(error),
        Ok(result) => {
            if result.code == 0 {
                Ok(Some(result.stdout))
            } else if is_not_found(&result) {
                Ok(None)
            } else {
                Err(failure(result, "Keychain lookup failed."))
            }
        },
    }
}

/// What a store that ran as `reply` says means.
pub fn interpret_store(reply: Result<SecurityResult>) -> (r: Result<()>)
    ensures
        store_outcome(reply, r),
{
    match reply {
        Err(error) => Err(error),
        Ok(result) => {
            if result.code == 0 {
                Ok(())
            } else {
                Err(failure(result, "Failed to store secret."))
            }
        },
    }
}

/// What a deletion that ran as `reply` says means.
pub fn interpret_delete(reply: Result<SecurityResult>) -> (r: Result<()>)
    ensures
        delete_outcome(reply, r),
{
    match reply {
        Err(error) => Err(error),
        Ok(result) => {
            if result.code == 0 || is_not_found(&result) {
                Ok(())
            } else {
                Err(failure(result, "Failed to delete secret."))
            }
        },
    }
}

/// What reading a user's key comes to: nothing without a user, an error without a keychain, else
/// what a run of the tool with the arguments of a lookup means.
pub open spec fn reads_key<R: Fn(&Vec<String>) -> Result<SecurityResult>>(
    tool: SecurityTool<R>,
    username: Seq<char>,
    r: Result<Option<String>>,
) -> bool {
    if username.len() == 0 {
        r is Ok && r->Ok_0 is None
    } else if !keychain_supported(tool) {
        fails(r, Status::ProcessNotRunning, KEYCHAIN_UNSUPPORTED@)
    } else {
        exists|args: &Vec<String>, reply: Result<SecurityResult>| #[trigger]
            call_ensures(tool.runner, (args,), reply) && texts(args@) == find_args(username)
                && lookup_outcome(reply, r)
    }
}

/// What storing a user's key comes to: an error without a user, a key or a keychain, else what a
/// run of the tool with the arguments of a store means.
pub open spec fn writes_key<R: Fn(&Vec<String>) -> Result<SecurityResult>>(
    tool: SecurityTool<R>,
    username: Seq<char>,
    shared_key: Seq<char>,
    r: Result<()>,
) -> bool {
    if username.len() == 0 {
        fails(r, Status::InvalidConfig, "Invalid session username."@)
    } else if shared_key.len() == 0 {
        fails(r, Status::InvalidConfig, "Invalid shared key value."@)
    } else if !keychain_supported(tool) {
        fails(r, Status::ProcessNotRunning, KEYCHAIN_UNSUPPORTED@)
    } else {
        exists|args: &Vec<String>, reply: Result<SecurityResult>| #[trigger]
            call_ensures(tool.runner, (args,), reply) && texts(args@) == add_args(
                username,
                shared_key,
            ) && store_outcome(reply, r)
    }
}

/// What deleting a user's key comes to: nothing without a user, an error without a keychain, else
/// what a run of the tool with the arguments of a deletion means.
pub open spec fn deletes_key<R: Fn(&Vec<String>) -> Result<SecurityResult>>(
    tool: SecurityTool<R>,
    username: Seq<char>,
    r: Result<()>,
) -> bool {
    if username.len() == 0 {
        r is Ok
    } else if !keychain_supported(tool) {
        fails(r, Status::ProcessNotRunning, KEYCHAIN_UNSUPPORTED@)
    } else {
        exists|args: &Vec<String>, reply: Result<SecurityResult>| #[trigger]
            call_ensures(tool.runner, (args,), reply) && texts(args@) == delete_args(username)
                && delete_outcome(reply, r)
    }
}

/// The shared key stored for a user, where there is one. The tool runs once, with the arguments
/// of a lookup, unless there is no user or no keychain.
pub fn read_shared_key<R: Fn(&Vec<String>) -> Result<SecurityResult>>(
    tool: &SecurityTool<R>,
    username: &str,
) -> (r: Result<Option<String>>)
    requires
        forall|args: &Vec<String>| #[trigger] call_requires(tool.runner, (args,)),
    ensures
        reads_key(*tool, username@, r),
{
    if username.is_empty() {
        return Ok(None);
    }
    if !supports_keychain(tool) {
        return Err(APWError::new(Status::ProcessNotRunning, KEYCHAIN_UNSUPPORTED));
    }
    let args = find_command(username);
    let reply = (tool.runner)(&args);
    let ghost given = reply;
    let r = interpret_lookup(reply);
    assert(call_ensures(tool.runner, (&args,), given));
    r
}

/// Stores the shared key of a user. The tool runs once, with the arguments of a store, unless the
/// user or the key is empty or there is no keychain.
pub fn write_shared_key<R: Fn(&Vec<String>) -> Result<SecurityResult>>(
    tool: &SecurityTool<R>,
    username: &str,
    shared_key: &str,
) -> (r: Result<()>)
    requires
        forall|args: &Vec<String>| #[trigger] call_requires(tool.runner, (args,)),
    ensures
        writes_key(*tool, username@, shared_key@, r),
{
    if username.is_empty() {
        return Err(APWError::new(Status::InvalidConfig, "Invalid session username."));
    }
    if shared_key.is_empty() {
        return Err(APWError::new(Status::InvalidConfig, "Invalid shared key value."));
    }
    if !supports_keychain(tool) {
        return Err(APWError::new(Status::ProcessNotRunning, KEYCHAIN_UNSUPPORTED));
    }
    let args = add_command(username, shared_key);
    let reply = (tool.runner)(&args);
    let ghost given = reply;
    let r = interpret_store(reply);
    assert(call_ensures(tool.runner, (&args,), given));
    r
}

/// Deletes the shared key of a user. The tool runs once, with the arguments of a deletion, unless
/// there is no user or no keychain. That there is nothing to delete is no failure.
pub fn delete_shared_key<R: Fn(&Vec<String>) -> Result<SecurityResult>>(
    tool: &SecurityTool<R>,
    username: &str,
) -> (r: Result<()>)
    requires
        forall|args: &Vec<String>| #[trigger] call_requires(tool.runner, (args,)),
    ensures
        deletes_key(*tool, username@, r),
{
    if username.is_empty() {
        return Ok(());
    }
    if !supports_keychain(tool) {
        return Err(APWError::new(Status::ProcessNotRunning, KEYCHAIN_UNSUPPORTED));
    }
    let args = delete_command(username);
    let reply = (tool.runner)(&args);
    let ghost given = reply;
    let r = interpret_delete(reply);
    assert(call_ensures(tool.runner, (&args,), given));
    r
}

/// The account and the service that arguments name.
pub open spec fn entry_of(args: Seq<Seq<char>>) -> Option<(Seq<char>, Seq<char>)> {
    if args.len() >= 5 && args[1] == "-a"@ && args[3] == "-s"@ {
        Some((args[2], args[4]))
    } else {
        None
    }
}

/// What a keychain that keeps what it is given holds after a run with these arguments, by account
/// and service.
pub open spec fn kept_after(
    store: Map<(Seq<char>, Seq<char>), Seq<char>>,
    args: Seq<Seq<char>>,
) -> Map<(Seq<char>, Seq<char>), Seq<char>> {
    match entry_of(args) {
        Some(entry) => if args[0] == "add-generic-password"@ && args.len() >= 7 && args[5]
            == "-w"@ {
            store.insert(entry, args[6])
        } else if args[0] == "delete-generic-password"@ {
            store.remove(entry)
        } else {
            store
        },
        None => store,
    }
}

/// Whether a keychain that holds this may answer a run with these arguments so: it takes what it
/// is given, and it finds and deletes what is there and nothing else.
pub open spec fn keeper_answers(
    store: Map<(Seq<char>, Seq<char>), Seq<char>>,
    args: Seq<Seq<char>>,
    reply: Result<SecurityResult>,
) -> bool {
    &&& reply is Ok
    &&& entry_of(args) matches Some(entry) ==> {
        let result = reply->Ok_0;
        if args[0] == "add-generic-password"@ {
            result.code == 0
        } else if store.dom().contains(entry) {
            result.code == 0 && (args[0] == "find-generic-password"@ ==> result.stdout@
                == store[entry])
        } else {
            not_found(result)
        }
    }
}

/// Whether every answer of a runner is one of a keychain that holds this.
pub open spec fn keeps<R: Fn(&Vec<String>) -> Result<SecurityResult>>(
    runner: R,
    store: Map<(Seq<char>, Seq<char>), Seq<char>>,
) -> bool {
    forall|args: &Vec<String>, reply: Result<SecurityResult>| #[trigger]
        call_ensures(runner, (args,), reply) ==> keeper_answers(store, texts(args@), reply)
}

/// The shared key of a user in a keychain.
pub open spec fn key_in(
    store: Map<(Seq<char>, Seq<char>), Seq<char>>,
    username: Seq<char>,
) -> Option<Seq<char>> {
    let entry = (username, KEYCHAIN_SERVICE@);
    if store.dom().contains(entry) {
        Some(store[entry])
    } else {
        None
    }
}

proof fn lemma_commands_differ()
    ensures
        "add-generic-password"@ != "find-generic-password"@,
        "add-generic-password"@ != "delete-generic-password"@,
        "find-generic-password"@ != "delete-generic-password"@,
{
    reveal_strlit("add-generic-password");
    reveal_strlit("find-generic-password");
    reveal_strlit("delete-generic-password");
    assert("add-generic-password"@.len() == 20);
    assert("find-generic-password"@.len() == 21);
    assert("delete-generic-password"@.len() == 23);
}

/// With a keychain that keeps what it is given, reading gives the key that is there, where there is
/// one, and storing and deleting succeed.
pub proof fn law_keychain_is_read_as_it_is<R: Fn(&Vec<String>) -> Result<SecurityResult>>(
    tool: SecurityTool<R>,
    store: Map<(Seq<char>, Seq<char>), Seq<char>>,
    username: Seq<char>,
    shared_key: Seq<char>,
    read: Result<Option<String>>,
    wrote: Result<()>,
    deleted: Result<()>,
)
    requires
        keychain_supported(tool),
        keeps(tool.runner, store),
        username.len() > 0,
        shared_key.len() > 0,
    ensures
        reads_key(tool, username, read) ==> read is Ok && opt_text(read->Ok_0) == key_in(
            store,
            username,
        ),
        writes_key(tool, username, shared_key, wrote) ==> wrote is Ok,
        deletes_key(tool, username, deleted) ==> deleted is Ok,
{
    lemma_commands_differ();
    assert(entry_of(find_args(username)) == Some((username, KEYCHAIN_SERVICE@)));
    assert(entry_of(add_args(username, shared_key)) == Some((username, KEYCHAIN_SERVICE@)));
    assert(entry_of(delete_args(username)) == Some((username, KEYCHAIN_SERVICE@)));
}

/// A key that was stored is the one that is read for its user, and what is read for every other
/// user is what it was before.
pub proof fn law_stored_key_is_read<R: Fn(&Vec<String>) -> Result<SecurityResult>>(
    after: SecurityTool<R>,
    store: Map<(Seq<char>, Seq<char>), Seq<char>>,
    username: Seq<char>,
    shared_key: Seq<char>,
    reader: Seq<char>,
    read: Result<Option<String>>,
)
    requires
        keychain_supported(after),
        keeps(after.runner, kept_after(store, add_args(username, shared_key))),
        reads_key(after, reader, read),
        reader.len() > 0,
    ensures
        read is Ok,
        opt_text(read->Ok_0) == if reader == username {
            Some(shared_key)
        } else {
            key_in(store, reader)
        },
{
    lemma_commands_differ();
    let args = add_args(username, shared_key);
    assert(entry_of(args) == Some((username, KEYCHAIN_SERVICE@)));
    assert(entry_of(find_args(reader)) == Some((reader, KEYCHAIN_SERVICE@)));
}

/// A key that was deleted is not there for its user any more, and what is read for every other
/// user is what it was before.
pub proof fn law_deleted_key_is_gone<R: Fn(&Vec<String>) -> Result<SecurityResult>>(
    after: SecurityTool<R>,
    store: Map<(Seq<char>, Seq<char>), Seq<char>>,
    username: Seq<char>,
    reader: Seq<char>,
    read: Result<Option<String>>,
)
    requires
        keychain_supported(after),
        keeps(after.runner, kept_after(store, delete_args(username))),
        reads_key(after, reader, read),
        reader.len() > 0,
    ensures
        read is Ok,
        opt_text(read->Ok_0) == if reader == username {
            None
        } else {
            key_in(store, reader)
        },
{
    lemma_commands_differ();
    assert(entry_of(delete_args(username)) == Some((username, KEYCHAIN_SERVICE@)));
    assert(entry_of(find_args(reader)) == Some((reader, KEYCHAIN_SERVICE@)));
}

} // verus!
