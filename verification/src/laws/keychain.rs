//! What is stored in the keychain is what is found there.
use crate::error::{fails, Result};
use crate::laws::basics::lemma_within;
use crate::secrets::{
    add_args, delete_args, delete_shared_key, interpret_delete, interpret_lookup, interpret_store,
    is_not_found, keeps, kept_after, keychain_supported, law_deleted_key_is_gone,
    law_keychain_is_read_as_it_is, law_stored_key_is_read, read_shared_key, supports_keychain,
    texts, write_shared_key, SecurityResult, SecurityTool,
};
use crate::text::{ascii_lowered, occurs_in, opt_text};
use crate::types::Status;
use vstd::prelude::*;

verus! {

/// What a keychain that keeps what it is given has as the shared key of a user.
pub open spec fn kept_for(
    store: Map<(Seq<char>, Seq<char>), Seq<char>>,
    username: Seq<char>,
) -> Option<Seq<char>> {
    let entry = (username, "dev.benjaminedwards.apw.sharedKey"@);
    if store.dom().contains(entry) {
        Some(store[entry])
    } else {
        None
    }
}

/// A key that is stored for a user is the one that is read for that user after it, and what is read
/// for every other user is what was there before. Storing succeeds.
pub proof fn law_stored_key_comes_back<R: Fn(&Vec<String>) -> Result<SecurityResult>>(
    tool: &SecurityTool<R>,
    after: &SecurityTool<R>,
    store: Map<(Seq<char>, Seq<char>), Seq<char>>,
    username: &str,
    shared_key: &str,
    wrote: Result<()>,
    reader: &str,
    read: Result<Option<String>>,
)
    ensures
        call_ensures(write_shared_key::<R>, (tool, username, shared_key), wrote) && keeps(
            tool.runner,
            store,
        ) && keychain_supported(*tool) && keychain_supported(*after) && username@.len() > 0
            && shared_key@.len() > 0 && reader@.len() > 0 ==> {
            &&& wrote is Ok
            &&& exists|args: &Vec<String>, reply: Result<SecurityResult>| #[trigger]
                call_ensures(tool.runner, (args,), reply) && (keeps(
                    after.runner,
                    kept_after(store, texts(args@)),
                ) && call_ensures(read_shared_key::<R>, (after, reader), read) ==> read is Ok
                    && opt_text(read->Ok_0) == if reader@ == username@ {
                    Some(shared_key@)
                } else {
                    kept_for(store, reader@)
                })
        },
{
    if call_ensures(write_shared_key::<R>, (tool, username, shared_key), wrote) && keeps(
        tool.runner,
        store,
    ) && keychain_supported(*tool) && keychain_supported(*after) && username@.len() > 0
        && shared_key@.len() > 0 && reader@.len() > 0 {
        law_keychain_is_read_as_it_is(
            *tool,
            store,
            username@,
            shared_key@,
            arbitrary(),
            wrote,
            arbitrary(),
        );
        let (args, reply) = choose|args: &Vec<String>, reply: Result<SecurityResult>| #[trigger]
            call_ensures(tool.runner, (args,), reply) && texts(args@) == add_args(
                username@,
                shared_key@,
            ) && crate::secrets::store_outcome(reply, wrote);
        if keeps(after.runner, kept_after(store, texts(args@))) && call_ensures(
            read_shared_key::<R>,
            (after, reader),
            read,
        ) {
            law_stored_key_is_read(*after, store, username@, shared_key@, reader@, read);
        }
        assert(call_ensures(tool.runner, (args,), reply));
    }
}

/// A key that is deleted for a user is not there for that user after it, and what is read for every
/// other user is what was there before. Deleting succeeds, whether or not there was a key.
pub proof fn law_deleted_key_does_not_come_back<R: Fn(&Vec<String>) -> Result<SecurityResult>>(
    tool: &SecurityTool<R>,
    after: &SecurityTool<R>,
    store: Map<(Seq<char>, Seq<char>), Seq<char>>,
    username: &str,
    deleted: Result<()>,
    reader: &str,
    read: Result<Option<String>>,
)
    ensures
        call_ensures(delete_shared_key::<R>, (tool, username), deleted) && keeps(tool.runner, store)
            && keychain_supported(*tool) && keychain_supported(*after) && username@.len() > 0
            && reader@.len() > 0 ==> {
            &&& deleted is Ok
            &&& exists|args: &Vec<String>, reply: Result<SecurityResult>| #[trigger]
                call_ensures(tool.runner, (args,), reply) && (keeps(
                    after.runner,
                    kept_after(store, texts(args@)),
                ) && call_ensures(read_shared_key::<R>, (after, reader), read) ==> read is Ok
                    && opt_text(read->Ok_0) == if reader@ == username@ {
                    None
                } else {
                    kept_for(store, reader@)
                })
        },
{
    if call_ensures(delete_shared_key::<R>, (tool, username), deleted) && keeps(tool.runner, store)
        && keychain_supported(*tool) && keychain_supported(*after) && username@.len() > 0
        && reader@.len() > 0 {
        law_keychain_is_read_as_it_is(
            *tool,
            store,
            username@,
            username@,
            arbitrary(),
            arbitrary(),
            deleted,
        );
        let (args, reply) = choose|args: &Vec<String>, reply: Result<SecurityResult>| #[trigger]
            call_ensures(tool.runner, (args,), reply) && texts(args@) == delete_args(username@)
                && crate::secrets::delete_outcome(reply, deleted);
        if keeps(after.runner, kept_after(store, texts(args@))) && call_ensures(
            read_shared_key::<R>,
            (after, reader),
            read,
        ) {
            law_deleted_key_is_gone(*after, store, username@, reader@, read);
        }
        assert(call_ensures(tool.runner, (args,), reply));
    }
}

/// There is a keychain on macOS and nowhere else, unless it is said otherwise.
pub proof fn law_keychain_is_of_macos<R>(tool: &SecurityTool<R>, r: bool)
    ensures
        call_ensures(supports_keychain::<R>, (tool,), r) ==> {
            &&& tool.keychain_override is None ==> r == tool.on_macos
            &&& tool.keychain_override matches Some(value) ==> r == value
        },
{
}

/// A run that succeeded has not failed to find anything.
pub proof fn law_success_is_not_missing(result: &SecurityResult, r: bool)
    ensures
        call_ensures(is_not_found, (result,), r) && result.code == 0 ==> !r,
{
}

/// What the `security` tool printed is the key where the lookup succeeded; its complaint is the error
/// where it failed; and an item that is not there is no key, and no failure of a deletion.
pub proof fn law_tool_is_heard(
    reply: Result<SecurityResult>,
    missing: bool,
    found: Result<Option<String>>,
    stored: Result<()>,
    deleted: Result<()>,
)
    ensures
        call_ensures(interpret_lookup, (reply,), found) && call_ensures(
            interpret_store,
            (reply,),
            stored,
        ) && call_ensures(interpret_delete, (reply,), deleted) ==> match reply {
            Ok(result) => call_ensures(is_not_found, (&result,), missing) ==> {
                &&& result.code == 0 ==> found is Ok && opt_text(found->Ok_0) == Some(result.stdout@)
                    && stored is Ok && deleted is Ok
                &&& missing ==> found is Ok && found->Ok_0 is None && stored is Err && deleted is Ok
                &&& result.code != 0 && !missing ==> found is Err && stored is Err && deleted is Err
                &&& stored is Err ==> stored->Err_0.code == Status::InvalidConfig && (
                result.stderr@.len() > 0 ==> stored->Err_0.message@ == result.stderr@)
                &&& found is Err ==> found->Err_0.code == Status::InvalidConfig && (
                result.stderr@.len() > 0 ==> found->Err_0.message@ == result.stderr@)
                &&& deleted is Err ==> deleted->Err_0.code == Status::InvalidConfig && (
                result.stderr@.len() > 0 ==> deleted->Err_0.message@ == result.stderr@)
            },
            Err(error) => fails(found, error.code, error.message@) && fails(
                stored,
                error.code,
                error.message@,
            ) && fails(deleted, error.code, error.message@),
        },
{
}

/// A failed run whose complaint says that an item could not be found, or that there is no such item,
/// says that it is missing.
pub proof fn law_missing_item_is_told(
    result: &SecurityResult,
    front: Seq<char>,
    back: Seq<char>,
    r: bool,
)
    ensures
        call_ensures(is_not_found, (result,), r) && result.code != 0 && (result.stderr@ == front
            + "could not be found"@ + back || result.stderr@ == front + "no such item"@ + back
            || result.stderr@ == front + "not found"@ + back) ==> r,
{
    reveal_strlit("could not be found");
    reveal_strlit("no such item");
    reveal_strlit("not found");
    lemma_lowered_within(front, "could not be found"@, back);
    lemma_lowered_within(front, "no such item"@, back);
    lemma_lowered_within(front, "not found"@, back);
}

proof fn lemma_lowered_within(front: Seq<char>, part: Seq<char>, back: Seq<char>)
    requires
        forall|i: int| 0 <= i < part.len() ==> !('A' <= #[trigger] part[i] && part[i] <= 'Z'),
    ensures
        occurs_in(ascii_lowered(front + part + back), part),
{
    let whole = ascii_lowered(front + part + back);
    assert(whole =~= ascii_lowered(front) + part + ascii_lowered(back));
    lemma_within(ascii_lowered(front), part, ascii_lowered(back));
}

} // verus!
