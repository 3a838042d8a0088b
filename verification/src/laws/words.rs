//! The words and numbers that stand for modes and statuses.
use crate::client::parse_status_code;
use crate::json::{Json, JsonValue};
use crate::laws::basics::lemma_decimal_reads;
use crate::laws::names::lemma_status_words;
use crate::text::{decimal, integer_of, lowercased};
use crate::types::{Command, MSGTypes, RuntimeMode, Status};
use vstd::prelude::*;

verus! {

/// The word for a runtime mode on the command line, in reports and in the configuration file.
pub open spec fn mode_text(mode: RuntimeMode) -> Seq<char> {
    match mode {
        RuntimeMode::Auto => "auto"@,
        RuntimeMode::Native => "native"@,
        RuntimeMode::Browser => "browser"@,
        RuntimeMode::Direct => "direct"@,
        RuntimeMode::Launchd => "launchd"@,
        RuntimeMode::Disabled => "disabled"@,
    }
}

/// A mode is reported by its word, and the word names the mode again.
pub proof fn law_mode_and_word(
    mode: RuntimeMode,
    word: &'static str,
    text: &str,
    named: RuntimeMode,
)
    ensures
        call_ensures(RuntimeMode::as_str, (mode,), word) ==> word@ == mode_text(mode),
        text@ == mode_text(mode) && call_ensures(RuntimeMode::of_word, (text,), named) ==> named
            == mode,
{
    crate::types::law_mode_word_round_trip(mode);
}

/// The number of a status, as the program ends with it and as it stands in every envelope.
pub open spec fn status_number(status: Status) -> int {
    match status {
        Status::Success => 0,
        Status::GenericError => 1,
        Status::InvalidParam => 2,
        Status::NoResults => 3,
        Status::FailedToDelete => 4,
        Status::FailedToUpdate => 5,
        Status::InvalidMessageFormat => 6,
        Status::DuplicateItem => 7,
        Status::UnknownAction => 8,
        Status::InvalidSession => 9,
        Status::ServerError => 100,
        Status::CommunicationTimeout => 101,
        Status::InvalidConfig => 102,
        Status::ProcessNotRunning => 103,
        Status::ProtoInvalidResponse => 104,
    }
}

/// A status is written as its number, and the number is read as the status, bare and in JSON. A
/// number that is none is no status, and a generic error where one has to be.
pub proof fn law_status_and_number(
    status: Status,
    code: i32,
    number: i64,
    read: Option<Status>,
    normalized: Status,
    value: &JsonValue,
    in_json: Option<Status>,
)
    ensures
        call_ensures(Status::code, (status,), code) ==> code == status_number(status),
        call_ensures(Status::of_code, (number,), read) ==> {
            &&& number == status_number(status) ==> read == Some(status)
            &&& read matches Some(found) ==> number == status_number(found)
        },
        call_ensures(crate::utils::normalize_status_code, (number,), normalized) ==> {
            &&& number == status_number(status) ==> normalized == status
            &&& number != status_number(normalized) ==> normalized == Status::GenericError
        },
        call_ensures(Status::deserialize, (value,), in_json) && value@ == Json::Int(
            status_number(status),
        ) ==> in_json == Some(status),
{
}

/// The name of a status in an envelope.
pub open spec fn status_name(status: Status) -> Seq<char> {
    match status {
        Status::Success => "Success"@,
        Status::GenericError => "GenericError"@,
        Status::InvalidParam => "InvalidParam"@,
        Status::NoResults => "NoResults"@,
        Status::FailedToDelete => "FailedToDelete"@,
        Status::FailedToUpdate => "FailedToUpdate"@,
        Status::InvalidMessageFormat => "InvalidMessageFormat"@,
        Status::DuplicateItem => "DuplicateItem"@,
        Status::UnknownAction => "UnknownAction"@,
        Status::InvalidSession => "InvalidSession"@,
        Status::ServerError => "ServerError"@,
        Status::CommunicationTimeout => "CommunicationTimeout"@,
        Status::InvalidConfig => "InvalidConfig"@,
        Status::ProcessNotRunning => "ProcessNotRunning"@,
        Status::ProtoInvalidResponse => "ProtoInvalidResponse"@,
    }
}

/// The word for a status in a configuration or a reply, in lower case.
pub open spec fn status_word(status: Status) -> Seq<char> {
    match status {
        Status::Success => "success"@,
        Status::GenericError => "generic_error"@,
        Status::InvalidParam => "invalid_param"@,
        Status::NoResults => "no_results"@,
        Status::FailedToDelete => "failed_to_delete"@,
        Status::FailedToUpdate => "failed_to_update"@,
        Status::InvalidMessageFormat => "invalid_message_format"@,
        Status::DuplicateItem => "duplicate_item"@,
        Status::UnknownAction => "unknown_action"@,
        Status::InvalidSession => "invalid_session"@,
        Status::ServerError => "server_error"@,
        Status::CommunicationTimeout => "communication_timeout"@,
        Status::InvalidConfig => "invalid_config"@,
        Status::ProcessNotRunning => "process_not_running"@,
        Status::ProtoInvalidResponse => "proto_invalid_response"@,
    }
}

proof fn lemma_no_digits(text: Seq<char>)
    requires
        text.len() > 0,
        !('0' <= text[0] && text[0] <= '9') && text[0] != '-' && text[0] != '+',
    ensures
        integer_of(text) is None,
{
    assert(!crate::text::is_digit(text[0]));
}

proof fn lemma_names_are_no_numbers(status: Status)
    ensures
        integer_of(status_name(status)) is None,
        integer_of(status_word(status)) is None,
{
    match status {
        Status::Success => {
            reveal_strlit("Success");
            reveal_strlit("success");
        },
        Status::GenericError => {
            reveal_strlit("GenericError");
            reveal_strlit("generic_error");
        },
        Status::InvalidParam => {
            reveal_strlit("InvalidParam");
            reveal_strlit("invalid_param");
        },
        Status::NoResults => {
            reveal_strlit("NoResults");
            reveal_strlit("no_results");
        },
        Status::FailedToDelete => {
            reveal_strlit("FailedToDelete");
            reveal_strlit("failed_to_delete");
        },
        Status::FailedToUpdate => {
            reveal_strlit("FailedToUpdate");
            reveal_strlit("failed_to_update");
        },
        Status::InvalidMessageFormat => {
            reveal_strlit("InvalidMessageFormat");
            reveal_strlit("invalid_message_format");
        },
        Status::DuplicateItem => {
            reveal_strlit("DuplicateItem");
            reveal_strlit("duplicate_item");
        },
        Status::UnknownAction => {
            reveal_strlit("UnknownAction");
            reveal_strlit("unknown_action");
        },
        Status::InvalidSession => {
            reveal_strlit("InvalidSession");
            reveal_strlit("invalid_session");
        },
        Status::ServerError => {
            reveal_strlit("ServerError");
            reveal_strlit("server_error");
        },
        Status::CommunicationTimeout => {
            reveal_strlit("CommunicationTimeout");
            reveal_strlit("communication_timeout");
        },
        Status::InvalidConfig => {
            reveal_strlit("InvalidConfig");
            reveal_strlit("invalid_config");
        },
        Status::ProcessNotRunning => {
            reveal_strlit("ProcessNotRunning");
            reveal_strlit("process_not_running");
        },
        Status::ProtoInvalidResponse => {
            reveal_strlit("ProtoInvalidResponse");
            reveal_strlit("proto_invalid_response");
        },
    }
    lemma_no_digits(status_name(status));
    lemma_no_digits(status_word(status));
}

/// The code of an envelope is read as the status that it is the number of, bare or in text, or the
/// name of; and no other name is read as a status.
pub proof fn law_code_of_an_envelope(
    status: Status,
    value: &JsonValue,
    name: Seq<char>,
    r: Option<Status>,
)
    ensures
        call_ensures(parse_status_code, (value,), r) ==> {
            &&& value@ == Json::Int(status_number(status)) ==> r == Some(status)
            &&& value@ == Json::Str(decimal(status_number(status) as nat)) ==> r == Some(status)
            &&& value@ == Json::Str(status_name(status)) ==> r == Some(status)
            &&& value@ == Json::Str(name) && integer_of(name) is None && r is Some ==> name
                == status_name(r->0)
            &&& !(value@ is Int) && !(value@ is Str) ==> r is None
        },
{
    lemma_status_words();
    lemma_names_are_no_numbers(status);
    lemma_decimal_reads(status_number(status) as nat);
}

/// Text is read as the status that it writes the number of, or that its lower-case form is the word
/// for; as a generic error where it is neither.
pub proof fn law_status_in_text(status: Status, text: &str, r: Status)
    ensures
        call_ensures(Status::of_text, (text,), r) ==> {
            &&& text@ == decimal(status_number(status) as nat) ==> r == status
            &&& integer_of(text@) is None && lowercased(text@) == status_word(status) ==> r == status
            &&& integer_of(text@) is None && lowercased(text@) != status_word(r) ==> r
                == Status::GenericError
        },
{
    lemma_status_words();
    lemma_decimal_reads(status_number(status) as nat);
}

/// Two commands are told apart by their numbers, and so are two steps of the key exchange.
pub proof fn law_numbers_tell_apart(
    command: Command,
    other: Command,
    first: i32,
    second: i32,
    step: MSGTypes,
    next: MSGTypes,
    here: i64,
    there: i64,
)
    ensures
        call_ensures(Command::number, (command,), first) && call_ensures(
            Command::number,
            (other,),
            second,
        ) && first == second ==> command == other,
        call_ensures(MSGTypes::number, (step,), here) && call_ensures(
            MSGTypes::number,
            (next,),
            there,
        ) && here == there ==> step == next,
        call_ensures(MSGTypes::number, (MSGTypes::ClientKeyExchange,), here) ==> here == 0,
        call_ensures(MSGTypes::number, (MSGTypes::ServerVerification,), here) ==> here == 3,
{
}

} // verus!
