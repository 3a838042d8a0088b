use apw::json::{parse_json, JsonValue};
use apw::types::{
    normalize_status, status_text, APWResponseEnvelope, Action, Command, MSGTypes, Message,
    RuntimeMode, SecretSessionVersion, Status,
};

fn json(text: &str) -> JsonValue {
    parse_json(text.as_bytes()).expect("JSON")
}

#[test]
fn normalize_status_maps_unknown_and_known_values() {
    assert_eq!(normalize_status(0), Status::Success);
    assert_eq!(normalize_status(99), Status::GenericError);
    assert_eq!(normalize_status(101), Status::CommunicationTimeout);
}

#[test]
fn status_text_supports_fallback_and_known_messages() {
    assert_eq!(status_text(Status::Success), "Operation successful");
    assert_eq!(
        status_text(Status::InvalidSession),
        "Invalid session, reauthenticate with `apw auth`"
    );
    assert_eq!(status_text(Status::GenericError), "A generic error occurred");
}

#[test]
fn every_status_has_a_number_of_its_own() {
    let known = [0, 1, 2, 3, 4, 5, 6, 7, 8, 9, 100, 101, 102, 103, 104];
    for code in known {
        let status = Status::of_code(code).expect("a status");
        assert_eq!(i64::from(status.code()), code);
        assert_eq!(i64::from(i32::from(status)), code);
    }
    assert!(Status::of_code(10).is_none());
    assert!(Status::of_code(-1).is_none());
    assert!(Status::of_code(105).is_none());
    assert!(Status::try_from(99i64).is_err());
    assert_eq!(Status::try_from(9i32).ok(), Some(Status::InvalidSession));
}

#[test]
fn a_status_is_read_from_numbers_and_texts() {
    assert_eq!(Status::deserialize(&json("3")), Some(Status::NoResults));
    assert_eq!(Status::deserialize(&json("77")), Some(Status::GenericError));
    assert_eq!(
        Status::deserialize(&json("18446744073709551615")),
        Some(Status::GenericError)
    );
    assert_eq!(Status::deserialize(&json("\"103\"")), Some(Status::ProcessNotRunning));
    assert_eq!(Status::deserialize(&json("null")), None);
    assert_eq!(Status::deserialize(&json("[0]")), None);
}

#[test]
fn modes_have_words_and_unknown_words_mean_auto() {
    let modes = [
        (RuntimeMode::Auto, "auto"),
        (RuntimeMode::Native, "native"),
        (RuntimeMode::Browser, "browser"),
        (RuntimeMode::Direct, "direct"),
        (RuntimeMode::Launchd, "launchd"),
        (RuntimeMode::Disabled, "disabled"),
    ];
    for (mode, word) in modes {
        assert_eq!(mode.as_str(), word);
        assert_eq!(RuntimeMode::deserialize(word), mode);
        assert_eq!(RuntimeMode::deserialize(&word.to_uppercase()), mode);
    }
    assert_eq!(RuntimeMode::deserialize("something"), RuntimeMode::Auto);
}

#[test]
fn protocol_numbers_are_those_of_the_helper() {
    assert_eq!(Command::Handshake.number(), 2);
    assert_eq!(Command::GetLoginNamesForUrl.number(), 4);
    assert_eq!(Command::GetPasswordForLoginName.number(), 5);
    assert_eq!(Command::GetCapabilities.number(), 14);
    assert_eq!(Command::GetOneTimeCodes.number(), 16);
    assert_eq!(Command::DidFillOneTimeCode.number(), 17);
    assert_eq!(MSGTypes::ServerKeyExchange.number(), 1);
    assert_eq!(MSGTypes::ServerVerification.number(), 3);
    assert_eq!(SecretSessionVersion::SrpWithRfcVerification.number(), 1);
    assert_eq!(Action::Search.word(), "Search");
    assert_eq!(Action::GhostSearch.word(), "GhostSearch");
}

#[test]
fn an_envelope_leaves_absent_parts_out() {
    let envelope = APWResponseEnvelope {
        ok: false,
        code: Status::InvalidParam,
        payload: None,
        error: Some("bad".to_string()),
        request_id: None,
    };
    let value = envelope.to_value();
    assert_eq!(value.get("ok"), Some(&JsonValue::Bool(false)));
    assert_eq!(value.get("code"), Some(&JsonValue::integer(2)));
    assert_eq!(value.get("error"), Some(&JsonValue::text("bad")));
    assert!(value.get("payload").is_none());
    assert!(value.get("requestId").is_none());
}

#[test]
fn a_message_leaves_absent_parts_out() {
    let message = Message {
        cmd: 14,
        payload: None,
        msg: None,
        capabilities: None,
        set_up_totp_page_url: None,
        set_up_totp_uri: None,
        url: Some("https://example.com".to_string()),
        tab_id: Some(1),
        frame_id: None,
    };
    let value = message.to_value();
    assert_eq!(value.get("cmd"), Some(&JsonValue::integer(14)));
    assert_eq!(value.get("url"), Some(&JsonValue::text("https://example.com")));
    assert_eq!(value.get("tabId"), Some(&JsonValue::integer(1)));
    assert!(value.get("frameId").is_none());
    assert!(value.get("payload").is_none());
}
