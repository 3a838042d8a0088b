use apw::bignum::{mod_, powermod, BigUint};
use apw::codec::{bigint_to_base64, decode_base64_or_hex, read_bigint, to_base64, to_hex};
use apw::crypto::{random_bytes, sha256, CipherFailure};
use apw::json::{parse_json, to_json, JsonValue};
use apw::srp::{
    accept_plaintext, assemble_payload, build_client_key_exchange, group_prime,
    is_valid_pake_message, parse_pake_message_to_struct, parse_pake_message_type, SRPSession,
    SessionValues,
};
use apw::types::{MSGTypes, SecretSessionVersion, Status};
use base64::Engine;
use rand::{thread_rng, Rng, RngCore};

fn json(text: &str) -> JsonValue {
    parse_json(text.as_bytes()).expect("JSON")
}

fn set(candidate: JsonValue, key: &str, value: JsonValue) -> JsonValue {
    candidate.with(key, value)
}

fn without(candidate: JsonValue, key: &str) -> JsonValue {
    match candidate {
        JsonValue::Object(members) => {
            JsonValue::Object(members.into_iter().filter(|(name, _)| name != key).collect())
        }
        other => other,
    }
}

fn session_with_key(key: &[u8]) -> SRPSession {
    let mut session = SRPSession::new(true);
    session.update_with_values(SessionValues {
        username: Some("alice".to_string()),
        shared_key: Some(BigUint::from_bytes_be(key)),
        client_private_key: None,
        salt: None,
        server_public_key: None,
    });
    session
}

#[test]
fn valid_pake_message_is_accepted() {
    let message = JsonValue::object()
        .with("TID", JsonValue::text("user"))
        .with("MSG", JsonValue::integer(MSGTypes::ServerVerification.number()))
        .with("A", JsonValue::text("1"))
        .with("s", JsonValue::text("1"))
        .with("B", JsonValue::text("1"))
        .with("PROTO", JsonValue::integer(1))
        .with("VER", JsonValue::integer(1));

    assert!(is_valid_pake_message(&message));
}

#[test]
fn invalid_pake_missing_fields_is_rejected() {
    let message = json(
        "{\"TID\":\"\",\"MSG\":\"1\",\"A\":\"abc\",\"s\":\"abc\",\"B\":\"abc\",\"PROTO\":1}",
    );
    assert!(!is_valid_pake_message(&message));
}

#[test]
fn hamk_verification_is_constant_time_style_guarded() {
    let session = SRPSession::new(true);
    assert!(session.verify_hamk(&[1, 2, 3], &[1, 2, 3]));
    assert!(!session.verify_hamk(&[1, 2, 3], &[1, 2, 4]));
    assert!(!session.verify_hamk(&[], &[1, 2, 3]));
}

#[test]
fn decode_base64_or_hex_roundtrip_property() {
    let mut rng = thread_rng();
    for _ in 0..512 {
        let len = rng.gen_range(0..256usize);
        let mut bytes = vec![0_u8; len];
        rng.fill_bytes(&mut bytes);

        let encoded_base64 = hex::encode(&bytes);
        let decoded_hex = decode_base64_or_hex(&format!("0x{encoded_base64}"), false).unwrap();
        assert_eq!(
            decoded_hex.to_bytes_be(),
            BigUint::from_bytes_be(&bytes).to_bytes_be()
        );

        let encoded_base64 = base64::engine::general_purpose::STANDARD.encode(&bytes);
        let decoded_base64 = decode_base64_or_hex(&encoded_base64, true).unwrap();
        assert_eq!(
            decoded_base64.to_bytes_be(),
            BigUint::from_bytes_be(&bytes).to_bytes_be()
        );
    }
}

#[test]
fn is_valid_pake_message_rejects_mutated_inputs() {
    let mut rng = thread_rng();
    for _ in 0..2048 {
        let base = JsonValue::object()
            .with("TID", JsonValue::text("alice"))
            .with("MSG", JsonValue::integer(MSGTypes::ServerVerification.number()))
            .with("A", JsonValue::text("AQ=="))
            .with("s", JsonValue::text("AQ=="))
            .with("B", JsonValue::text("AQ=="))
            .with(
                "PROTO",
                JsonValue::Array(vec![JsonValue::integer(
                    SecretSessionVersion::SrpWithRfcVerification.number(),
                )]),
            )
            .with("VER", JsonValue::text("1"))
            .with("ErrCode", JsonValue::integer(0))
            .with("HAMK", JsonValue::text("AQ=="));
        assert!(is_valid_pake_message(&base));

        let candidate = match rng.gen_range(0..8) {
            0 => set(base, "TID", JsonValue::text("")),
            1 => set(base, "MSG", JsonValue::Array(Vec::new())),
            2 => without(base, "A"),
            3 => set(base, "PROTO", JsonValue::Array(vec![JsonValue::text("bad")])),
            4 => set(base, "ErrCode", JsonValue::text("bad")),
            5 => set(base, "A", JsonValue::text("")),
            6 => set(base, "VER", JsonValue::text("")),
            _ => set(base, "HAMK", JsonValue::text("")),
        };

        assert!(
            !is_valid_pake_message(&candidate),
            "candidate must be rejected: {candidate:?}"
        );
    }
}

#[test]
fn numeric_tokens_are_numbers_texts_and_first_items() {
    assert_eq!(parse_pake_message_type(&json("3")), Some(3));
    assert_eq!(parse_pake_message_type(&json("\"-7\"")), Some(-7));
    assert_eq!(parse_pake_message_type(&json("[[\"1\"],2]")), Some(1));
    assert_eq!(parse_pake_message_type(&json("[]")), None);
    assert_eq!(parse_pake_message_type(&json("\"x\"")), None);
    assert_eq!(parse_pake_message_type(&json("1.5")), None);
    assert_eq!(parse_pake_message_type(&json("true")), None);
}

#[test]
fn a_message_is_read_into_its_parts() {
    let message = parse_pake_message_to_struct(&json(
        "{\"TID\":\"t\",\"MSG\":1,\"A\":\"a\",\"s\":\"s\",\"B\":\"b\",\"PROTO\":[1],\"HAMK\":\"h\"}",
    ))
    .unwrap();
    assert_eq!(message.TID, "t");
    assert_eq!(message.A, "a");
    assert_eq!(message.HAMK, Some("h".to_string()));
    assert!(message.VER.is_none());
    assert!(parse_pake_message_to_struct(&json("{\"TID\":\"t\"}")).is_err());
    assert!(parse_pake_message_to_struct(&json("7")).is_err());
}

#[test]
fn both_sides_come_to_the_same_session_key() {
    // The server holds the verifier of the password and picks its own private key.
    let username = "alice";
    let pin = "123456";
    let salt = BigUint::from_byte(7);
    let server_private = BigUint::from_byte(9);
    let modulus = group_prime();
    let generator = BigUint::from_byte(5);
    let padded = |n: &BigUint| apw::utils::pad(&n.to_bytes_be(), 384);

    let mut identity = username.as_bytes().to_vec();
    identity.extend_from_slice(format!(":{pin}").as_bytes());
    let mut salted = padded(&salt);
    salted.extend_from_slice(&sha256(&identity));
    let x = BigUint::from_bytes_be(&sha256(&salted));
    let verifier = powermod(&generator, &x, &modulus).unwrap();

    let mut k_input = padded(&modulus);
    k_input.extend_from_slice(&padded(&generator));
    let k = BigUint::from_bytes_be(&sha256(&k_input));
    let server_public = mod_(
        &k.times(&verifier).plus(&powermod(&generator, &server_private, &modulus).unwrap()),
        &modulus,
    );

    let mut client = SRPSession::from_seed(&[3; 32], &[1; 16], true);
    client.update_with_values(SessionValues {
        username: Some(username.to_string()),
        shared_key: None,
        client_private_key: None,
        salt: None,
        server_public_key: None,
    });
    client
        .set_server_public_key(server_public.copy(), salt.copy())
        .unwrap();
    let client_key = client.set_shared_key(pin).unwrap();

    let client_public = client.client_public_key();
    let mut u_input = padded(&client_public);
    u_input.extend_from_slice(&padded(&server_public));
    let u = BigUint::from_bytes_be(&sha256(&u_input));
    let base = mod_(
        &client_public.times(&powermod(&verifier, &u, &modulus).unwrap()),
        &modulus,
    );
    let secret = powermod(&base, &server_private, &modulus).unwrap();
    let server_key = BigUint::from_bytes_be(&sha256(&secret.to_bytes_be()));

    assert_eq!(client_key.to_bytes_be(), server_key.to_bytes_be());
    let other = {
        let mut again = SRPSession::from_seed(&[3; 32], &[1; 16], true);
        again.update_with_values(SessionValues {
            username: Some(username.to_string()),
            shared_key: None,
            client_private_key: None,
            salt: Some(salt),
            server_public_key: Some(server_public),
        });
        again.set_shared_key("654321").unwrap()
    };
    assert!(client_key.to_bytes_be() != other.to_bytes_be());
}

#[test]
fn a_key_exchange_needs_the_values_of_the_server() {
    let mut session = SRPSession::new(true);
    let error = session.set_shared_key("123456").unwrap_err();
    assert_eq!(error.code, Status::InvalidSession);
    assert_eq!(error.message, "Invalid session state: missing handshake values");
    assert_eq!(session.compute_m().unwrap_err().message, "Invalid session state: missing salt");
    assert_eq!(session.compute_hmac(&[1]).unwrap_err().code, Status::InvalidSession);

    let zero = session
        .set_server_public_key(BigUint::zero(), BigUint::from_byte(1))
        .unwrap_err();
    assert_eq!(zero.code, Status::InvalidSession);
    assert_eq!(zero.message, "Invalid server hello: invalid public key");
    let multiple = session
        .set_server_public_key(group_prime(), BigUint::from_byte(1))
        .unwrap_err();
    assert_eq!(multiple.message, "Invalid server hello: invalid public key");
    assert!(session.set_server_public_key(BigUint::from_byte(3), BigUint::from_byte(1)).is_ok());
}

#[test]
fn what_is_encrypted_is_decrypted_again() {
    let session = session_with_key(&[1; 16]);
    let value = json("{\"ACT\":5,\"URL\":\"https://example.com\",\"list\":[1,null,true]}");
    let sealed = session.encrypt(&value).unwrap();
    assert_eq!(sealed.len(), 16 + to_json(&value).len() + 16);
    let opened = session.decrypt(&sealed).unwrap();
    assert_eq!(opened, to_json(&value));
    assert_eq!(parse_json(&opened), Some(value));

    let mut changed = sealed.clone();
    changed[20] ^= 1;
    let error = session.decrypt(&changed).unwrap_err();
    assert_eq!(error.code, Status::ProtoInvalidResponse);
    assert_eq!(error.message, "Failed to decrypt payload.");
    let other = session_with_key(&[2; 16]);
    assert!(other.decrypt(&sealed).is_err());
}

#[test]
fn encryption_needs_a_key_that_is_long_enough() {
    let none = SRPSession::new(true);
    assert_eq!(none.encrypt(&json("1")).unwrap_err().code, Status::InvalidSession);
    assert_eq!(none.decrypt(&[0; 40]).unwrap_err().code, Status::InvalidSession);
    let short = session_with_key(&[1; 15]);
    let error = short.encrypt(&json("1")).unwrap_err();
    assert_eq!(error.message, "Shared key too short.");
    assert_eq!(short.decrypt(&[0; 40]).unwrap_err().message, "Shared key too short.");
    let session = session_with_key(&[1; 16]);
    assert_eq!(
        session.decrypt(&[0; 16]).unwrap_err().message,
        "Invalid server response payload."
    );
    assert_eq!(
        session.decrypt(&[0; 32]).unwrap_err().message,
        "Invalid server response payload."
    );
    for length in 0..33 {
        let error = session.decrypt(&vec![0; length]).unwrap_err();
        assert_eq!(error.code, Status::ProtoInvalidResponse);
    }
}

#[test]
fn the_outcome_of_the_cipher_is_passed_on() {
    let nonce = vec![1, 2];
    assert_eq!(
        assemble_payload(&nonce, Ok((vec![3], vec![4, 5]))).unwrap(),
        vec![1, 2, 3, 4, 5]
    );
    assert_eq!(
        assemble_payload(&nonce, Err(CipherFailure::Setup)).unwrap_err().message,
        "Invalid encryption key."
    );
    assert_eq!(
        assemble_payload(&nonce, Err(CipherFailure::Run)).unwrap_err().message,
        "Encryption failed."
    );
    assert_eq!(accept_plaintext(Ok(vec![9])).unwrap(), vec![9]);
    assert_eq!(
        accept_plaintext(Err(CipherFailure::Setup)).unwrap_err().code,
        Status::ServerError
    );
    assert_eq!(
        accept_plaintext(Err(CipherFailure::Mismatch)).unwrap_err().message,
        "Failed to decrypt payload."
    );
}

#[test]
fn the_values_of_a_session_make_the_same_session() {
    let mut session = session_with_key(&[7; 16]);
    session
        .set_server_public_key(BigUint::from_byte(11), BigUint::from_byte(12))
        .unwrap();
    let mut copy = SRPSession::new(true);
    copy.update_with_values(session.return_values());
    assert_eq!(copy.username, session.username);
    assert_eq!(
        copy.client_public_key().to_bytes_be(),
        session.client_public_key().to_bytes_be()
    );
    assert_eq!(copy.compute_m().unwrap(), session.compute_m().unwrap());
    assert_eq!(
        copy.compute_hmac(&[1, 2]).unwrap(),
        session.compute_hmac(&[1, 2]).unwrap()
    );
}

#[test]
fn texts_of_a_session_are_base64_or_hexadecimal() {
    let base64_session = SRPSession::from_seed(&[1], &[0xff, 0x00], true);
    assert_eq!(base64_session.username, "/wA=");
    assert_eq!(base64_session.serialize(&[1, 2], true), "AQI=");
    assert_eq!(base64_session.deserialize("AQI=").unwrap(), vec![1, 2]);
    assert_eq!(base64_session.deserialize("0x0102").unwrap(), vec![1, 2]);
    // What reads as base64 is taken for base64.
    assert_eq!(base64_session.deserialize("0xff").unwrap(), vec![211, 23, 223]);
    assert_eq!(
        base64_session.deserialize("*").unwrap_err().message,
        "Invalid base64 value."
    );
    let hex_session = SRPSession::from_seed(&[1], &[0xff, 0x00], false);
    assert_eq!(hex_session.username, "0xff00");
    assert_eq!(hex_session.serialize(&[1, 2], true), "0x0102");
    assert_eq!(hex_session.serialize(&[1, 2], false), "0102");
    assert_eq!(hex_session.deserialize("0x0102").unwrap(), vec![1, 2]);
    assert_eq!(hex_session.deserialize("zz").unwrap_err().message, "Invalid hex value.");
}

#[test]
fn the_first_message_names_the_session_and_its_public_key() {
    let session = SRPSession::from_seed(&[1], &[9; 16], true);
    let message = build_client_key_exchange(&session);
    assert_eq!(
        message.get("TID").and_then(JsonValue::as_str),
        Some(&session.username)
    );
    assert_eq!(message.get("MSG").and_then(JsonValue::as_i64), Some(0));
    // With one for its private key, the public key is the generator.
    assert_eq!(session.client_public_key().to_bytes_be(), vec![5]);
    let text = message.get("A").and_then(JsonValue::as_str).expect("a key");
    assert_eq!(
        base64::engine::general_purpose::STANDARD.decode(text).unwrap(),
        vec![5]
    );
}

#[test]
fn numbers_and_bytes_have_texts() {
    assert_eq!(to_base64(b"hello"), "aGVsbG8=");
    assert_eq!(to_hex(&[0, 171, 255]), "00abff");
    let number = BigUint::from_bytes_be(&[0, 1, 2]);
    assert_eq!(bigint_to_base64(&number), "AQI=");
    assert_eq!(read_bigint("AQI=").unwrap().to_bytes_be(), vec![1, 2]);
    let error = read_bigint("not base64").unwrap_err();
    assert_eq!(error.code, Status::InvalidConfig);
    assert_eq!(error.message, "Invalid config payload format.");
}

#[test]
fn digests_and_random_bytes_come_from_their_crates() {
    assert_eq!(
        to_hex(&sha256(b"abc")),
        "ba7816bf8f01cfea414140de5dae2223b00361a396177a9cb410ff61f20015ad"
    );
    assert_eq!(random_bytes(16).len(), 16);
    assert!(random_bytes(16) != random_bytes(16));
    assert!(random_bytes(0).is_empty());
}

#[test]
fn the_modulus_of_the_group_is_kept_digit_for_digit() {
    let digits = [
        "FFFFFFFFFFFFFFFFC90FDAA22168C234C4C6628B80DC1CD129024E088A67CC74020BBEA63B139B22",
        "514087098E3404DDEF9519B3CD3A431B302B0A6DF25F14374FE1356D6D51C245E485B576625E7EC6",
        "F44C42E9A637ED6B0BFF5CB6F406B7EDEE386BFB5A899FA5AE9F24117C4B1FE649286651ECE45B3D",
        "C2007CB8A163BF0598DA48361C55D39A69163FA8FD24CF5F83655D23DCA3AD96E1C62F356208552B",
        "B9ED529077096966D670C354E4ABC9804F1746C08CA18217C32905E462E36CE3BE39E772C180E860",
        "39B2783A2EC07A28FB5C55DF06F4C52C9DE2BCB695817183995497CEA956AE515D2261898FA0510F",
        "15728E5A8AAC42DAD33170D04507A33A85521ABD1CBA64ECFB850458DBEF0A8AEA71575D060C7DB3",
        "970F85A6E1E4C7ABF5AE8CDB0933D71C94C4A25619DCEE3E2261AD2EE6BF12FFA06D98A0864D8760",
        "2733EC86A64521F2B18177B200CBBE117577615D6C770988CBD946E208E24FA074E5AB3143DB5BFE",
        "0FD108E4B82D120A93AD2CAFFFFFFFFFFFFFFFF",
    ]
    .concat();
    assert_eq!(digits.len(), 759);
    let bytes = hex::decode(format!("0{digits}")).unwrap();
    assert_eq!(group_prime(), BigUint::from_bytes_be(&bytes));
}
