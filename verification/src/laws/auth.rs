//! The key exchange as the server sees it, and what the client's side has to do with it.
use crate::bignum::{be_bytes, be_value, power_mod, BigUint};
use crate::crypto::sha256_digest;
use crate::error::Result;
use crate::json::{json_parsed, json_text, plain, JsonValue};
use crate::laws::queries::{lemma_seals_under, seals_under, writes_bytes};
use crate::srp::{
    client_proof, group_bytes, group_modulus, law_both_sides_agree, law_encrypted_value_decrypts,
    lemma_group_modulus, lemma_power_mod_is_remainder, password_verifier, server_public_value,
    session_key, unmasked, xored, SRPSession, SessionModel,
};
use vstd::arithmetic::div_mod::{lemma_basic_div, lemma_div_denominator};
use vstd::arithmetic::power::{lemma_pow0, lemma_pow1, lemma_pow_adds, lemma_pow_positive, pow};
use vstd::prelude::*;
use vstd::utf8::encode_utf8;

verus! {

/// A number in 384 places to the base of 256, the highest first.
pub open spec fn wide(n: nat) -> Seq<u8> {
    Seq::new(384, |i: int| (n as int / pow(256, (383 - i) as nat) % 256) as u8)
}

/// A power in the group.
pub open spec fn residue(base: nat, exponent: nat) -> nat {
    (pow(base as int, exponent) % (group_modulus() as int)) as nat
}

/// The secret exponent of a user with a PIN under a salt.
pub open spec fn server_exponent(user: Seq<char>, pin: Seq<char>, salt: nat) -> nat {
    be_value(sha256_digest(wide(salt) + sha256_digest(encode_utf8(user + ":"@ + pin))))
}

/// What the server knows of the PIN.
pub open spec fn server_verifier(user: Seq<char>, pin: Seq<char>, salt: nat) -> nat {
    residue(5, server_exponent(user, pin, salt))
}

/// The public key that the server sends, for its private key.
pub open spec fn server_hello(user: Seq<char>, pin: Seq<char>, salt: nat, private: nat) -> nat {
    let k = be_value(sha256_digest(wide(group_modulus()) + wide(5)));
    (k * server_verifier(user, pin, salt) + residue(5, private)) % group_modulus()
}

/// The digest of both public keys.
pub open spec fn both_keys(client_public: nat, server_public: nat) -> Seq<u8> {
    sha256_digest(wide(client_public) + wide(server_public))
}

/// The session key as the server computes it.
pub open spec fn server_key(
    user: Seq<char>,
    pin: Seq<char>,
    salt: nat,
    private: nat,
    client_public: nat,
) -> nat {
    let u = be_value(both_keys(client_public, server_hello(user, pin, salt, private)));
    let half = client_public * residue(server_verifier(user, pin, salt), u);
    be_value(sha256_digest(be_bytes(residue(half, private))))
}

/// What the server takes the digest of to check that the client knows the session key.
pub open spec fn proof_text(
    user: Seq<char>,
    salt: nat,
    client_public: nat,
    server_public: nat,
    key: nat,
) -> Seq<u8> {
    let n = sha256_digest(wide(group_modulus()));
    let g = sha256_digest(wide(5));
    Seq::new(n.len(), |i: int| n[i] ^ g[i]) + sha256_digest(encode_utf8(user)) + wide(salt) + wide(
        client_public,
    ) + wide(server_public) + wide(key) + both_keys(client_public, server_public)
}

/// The proof of the session key that the server expects of the client.
pub open spec fn expected_proof(
    user: Seq<char>,
    salt: nat,
    client_public: nat,
    server_public: nat,
    key: nat,
) -> Seq<u8> {
    sha256_digest(proof_text(user, salt, client_public, server_public, key))
}

/// The proof of the session key that the server gives in return.
pub open spec fn returned_proof(client_public: nat, client_proof: Seq<u8>, key: nat) -> Seq<u8> {
    sha256_digest(be_bytes(client_public) + client_proof + be_bytes(key))
}

proof fn lemma_digit(n: nat, k: nat)
    ensures
        ({
            let bytes = be_bytes(n);
            &&& k < bytes.len() ==> bytes[bytes.len() - 1 - k] == (n as int / pow(256, k) % 256)
            &&& k >= bytes.len() ==> n as int / pow(256, k) == 0
        }),
    decreases n,
{
    lemma_pow0(256);
    if k == 0 {
        assert(n as int / 1 == n);
    } else {
        let below = (k - 1) as nat;
        lemma_pow1(256);
        lemma_pow_adds(256, 1, below);
        lemma_pow_positive(256, below);
        lemma_div_denominator(n as int, 256, pow(256, below));
        assert(n as int / pow(256, k) == n as int / 256 / pow(256, below));
        if n < 256 {
            assert(n as int / 256 == 0);
            lemma_basic_div(0, pow(256, below));
        } else {
            lemma_digit(n / 256, below);
            let high = be_bytes(n / 256);
            assert(be_bytes(n) == high.push((n % 256) as u8));
        }
    }
}

proof fn lemma_wide(n: nat)
    ensures
        group_bytes(n) == wide(n),
{
    let bytes = be_bytes(n);
    assert forall|i: int| 0 <= i < 384 implies #[trigger] group_bytes(n)[i] == wide(n)[i] by {
        lemma_digit(n, (383 - i) as nat);
    }
    assert(group_bytes(n) =~= wide(n));
}

pub(crate) proof fn lemma_residue(base: nat, exponent: nat)
    ensures
        power_mod(base, exponent, group_modulus()) == residue(base, exponent),
{
    lemma_group_modulus();
    lemma_power_mod_is_remainder(base, exponent, group_modulus());
}

proof fn lemma_wide_differs(a: nat, b: nat)
    requires
        a != b,
        be_bytes(a).len() <= 384,
        be_bytes(b).len() <= 384,
    ensures
        wide(a) != wide(b),
{
    lemma_wide(a);
    lemma_wide(b);
    crate::utils::law_pad_keeps_value(be_bytes(a), 384);
    crate::utils::law_pad_keeps_value(be_bytes(b), 384);
    crate::bignum::lemma_be_round_trip(a);
    crate::bignum::lemma_be_round_trip(b);
}

/// The client's public key is the generator to the power of its private key.
pub proof fn law_public_key_is_a_power(session: &SRPSession, r: BigUint)
    ensures
        call_ensures(SRPSession::client_public_key, (session,), r) ==> r@ == residue(
            5,
            session@.client_private_key,
        ),
{
    lemma_residue(5, session@.client_private_key);
}

pub(crate) proof fn lemma_client_proof(session: SessionModel)
    ensures
        client_proof(session) == expected_proof(
            session.username,
            session.salt->0,
            residue(5, session.client_private_key),
            session.server_public_key->0,
            session.shared_key->0,
        ),
{
    lemma_residue(5, session.client_private_key);
    let a = residue(5, session.client_private_key);
    lemma_wide(group_modulus());
    lemma_wide(5);
    lemma_wide(a);
    lemma_wide(session.salt->0);
    lemma_wide(session.server_public_key->0);
    lemma_wide(session.shared_key->0);
    let n = sha256_digest(wide(group_modulus()));
    let g = sha256_digest(wide(5));
    assert(xored(n, g) =~= Seq::new(n.len(), |i: int| n[i] ^ g[i]));
}

/// The client's proof is the one that the server expects for the session key.
pub proof fn law_proof_is_the_expected_one(session: &SRPSession, r: Result<Vec<u8>>)
    ensures
        call_ensures(SRPSession::compute_m, (session,), r) ==> {
            &&& r is Ok <==> session@.salt is Some && session@.server_public_key is Some
                && session@.shared_key is Some
            &&& r is Ok ==> r->Ok_0@ == expected_proof(
                session@.username,
                session@.salt->0,
                residue(5, session@.client_private_key),
                session@.server_public_key->0,
                session@.shared_key->0,
            )
        },
{
    lemma_client_proof(session@);
}

/// The client's proof depends on the session key: what it is the digest of ends in the key in 384
/// places and the digest of both public keys, and for two sessions that differ only in their key it
/// is not the same.
pub proof fn law_proof_binds_the_key(
    a: &SRPSession,
    b: &SRPSession,
    of_a: Result<Vec<u8>>,
    of_b: Result<Vec<u8>>,
)
    ensures
        call_ensures(SRPSession::compute_m, (a,), of_a) && call_ensures(
            SRPSession::compute_m,
            (b,),
            of_b,
        ) && of_a is Ok && b@ == (SessionModel { shared_key: b@.shared_key, ..a@ })
            && b@.shared_key is Some && a@.shared_key != b@.shared_key && be_bytes(
            a@.shared_key->0,
        ).len() <= 384 && be_bytes(b@.shared_key->0).len() <= 384 ==> {
            let public = residue(5, a@.client_private_key);
            let tail = both_keys(public, a@.server_public_key->0);
            exists|front: Seq<u8>|
                {
                    &&& of_a->Ok_0@ == #[trigger] sha256_digest(
                        front + wide(a@.shared_key->0) + tail,
                    )
                    &&& of_b is Ok && of_b->Ok_0@ == sha256_digest(
                        front + wide(b@.shared_key->0) + tail,
                    )
                    &&& front + wide(a@.shared_key->0) + tail != front + wide(b@.shared_key->0)
                        + tail
                }
        },
{
    law_proof_is_the_expected_one(a, of_a);
    law_proof_is_the_expected_one(b, of_b);
    if call_ensures(SRPSession::compute_m, (a,), of_a) && call_ensures(
        SRPSession::compute_m,
        (b,),
        of_b,
    ) && of_a is Ok && b@ == (SessionModel { shared_key: b@.shared_key, ..a@ })
        && b@.shared_key is Some && a@.shared_key != b@.shared_key && be_bytes(
        a@.shared_key->0,
    ).len() <= 384 && be_bytes(b@.shared_key->0).len() <= 384 {
        let user = a@.username;
        let salt = a@.salt->0;
        let server = a@.server_public_key->0;
        let public = residue(5, a@.client_private_key);
        let n = sha256_digest(wide(group_modulus()));
        let g = sha256_digest(wide(5));
        let front = Seq::new(n.len(), |i: int| n[i] ^ g[i]) + sha256_digest(encode_utf8(user))
            + wide(salt) + wide(public) + wide(server);
        let tail = both_keys(public, server);
        let one = front + wide(a@.shared_key->0) + tail;
        let other = front + wide(b@.shared_key->0) + tail;
        assert(proof_text(user, salt, public, server, a@.shared_key->0) =~= one);
        assert(proof_text(user, salt, public, server, b@.shared_key->0) =~= other);
        lemma_wide_differs(a@.shared_key->0, b@.shared_key->0);
        if one == other {
            let at = front.len() as int;
            assert(one.subrange(at, at + 384) =~= wide(a@.shared_key->0));
            assert(other.subrange(at, at + 384) =~= wide(b@.shared_key->0));
        }
        assert(of_a->Ok_0@ == sha256_digest(front + wide(a@.shared_key->0) + tail));
    }
}

proof fn lemma_server_side(user: Seq<char>, pin: Seq<char>, salt: nat, private: nat)
    ensures
        password_verifier(user, pin, salt) == server_verifier(user, pin, salt),
        server_public_value(password_verifier(user, pin, salt), private) == server_hello(
            user,
            pin,
            salt,
            private,
        ),
{
    lemma_wide(salt);
    lemma_wide(5);
    lemma_wide(group_modulus());
    lemma_residue(5, server_exponent(user, pin, salt));
    lemma_residue(5, private);
}

pub(crate) proof fn lemma_keys_agree(session: SessionModel, pin: Seq<char>, private: nat)
    requires
        session.salt is Some,
        session.server_public_key == Some(
            server_hello(session.username, pin, session.salt->0, private),
        ),
    ensures
        unmasked(session, pin) != 0,
        session_key(session, pin) == server_key(
            session.username,
            pin,
            session.salt->0,
            private,
            residue(5, session.client_private_key),
        ),
{
    let user = session.username;
    let salt = session.salt->0;
    lemma_server_side(user, pin, salt, private);
    law_both_sides_agree(session, pin, private, arbitrary());
    lemma_residue(5, session.client_private_key);
    let public = residue(5, session.client_private_key);
    lemma_wide(public);
    lemma_wide(session.server_public_key->0);
    let u = be_value(both_keys(public, session.server_public_key->0));
    let verifier = server_verifier(user, pin, salt);
    lemma_residue(verifier, u);
    lemma_residue(public * residue(verifier, u), private);
}

/// With the PIN that the server knows, client and server come to the same session key, and the
/// client's proof is the one that the server expects.
pub proof fn law_right_pin_agrees_with_the_server(
    session: &mut SRPSession,
    pin: &str,
    key: Result<BigUint>,
    after: &SRPSession,
    proved: Result<Vec<u8>>,
    private: nat,
)
    ensures
        call_ensures(SRPSession::set_shared_key, (session, pin), key) && after@ == final(session)@
            && call_ensures(SRPSession::compute_m, (after,), proved) && old(session)@.salt is Some
            && old(session)@.server_public_key == Some(
            server_hello(old(session)@.username, pin@, old(session)@.salt->0, private),
        ) ==> {
            let before = old(session)@;
            let public = residue(5, before.client_private_key);
            let shared = server_key(before.username, pin@, before.salt->0, private, public);
            &&& key is Ok && key->Ok_0@ == shared
            &&& final(session)@ == (SessionModel { shared_key: Some(shared), ..before })
            &&& proved is Ok && proved->Ok_0@ == expected_proof(
                before.username,
                before.salt->0,
                public,
                before.server_public_key->0,
                shared,
            )
        },
{
    let before = old(session)@;
    if before.salt is Some && before.server_public_key == Some(
        server_hello(before.username, pin@, before.salt->0, private),
    ) {
        lemma_keys_agree(before, pin@, private);
        law_proof_is_the_expected_one(after, proved);
    }
}

/// The proof that the client computes for the server is the one that the server gives in return,
/// and no other proof is taken for it.
pub proof fn law_returned_proof_is_recognized(
    session: &SRPSession,
    client_proof: &[u8],
    computed: Result<Vec<u8>>,
    given: &[u8],
    expected: &[u8],
    taken: bool,
)
    ensures
        call_ensures(SRPSession::compute_hmac, (session, client_proof), computed) ==> {
            &&& computed is Ok <==> session@.shared_key is Some
            &&& computed is Ok ==> computed->Ok_0@ == returned_proof(
                residue(5, session@.client_private_key),
                client_proof@,
                session@.shared_key->0,
            )
        },
        call_ensures(SRPSession::verify_hamk, (session, given, expected), taken) ==> (taken
            <==> given@ == expected@ && given@.len() > 0),
{
    lemma_residue(5, session@.client_private_key);
}

/// A server's public key that is zero in the group is refused and changes nothing; any other is
/// taken over with the salt.
pub proof fn law_zero_key_is_refused(
    session: &mut SRPSession,
    server_public_key: BigUint,
    salt: BigUint,
    r: Result<()>,
)
    ensures
        call_ensures(SRPSession::set_server_public_key, (session, server_public_key, salt), r) ==> {
            &&& r is Err <==> server_public_key@ % group_modulus() == 0
            &&& r is Err ==> final(session)@ == old(session)@
            &&& r is Ok ==> final(session)@ == (SessionModel {
                server_public_key: Some(server_public_key@),
                salt: Some(salt@),
                ..old(session)@
            })
        },
{
}

/// A new session has the private key and the name that its seed writes, and nothing of an exchange.
pub proof fn law_session_from_seed(
    seed: &[u8],
    name: &[u8],
    should_use_base64: bool,
    r: SRPSession,
)
    ensures
        call_ensures(SRPSession::from_seed, (seed, name, should_use_base64), r) ==> {
            &&& r@.client_private_key == be_value(seed@)
            &&& writes_bytes(r@.username, name@, should_use_base64)
            &&& r@.server_public_key is None && r@.salt is None && r@.shared_key is None
            &&& r@.should_use_base64 == should_use_base64
        },
{
}

/// What a session encrypts is the JSON text of the value, sealed under the first sixteen bytes of the
/// session key behind a nonce; what it decrypts is what was sealed so. Without a key of sixteen bytes
/// neither is done.
pub proof fn law_session_seals_under_its_key(
    session: &SRPSession,
    value: &JsonValue,
    sealed: Result<Vec<u8>>,
    payload: &[u8],
    opened: Result<Vec<u8>>,
)
    ensures
        call_ensures(SRPSession::encrypt, (session, value), sealed) && sealed is Ok ==> {
            &&& session@.shared_key is Some && be_bytes(session@.shared_key->0).len() >= 16
            &&& seals_under(session@.shared_key->0, json_text(value@), sealed->Ok_0@)
            &&& sealed->Ok_0@.len() == json_text(value@).len() + 32
        },
        call_ensures(SRPSession::decrypt, (session, payload), opened) && opened is Ok ==> {
            &&& session@.shared_key is Some && be_bytes(session@.shared_key->0).len() >= 16
            &&& payload@.len() > 32
            &&& seals_under(session@.shared_key->0, opened->Ok_0@, payload@)
        },
        call_ensures(SRPSession::encrypt, (session, value), sealed) && sealed is Ok && payload@
            == sealed->Ok_0@ && call_ensures(SRPSession::decrypt, (session, payload), opened)
            && opened is Ok ==> {
            &&& opened->Ok_0@ == json_text(value@)
            &&& plain(value@, 100) ==> json_parsed(opened->Ok_0@) == Some(value@)
        },
{
    if session@.shared_key is Some {
        let key = session@.shared_key->0;
        if sealed is Ok {
            lemma_seals_under(key, json_text(value@), sealed->Ok_0@);
        }
        if opened is Ok {
            lemma_seals_under(key, opened->Ok_0@, payload@);
        }
    }
    law_encrypted_value_decrypts(session@, value@, sealed, opened);
}

} // verus!
