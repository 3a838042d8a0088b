//! Text, numbers, encodings and time.
use crate::bignum::{be_value, mod_, powermod, BigUint};
use crate::clock::{rfc3339_moment, stale_config, Moment};
use crate::codec::{
    bigint_to_base64, decode_base64_or_hex, decode_with_fallback, law_bare_hex_decodes,
    law_prefixed_hex_decodes, read_bigint, to_base64, to_hex,
};
use crate::error::Result;
use crate::json::{Json, JsonValue};
use crate::manager::retry_delay;
use crate::native_app::{connect_step, ConnectStep};
use crate::srp::{lemma_power_mod_is_remainder, parse_pake_message_code, SRPSession, SessionValues};
use crate::text::{
    contains, decimal, decimal_u64, first_at, occurs_at, occurs_in, parse_i64, parse_u32,
    strip_prefix_or_all, text_after, text_before, to_ascii_lower, trim, trim_end_of, trim_start_of,
    trimmed, white_space,
};
use crate::utils::{law_pad_keeps_value, pad};
use vstd::arithmetic::power::pow;
use vstd::prelude::*;

verus! {

/// Whether text is blanks alone: spaces, tabs and ends of lines.
pub open spec fn blank(s: Seq<char>) -> bool {
    forall|i: int|
        0 <= i < s.len() ==> ((#[trigger] s[i]) == ' ' || s[i] == '\t' || s[i] == '\n' || s[i] == '\r')
}

proof fn lemma_trim_start_blank(left: Seq<char>, s: Seq<char>)
    requires
        blank(left),
    ensures
        trim_start_of(left + s) == trim_start_of(s),
    decreases left.len(),
{
    if left.len() > 0 {
        let whole = left + s;
        assert(whole[0] == left[0]);
        assert(white_space(whole[0]));
        let rest = left.subrange(1, left.len() as int);
        assert(whole.subrange(1, whole.len() as int) =~= rest + s);
        assert forall|i: int| 0 <= i < rest.len() implies (#[trigger] rest[i]) == ' ' || rest[i]
            == '\t' || rest[i] == '\n' || rest[i] == '\r' by {
            assert(rest[i] == left[i + 1]);
        }
        lemma_trim_start_blank(rest, s);
    } else {
        assert(left + s =~= s);
    }
}

proof fn lemma_trim_end_blank(s: Seq<char>, right: Seq<char>)
    requires
        blank(right),
    ensures
        trim_end_of(s + right) == trim_end_of(s),
    decreases right.len(),
{
    if right.len() > 0 {
        let whole = s + right;
        assert(whole[whole.len() - 1] == right[right.len() - 1]);
        assert(white_space(whole[whole.len() - 1]));
        let rest = right.subrange(0, right.len() - 1);
        assert(whole.subrange(0, whole.len() - 1) =~= s + rest);
        assert forall|i: int| 0 <= i < rest.len() implies (#[trigger] rest[i]) == ' ' || rest[i]
            == '\t' || rest[i] == '\n' || rest[i] == '\r' by {
            assert(rest[i] == right[i]);
        }
        lemma_trim_end_blank(s, rest);
    } else {
        assert(s + right =~= s);
    }
}

/// Text that begins and ends with a printed character comes out of the blanks around it.
pub proof fn law_blanks_around_are_taken_off(
    raw: &str,
    left: Seq<char>,
    core: Seq<char>,
    right: Seq<char>,
    r: String,
)
    ensures
        call_ensures(trim, (raw,), r) && raw@ == left + core + right && blank(left) && blank(right)
            && core.len() > 0 && 0x20 < core[0] as int && (core[0] as int) < 0x7f && 0x20
            < core[core.len() - 1] as int && (core[core.len() - 1] as int) < 0x7f ==> r@ == core,
        call_ensures(trim, (raw,), r) && blank(raw@) ==> r@.len() == 0,
{
    if raw@ == left + core + right && blank(left) && blank(right) && core.len() > 0 && 0x20
        < core[0] as int && (core[0] as int) < 0x7f && 0x20 < core[core.len() - 1] as int && (
    core[core.len() - 1] as int) < 0x7f {
        assert(raw@ =~= left + (core + right));
        lemma_trim_start_blank(left, core + right);
        assert((core + right)[0] == core[0]);
        assert(trim_start_of(core + right) == core + right);
        lemma_trim_end_blank(core, right);
        assert(trim_end_of(core) == core);
    }
    if blank(raw@) {
        assert(raw@ + Seq::<char>::empty() =~= raw@);
        lemma_trim_start_blank(raw@, Seq::empty());
    }
}

/// Whether a text is in another is whether the other is something, that text and something.
pub proof fn law_text_is_found_where_it_is(
    s: &str,
    part: &str,
    front: Seq<char>,
    back: Seq<char>,
    r: bool,
)
    ensures
        call_ensures(contains, (s, part), r) && s@ == front + part@ + back ==> r,
        call_ensures(contains, (s, part), r) && r ==> exists|at: int|
            0 <= at <= s@.len() - part@.len() && #[trigger] s@.subrange(at, at + part@.len())
                == part@,
{
    if call_ensures(contains, (s, part), r) && s@ == front + part@ + back {
        assert(s@.subrange(front.len() as int, front.len() + part@.len() as int) =~= part@);
        assert(crate::text::occurs_at(s@, part@, front.len() as int));
    }
}

/// A number is written in decimal digits that are read as the number.
pub proof fn law_number_is_read_as_written(n: u64, written: String, text: &str, read: Option<i64>)
    ensures
        call_ensures(decimal_u64, (n,), written) && text@ == written@ && n <= i64::MAX
            && call_ensures(parse_i64, (text,), read) ==> read == Some(n as i64),
{
    lemma_decimal_reads(n as nat);
}

pub(crate) proof fn lemma_decimal_reads(n: nat)
    ensures
        crate::text::all_digits(decimal(n)),
        crate::text::decimal_value(decimal(n)) == n,
    decreases n,
{
    if n >= 10 {
        lemma_decimal_reads(n / 10);
        let s = decimal(n);
        assert(s.subrange(0, s.len() - 1) =~= decimal(n / 10));
        assert forall|i: int| 0 <= i < s.len() implies crate::text::is_digit(#[trigger] s[i]) by {
            if i < s.len() - 1 {
                assert(s[i] == decimal(n / 10)[i]);
            }
        }
    } else {
        let s = decimal(n);
        assert(s.len() == 1);
        assert(s.subrange(0, 0) =~= Seq::<char>::empty());
        assert(crate::text::decimal_value(s.subrange(0, 0)) == 0);
    }
}

/// Bytes and numbers come back from the text that they are written in.
pub proof fn law_encodings_come_back(
    bytes: &[u8],
    base64: String,
    hex: String,
    text: &str,
    message: &str,
    as_base64: bool,
    decoded: Result<Vec<u8>>,
    number: &BigUint,
    written: String,
    read: Result<BigUint>,
)
    ensures
        call_ensures(to_base64, (bytes,), base64) && text@ == base64@ && call_ensures(
            decode_with_fallback,
            (text, true, message),
            decoded,
        ) ==> decoded is Ok && decoded->Ok_0@ == bytes@,
        call_ensures(to_hex, (bytes,), hex) && (text@ == hex@ || text@ == "0x"@ + hex@)
            && call_ensures(decode_with_fallback, (text, false, message), decoded)
            ==> decoded is Ok && decoded->Ok_0@ == bytes@,
        call_ensures(bigint_to_base64, (number,), written) && text@ == written@ && call_ensures(
            read_bigint,
            (text,),
            read,
        ) ==> read is Ok && read->Ok_0@ == number@,
        call_ensures(bigint_to_base64, (number,), written) && text@ == written@ && call_ensures(
            decode_base64_or_hex,
            (text, true),
            read,
        ) ==> read is Ok && read->Ok_0@ == number@,
{
    law_bare_hex_decodes(bytes@);
    law_prefixed_hex_decodes(bytes@);
}

/// Padding gives as many bytes as are asked for, with zeros in front, and keeps the number.
pub proof fn law_padding_keeps_the_number(input: &[u8], length: usize, r: Vec<u8>)
    ensures
        call_ensures(pad, (input, length), r) ==> {
            &&& r@.len() == length
            &&& input@.len() <= length ==> {
                &&& be_value(r@) == be_value(input@)
                &&& r@.subrange(length - input@.len(), length as int) == input@
            }
        },
{
    if call_ensures(pad, (input, length), r) && input@.len() <= length {
        law_pad_keeps_value(input@, length as int);
        assert(r@.subrange(length - input@.len(), length as int) =~= input@);
    }
}

/// A power modulo a number above one is the remainder of the power.
pub proof fn law_power_is_a_remainder(
    base: &BigUint,
    exponent: &BigUint,
    modulus: &BigUint,
    r: Result<BigUint>,
    rest: BigUint,
)
    ensures
        call_ensures(powermod, (base, exponent, modulus), r) && modulus@ > 1 ==> r is Ok
            && r->Ok_0@ == pow(base@ as int, exponent@) % (modulus@ as int),
        call_ensures(mod_, (base, modulus), rest) && modulus@ > 0 ==> rest@ < modulus@ && exists|
            q: nat,
        |
            base@ == #[trigger] (q * modulus@) + rest@,
{
    if modulus@ > 1 {
        lemma_power_mod_is_remainder(base@, exponent@, modulus@);
    }
    if call_ensures(mod_, (base, modulus), rest) && modulus@ > 0 {
        let q = base@ / modulus@;
        vstd::arithmetic::div_mod::lemma_fundamental_div_mod(base@ as int, modulus@ as int);
        assert(base@ == q * modulus@ + rest@) by (nonlinear_arith)
            requires
                base@ == modulus@ * q + rest@,
        ;
    }
}

/// A time that is at most so many milliseconds back is not too old, and one that is further back is;
/// so is one that is yet to come, and text that writes no time.
pub proof fn law_age_is_counted_in_milliseconds(
    created_at: &str,
    now: &Moment,
    max_age_ms: u64,
    r: bool,
)
    ensures
        call_ensures(stale_config, (created_at, now, max_age_ms), r) ==> match rfc3339_moment(
            created_at@,
        ) {
            None => r,
            Some((secs, nanos)) => {
                &&& secs > now.secs ==> r
                &&& 0 <= secs <= now.secs <= 4_102_444_800 && nanos < 1_000_000_000 && now.nanos
                    < 1_000_000_000 && (secs < now.secs || nanos <= now.nanos) && max_age_ms
                    <= i64::MAX ==> {
                    let age = ((now.secs - secs) * 1_000_000_000 + now.nanos - nanos) / 1_000_000;
                    r == (age > max_age_ms)
                }
            },
        },
{
}

/// A token of the key exchange is the number that it writes, alone or first in a list.
pub proof fn law_token_is_its_number(value: &JsonValue, n: int, r: Option<i64>)
    ensures
        call_ensures(parse_pake_message_code, (value,), r) && i64::MIN <= n <= i64::MAX ==> {
            &&& value@ == Json::Int(n) ==> r == Some(n as i64)
            &&& value@ == Json::Arr(seq![Json::Int(n)]) ==> r == Some(n as i64)
            &&& value@ is Null || value@ is Obj || value@ is Bool ==> r is None
        },
{
    reveal_with_fuel(crate::srp::numeric_token, 2);
    assert(seq![Json::Int(n)][0] == Json::Int(n));
}

/// A message is sent again after a quarter of a second and less than as much again.
pub proof fn law_wait_before_another_try(random: u64, r: u64)
    ensures
        call_ensures(retry_delay, (random,), r) ==> 250 <= r < 500,
{
}

/// The socket is tried ten times while it is there; then, or without it, the executable is asked.
pub proof fn law_socket_is_tried_first(socket_exists: bool, failures: usize, r: ConnectStep)
    ensures
        call_ensures(connect_step, (socket_exists, failures), r) ==> (r == ConnectStep::Connect
            <==> socket_exists && failures < 10),
{
}

/// Values that are taken out of a session and put into another make that one the same.
pub proof fn law_values_carry_a_session_over(
    session: &SRPSession,
    values: SessionValues,
    other: &mut SRPSession,
)
    ensures
        call_ensures(SRPSession::return_values, (session,), values) && call_ensures(
            SRPSession::update_with_values,
            (other, values),
            (),
        ) ==> {
            let after = final(other)@;
            &&& after.username == session@.username
            &&& after.client_private_key == session@.client_private_key
            &&& session@.shared_key is Some ==> after.shared_key == session@.shared_key
            &&& session@.salt is Some ==> after.salt == session@.salt
            &&& session@.server_public_key is Some ==> after.server_public_key
                == session@.server_public_key
            &&& session@.shared_key is None ==> after.shared_key == old(other)@.shared_key
            &&& after.should_use_base64 == old(other)@.should_use_base64
        },
{
}

/// A number within 32 bits is read from its decimal digits, with or without a plus sign, and no other
/// is.
pub proof fn law_small_number_is_read_as_written(n: u64, text: &str, r: Option<u32>)
    ensures
        call_ensures(parse_u32, (text,), r) && n <= i64::MAX && (text@ == decimal(n as nat)
            || text@ == "+"@ + decimal(n as nat)) ==> r == if n <= u32::MAX {
            Some(n as u32)
        } else {
            None::<u32>
        },
        call_ensures(parse_u32, (text,), r) && text@.contains('-') ==> r is None,
{
    reveal_strlit("+");
    lemma_decimal_reads(n as nat);
    let signed = "+"@ + decimal(n as nat);
    assert(signed.subrange(1, signed.len() as int) =~= decimal(n as nat));
    if text@.contains('-') {
        let at = choose|i: int| 0 <= i < text@.len() && text@[i] == '-';
        if text@[0] != '-' && r is Some {
            if text@[0] == '+' {
                let digits = text@.subrange(1, text@.len() as int);
                assert(digits[at - 1] == '-');
            } else {
                assert(!crate::text::is_digit(text@[at]));
            }
        }
    }
}

/// The lower-case form has a small letter for each capital of ASCII, and the same character for any
/// other.
pub proof fn law_capitals_become_small(s: &str, r: String)
    ensures
        call_ensures(to_ascii_lower, (s,), r) ==> r@.len() == s@.len() && forall|i: int|
            0 <= i < s@.len() ==> (#[trigger] r@[i]) as int == if 65 <= s@[i] as int && s@[i] as int
                <= 90 {
                s@[i] as int + 32
            } else {
                s@[i] as int
            },
{
}

/// A prefix is taken off the text that it stands in front of, and any other text stays.
pub proof fn law_prefix_comes_off(s: &str, part: &str, rest: Seq<char>, r: String)
    ensures
        call_ensures(strip_prefix_or_all, (s, part), r) ==> {
            &&& s@ == part@ + rest ==> r@ == rest
            &&& r@ == s@ || s@ == part@ + r@
        },
{
    if s@ == part@ + rest {
        assert(s@.subrange(0, part@.len() as int) =~= part@);
        assert(s@.subrange(part@.len() as int, s@.len() as int) =~= rest);
    }
    if call_ensures(strip_prefix_or_all, (s, part), r) && r@ != s@ {
        assert(s@ =~= part@ + r@);
    }
}

pub(crate) proof fn lemma_first_place(s: Seq<char>, part: Seq<char>, from: int)
    requires
        0 <= from,
    ensures
        match first_at(s, part, from) {
            Some(at) => from <= at && occurs_at(s, part, at) && forall|i: int|
                from <= i < at ==> !#[trigger] occurs_at(s, part, i),
            None => forall|i: int| from <= i ==> !#[trigger] occurs_at(s, part, i),
        },
    decreases s.len() - from + 1,
{
    if from + part.len() <= s.len() && !occurs_at(s, part, from) {
        lemma_first_place(s, part, from + 1);
    }
}

/// Text is cut at the first place of a part: what is in front of it, the part and what is behind it
/// make up the text, and the part begins nowhere before. There is nothing to cut where the part is not
/// in the text.
pub proof fn law_text_is_cut_at_the_first_place(
    s: &str,
    part: &str,
    before: Option<String>,
    after: Option<String>,
)
    ensures
        call_ensures(text_before, (s, part), before) && call_ensures(text_after, (s, part), after)
            ==> match (before, after) {
            (Some(front), Some(back)) => s@ == front@ + part@ + back@ && forall|i: int|
                0 <= i < front@.len() ==> #[trigger] s@.subrange(i, i + part@.len()) != part@,
            (None, None) => forall|i: int|
                0 <= i <= s@.len() - part@.len() ==> #[trigger] s@.subrange(i, i + part@.len())
                    != part@,
            _ => false,
        },
{
    lemma_first_place(s@, part@, 0);
    if let Some(at) = first_at(s@, part@, 0) {
        assert(s@ =~= s@.subrange(0, at) + part@ + s@.subrange(at + part@.len(), s@.len() as int));
        assert forall|i: int| 0 <= i < at implies #[trigger] s@.subrange(i, i + part@.len()) != part@ by {
            assert(!occurs_at(s@, part@, i));
        }
    } else {
        assert forall|i: int| 0 <= i <= s@.len() - part@.len() implies #[trigger] s@.subrange(
            i,
            i + part@.len(),
        ) != part@ by {
            assert(!occurs_at(s@, part@, i));
        }
    }
}

/// Of two moments, one is after the other where it is more nanoseconds from the start of 1970.
pub proof fn law_moments_are_ordered(one: &Moment, other: &Moment, r: bool)
    ensures
        call_ensures(Moment::is_after, (one, other), r) && one.nanos < 1_000_000_000 && other.nanos
            < 1_000_000_000 ==> r == (one.secs * 1_000_000_000 + one.nanos > other.secs
            * 1_000_000_000 + other.nanos),
{
}

pub(crate) proof fn lemma_within(front: Seq<char>, part: Seq<char>, back: Seq<char>)
    ensures
        occurs_in(front + part + back, part),
{
    let whole = front + part + back;
    let at = front.len() as int;
    assert(whole.subrange(at, at + part.len()) =~= part);
    assert(occurs_at(whole, part, at));
}

pub(crate) proof fn lemma_blank_is_trimmed(s: Seq<char>)
    requires
        blank(s),
    ensures
        trimmed(s).len() == 0,
{
    assert(s + Seq::<char>::empty() =~= s);
    lemma_trim_start_blank(s, Seq::empty());
}

} // verus!
