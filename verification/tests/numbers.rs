use apw::bignum::{mod_, powermod, BigUint};
use apw::json::{
    from_serde, parse_json, parse_json_or_complain, to_json, to_json_string, to_serde, JsonNumber,
    JsonValue,
};
use num_bigint::BigUint as Reference;

fn number(n: u64) -> BigUint {
    BigUint::from_bytes_be(&n.to_be_bytes())
}

fn value(n: &BigUint) -> Reference {
    Reference::from_bytes_be(&n.to_bytes_be())
}

#[test]
fn numbers_are_computed_with() {
    let a = number(1_000_000_007);
    let b = number(998_244_353);
    assert_eq!(value(&a.plus(&b)), Reference::from(1_998_244_360u64));
    assert_eq!(value(&a.minus(&b)), Reference::from(1_755_654u64));
    assert_eq!(
        value(&a.times(&b)),
        Reference::from(1_000_000_007u64) * Reference::from(998_244_353u64)
    );
    assert_eq!(value(&a.remainder(&b)), Reference::from(1_755_654u64));
    assert_eq!(value(&a.half()), Reference::from(500_000_003u64));
    assert!(a.at_least(&b) && !b.at_least(&a) && a.at_least(&a));
    assert!(a.is_odd() && !number(10).is_odd());
    assert!(BigUint::zero().is_zero() && !a.is_zero());
    assert_eq!(BigUint::zero().to_bytes_be(), vec![0]);
    assert_eq!(BigUint::from_bytes_be(&[0, 0, 7]), BigUint::from_byte(7));
    assert_eq!(a.copy(), a.clone());
}

#[test]
fn powers_are_taken_modulo_a_number() {
    let power = powermod(&number(3), &number(200), &number(1_000_000_007)).unwrap();
    assert_eq!(
        value(&power),
        Reference::from(3u32).modpow(&Reference::from(200u32), &Reference::from(1_000_000_007u64))
    );
    assert_eq!(value(&powermod(&number(5), &number(0), &number(7)).unwrap()), Reference::from(1u32));
    assert_eq!(value(&mod_(&number(20), &number(7))), Reference::from(6u32));
    // Raising by one number and then by another is the same in either order.
    let m = number(1_000_003);
    let left = powermod(&powermod(&number(2), &number(77), &m).unwrap(), &number(101), &m).unwrap();
    let right = powermod(&powermod(&number(2), &number(101), &m).unwrap(), &number(77), &m).unwrap();
    assert_eq!(left, right);
}

#[test]
fn json_is_read_and_written() {
    let text = "{\"a\":[1,-2,true,null,\"x\\n\"],\"b\":{\"c\":18446744073709551615}}";
    let value = parse_json(text.as_bytes()).unwrap();
    assert_eq!(String::from_utf8(to_json(&value)).unwrap(), text);
    assert_eq!(to_json_string(&value), text);
    assert_eq!(
        value.get("b").and_then(|inner| inner.get("c")).and_then(JsonValue::as_u64),
        Some(u64::MAX)
    );
    assert!(parse_json(b"{\"a\":}").is_none());
    assert!(parse_json(b"{} {}").is_none());
    assert!(parse_json(&[0xff]).is_none());
    assert_eq!(
        parse_json_or_complain(b"").unwrap_err(),
        "EOF while parsing a value at line 1 column 0"
    );
}

#[test]
fn numbers_in_json_keep_their_kind() {
    assert_eq!(parse_json(b"7"), Some(JsonValue::Number(JsonNumber::Unsigned(7))));
    assert_eq!(parse_json(b"-7"), Some(JsonValue::Number(JsonNumber::Negative(-7))));
    assert_eq!(
        parse_json(b"1.5"),
        Some(JsonValue::Number(JsonNumber::Fraction(
            serde_json::Number::from_f64(1.5).unwrap()
        )))
    );
    assert_eq!(to_json(&JsonValue::integer(-3)), b"-3");
    let fraction = parse_json(b"2.25").unwrap();
    assert_eq!(to_json(&fraction), b"2.25");
    assert_eq!(fraction.as_i64(), None);
    assert_eq!(parse_json(b"-1").unwrap().as_u64(), None);
}

#[test]
fn the_last_of_two_members_of_a_name_counts() {
    let value = parse_json(b"{\"a\":1,\"a\":2}").unwrap();
    assert_eq!(value.get("a"), Some(&JsonValue::integer(2)));
    let replaced = value.with("a", JsonValue::Null);
    assert!(replaced.get_or_null("a").is_null());
    assert!(replaced.get("b").is_none());
}

#[test]
fn a_fraction_is_printed_as_the_number_that_was_read() {
    let mut state: u64 = 0x9e37_79b9_7f4a_7c15;
    let mut next = || {
        state = state.wrapping_mul(6_364_136_223_846_793_005).wrapping_add(1_442_695_040_888_963_407);
        state
    };
    let mut moved = 0;
    for _ in 0..50_000 {
        let exponent = (next() >> 40) % 600;
        let text = format!("[{}.{:017}e-{exponent}]", next() % 10, next() >> 8);
        let outside: serde_json::Value = serde_json::from_str(&text).unwrap();
        let printed = serde_json::to_vec(&outside).unwrap();
        let value = parse_json(text.as_bytes()).unwrap();
        assert_eq!(to_json(&value), printed);
        assert_eq!(to_json(&value.copy()), printed);
        assert_eq!(to_json(&from_serde(outside.clone())), printed);
        assert_eq!(to_serde(&value), outside);
        if to_json(&parse_json(&printed).unwrap()) != printed {
            moved += 1;
        }
    }
    // Some of these numbers do not survive being read twice.
    assert!(moved > 0);
    assert_eq!(to_json(&parse_json(b"-0.0").unwrap()), b"-0.0");
}
