//! Executable string helpers with exact contracts over `Seq<char>`.
use vstd::prelude::*;
use vstd::utf8::{decode_utf8, valid_utf8};
use vstd::string::{StrSliceExecFns, StringExecFns};

verus! {

/// Whether two string slices hold the same characters.
pub fn str_eq(a: &str, b: &str) -> (r: bool)
    ensures
        r == (a@ == b@),
{
    a.to_owned() == b.to_owned()
}

/// An owned copy of a string slice.
pub fn owned(s: &str) -> (r: String)
    ensures
        r@ == s@,
{
    s.to_owned()
}

/// The characters of an optional string.
pub open spec fn opt_text(s: Option<String>) -> Option<Seq<char>> {
    match s {
        Some(s) => Some(s@),
        None => None,
    }
}

/// A copy of an optional string.
pub fn copy_opt(s: &Option<String>) -> (r: Option<String>)
    ensures
        opt_text(r) == opt_text(*s),
{
    match s {
        Some(s) => Some(owned(s.as_str())),
        None => None,
    }
}

/// The characters of `a` followed by those of `b`.
pub fn cat(a: &str, b: &str) -> (r: String)
    ensures
        r@ == a@ + b@,
{
    let mut out = a.to_owned();
    out.append(b);
    out
}

/// Collects the characters of a string slice.
pub fn chars_of(s: &str) -> (r: Vec<char>)
    ensures
        r@ == s@,
{
    let mut out: Vec<char> = Vec::new();
    for c in it: s.chars()
        invariant
            it.seq() == s@,
            out@ == s@.take(it.index() as int),
    {
        out.push(c);
        proof {
            assert(s@.take(it.index() as int + 1) =~= s@.take(it.index() as int).push(c));
        }
    }
    proof {
        assert(s@.take(s@.len() as int) =~= s@);
    }
    out
}

/// The characters with the Unicode White_Space property.
pub open spec fn white_space(c: char) -> bool {
    let n = c as int;
    ||| 0x9 <= n <= 0xd
    ||| n == 0x20
    ||| n == 0x85
    ||| n == 0xa0
    ||| n == 0x1680
    ||| 0x2000 <= n <= 0x200a
    ||| n == 0x2028
    ||| n == 0x2029
    ||| n == 0x202f
    ||| n == 0x205f
    ||| n == 0x3000
}

/// Whether a character has the Unicode White_Space property.
pub fn is_white_space(c: char) -> (r: bool)
    ensures
        r == white_space(c),
{
    let n: u32 = c as u32;
    (0x9 <= n && n <= 0xd) || n == 0x20 || n == 0x85 || n == 0xa0 || n == 0x1680 || (0x2000 <= n
        && n <= 0x200a) || n == 0x2028 || n == 0x2029 || n == 0x202f || n == 0x205f || n == 0x3000
}

/// `s` without its leading white space.
pub open spec fn trim_start_of(s: Seq<char>) -> Seq<char>
    decreases s.len(),
{
    if s.len() > 0 && white_space(s[0]) {
        trim_start_of(s.subrange(1, s.len() as int))
    } else {
        s
    }
}

/// `s` without its trailing white space.
pub open spec fn trim_end_of(s: Seq<char>) -> Seq<char>
    decreases s.len(),
{
    if s.len() > 0 && white_space(s[s.len() - 1]) {
        trim_end_of(s.subrange(0, s.len() - 1))
    } else {
        s
    }
}

/// `s` without leading and trailing white space.
pub open spec fn trimmed(s: Seq<char>) -> Seq<char> {
    trim_end_of(trim_start_of(s))
}

/// `s` without leading and trailing white space.
pub fn trim(s: &str) -> (r: String)
    ensures
        r@ == trimmed(s@),
{
    let chars = chars_of(s);
    let mut from: usize = 0;
    proof {
        assert(s@.subrange(0, s@.len() as int) =~= s@);
    }
    while from < chars.len() && is_white_space(chars[from])
        invariant
            chars@ == s@,
            from <= chars.len(),
            trim_start_of(s@) == trim_start_of(s@.subrange(from as int, s@.len() as int)),
        decreases chars.len() - from,
    {
        proof {
            let rest = s@.subrange(from as int, s@.len() as int);
            assert(rest.subrange(1, rest.len() as int) =~= s@.subrange(
                from + 1,
                s@.len() as int,
            ));
        }
        from = from + 1;
    }
    let ghost rest = s@.subrange(from as int, s@.len() as int);
    proof {
        if from < chars.len() {
            assert(rest[0] == chars@[from as int]);
        }
        assert(trim_start_of(s@) == rest);
    }
    let mut to: usize = chars.len();
    proof {
        assert(rest.subrange(0, to - from) =~= rest);
    }
    while from < to && is_white_space(chars[to - 1])
        invariant
            chars@ == s@,
            from <= to <= chars.len(),
            rest == s@.subrange(from as int, s@.len() as int),
            trim_end_of(rest) == trim_end_of(rest.subrange(0, to - from)),
        decreases to,
    {
        proof {
            let cut = rest.subrange(0, to - from);
            assert(cut[cut.len() - 1] == chars@[to - 1]);
            assert(cut.subrange(0, cut.len() - 1) =~= rest.subrange(0, to - 1 - from));
        }
        to = to - 1;
    }
    proof {
        let cut = rest.subrange(0, to - from);
        if from < to {
            assert(cut[cut.len() - 1] == chars@[to - 1]);
        }
        assert(cut =~= s@.subrange(from as int, to as int));
    }
    s.substring_char(from, to).to_owned()
}

/// Whether `part` occurs in `s` at position `at`.
pub open spec fn occurs_at(s: Seq<char>, part: Seq<char>, at: int) -> bool {
    0 <= at <= s.len() - part.len() && s.subrange(at, at + part.len()) == part
}

/// Whether `part` occurs in `s`.
pub open spec fn occurs_in(s: Seq<char>, part: Seq<char>) -> bool {
    exists|at: int| #[trigger] occurs_at(s, part, at)
}

/// Whether `s` begins with `part`.
pub open spec fn begins_with(s: Seq<char>, part: Seq<char>) -> bool {
    occurs_at(s, part, 0)
}

fn matches_at(s: &Vec<char>, part: &Vec<char>, at: usize) -> (r: bool)
    requires
        at + part.len() <= s.len(),
    ensures
        r == occurs_at(s@, part@, at as int),
{
    let mut i: usize = 0;
    while i < part.len()
        invariant
            i <= part.len(),
            at + part.len() <= s.len(),
            forall|k: int| 0 <= k < i ==> s@[at + k] == part@[k],
        decreases part.len() - i,
    {
        if s[at + i] != part[i] {
            proof {
                assert(s@.subrange(at as int, at + part.len())[i as int] == s@[at + i]);
            }
            return false;
        }
        i = i + 1;
    }
    proof {
        assert(s@.subrange(at as int, at + part.len()) =~= part@);
    }
    true
}

/// Whether `part` occurs in `s`.
pub fn contains(s: &str, part: &str) -> (r: bool)
    ensures
        r == occurs_in(s@, part@),
{
    let text = chars_of(s);
    let wanted = chars_of(part);
    if wanted.len() > text.len() {
        return false;
    }
    let last: usize = text.len() - wanted.len();
    let mut at: usize = 0;
    while at <= last
        invariant
            text@ == s@,
            wanted@ == part@,
            wanted.len() <= text.len(),
            last == text.len() - wanted.len(),
            at <= last + 1,
            forall|k: int| 0 <= k < at ==> !#[trigger] occurs_at(s@, part@, k),
        decreases last + 1 - at,
    {
        if matches_at(&text, &wanted, at) {
            return true;
        }
        if at == last {
            return false;
        }
        at = at + 1;
    }
    false
}

/// Whether `s` begins with `part`.
pub fn starts_with(s: &str, part: &str) -> (r: bool)
    ensures
        r == begins_with(s@, part@),
{
    let text = chars_of(s);
    let wanted = chars_of(part);
    wanted.len() <= text.len() && matches_at(&text, &wanted, 0)
}

/// Whether the character `c` occurs in `s`.
pub fn contains_char(s: &str, c: char) -> (r: bool)
    ensures
        r == s@.contains(c),
{
    let text = chars_of(s);
    let mut i: usize = 0;
    while i < text.len()
        invariant
            text@ == s@,
            i <= text.len(),
            forall|k: int| 0 <= k < i ==> s@[k] != c,
        decreases text.len() - i,
    {
        if text[i] == c {
            return true;
        }
        i = i + 1;
    }
    false
}

/// `s` without the prefix `part`, or all of `s` where it does not begin with it.
pub open spec fn without_prefix(s: Seq<char>, part: Seq<char>) -> Seq<char> {
    if begins_with(s, part) {
        s.subrange(part.len() as int, s.len() as int)
    } else {
        s
    }
}

/// `s` without the prefix `part`, or all of `s` where it does not begin with it.
pub fn strip_prefix_or_all(s: &str, part: &str) -> (r: String)
    ensures
        r@ == without_prefix(s@, part@),
{
    if starts_with(s, part) {
        let from: usize = part.unicode_len();
        let to: usize = s.unicode_len();
        s.substring_char(from, to).to_owned()
    } else {
        s.to_owned()
    }
}

/// The lower-case form of an ASCII letter; any other character unchanged.
pub open spec fn ascii_lower(c: char) -> char {
    if 'A' <= c && c <= 'Z' {
        (c as int + 32) as char
    } else {
        c
    }
}

/// `s` with its ASCII letters in lower case.
pub open spec fn ascii_lowered(s: Seq<char>) -> Seq<char> {
    s.map_values(|c: char| ascii_lower(c))
}

/// The lower-case form of text by the rules of Unicode.
pub uninterp spec fn lowercased(s: Seq<char>) -> Seq<char>;

/// `str::to_lowercase`. Of text that is all ASCII, the letters are put in lower case and nothing
/// else changes.
#[verifier::external_body]
pub(crate) fn to_lowercase(s: &str) -> (r: String)
    ensures
        r@ == lowercased(s@),
        s.is_ascii() ==> r@ == ascii_lowered(s@),
{
    s.to_lowercase()
}

fn lower_char(c: char) -> (r: char)
    ensures
        r == ascii_lower(c),
{
    if 'A' <= c && c <= 'Z' {
        let n: u8 = c as u8;
        (n + 32) as char
    } else {
        c
    }
}

/// `s` with its ASCII letters in lower case.
pub fn to_ascii_lower(s: &str) -> (r: String)
    ensures
        r@ == ascii_lowered(s@),
{
    let text = chars_of(s);
    let mut out: Vec<char> = Vec::new();
    let mut i: usize = 0;
    while i < text.len()
        invariant
            text@ == s@,
            i <= text.len(),
            out@ =~= ascii_lowered(s@.take(i as int)),
        decreases text.len() - i,
    {
        out.push(lower_char(text[i]));
        i = i + 1;
    }
    proof {
        assert(s@.take(s@.len() as int) =~= s@);
    }
    string_of(&out)
}

/// The string whose characters are those of the vector.
pub fn string_of(chars: &Vec<char>) -> (r: String)
    ensures
        r@ == chars@,
{
    let mut out = String::new();
    let mut i: usize = 0;
    while i < chars.len()
        invariant
            i <= chars.len(),
            out@ == chars@.take(i as int),
        decreases chars.len() - i,
    {
        push_char(&mut out, chars[i]);
        proof {
            assert(chars@.take(i + 1) =~= chars@.take(i as int).push(chars@[i as int]));
        }
        i = i + 1;
    }
    proof {
        assert(chars@.take(chars@.len() as int) =~= chars@);
    }
    out
}

/// `String::push`: appends one character.
#[verifier::external_body]
fn push_char(s: &mut String, c: char)
    ensures
        final(s)@ == old(s)@.push(c),
{
    s.push(c);
}

/// The value of a decimal digit.
pub open spec fn digit_value(c: char) -> int {
    c as int - '0' as int
}

/// Whether `c` is one of `0` to `9`.
pub open spec fn is_digit(c: char) -> bool {
    '0' <= c && c <= '9'
}

/// The number that a sequence of decimal digits writes.
pub open spec fn decimal_value(s: Seq<char>) -> int
    decreases s.len(),
{
    if s.len() == 0 {
        0
    } else {
        decimal_value(s.subrange(0, s.len() - 1)) * 10 + digit_value(s[s.len() - 1])
    }
}

/// Whether `s` is one or more decimal digits.
pub open spec fn all_digits(s: Seq<char>) -> bool {
    s.len() > 0 && forall|i: int| 0 <= i < s.len() ==> is_digit(#[trigger] s[i])
}

/// The integer that `s` writes: decimal digits behind an optional sign, within `i64`.
pub open spec fn integer_of(s: Seq<char>) -> Option<i64> {
    let signed = s.len() > 0 && (s[0] == '-' || s[0] == '+');
    let digits = if signed {
        s.subrange(1, s.len() as int)
    } else {
        s
    };
    let value = if s.len() > 0 && s[0] == '-' {
        -decimal_value(digits)
    } else {
        decimal_value(digits)
    };
    if all_digits(digits) && i64::MIN <= value <= i64::MAX {
        Some(value as i64)
    } else {
        None
    }
}

proof fn lemma_decimal_grows(s: Seq<char>, n: int)
    requires
        0 <= n <= s.len(),
        forall|i: int| 0 <= i < s.len() ==> is_digit(#[trigger] s[i]),
    ensures
        0 <= decimal_value(s.subrange(0, n)) <= decimal_value(s),
    decreases s.len(),
{
    if n == s.len() {
        assert(s.subrange(0, n) =~= s);
        if n > 0 {
            let front = s.subrange(0, s.len() - 1);
            assert forall|i: int| 0 <= i < front.len() implies is_digit(#[trigger] front[i]) by {
                assert(front[i] == s[i]);
            }
            lemma_decimal_grows(front, front.len() as int);
        }
    } else {
        let front = s.subrange(0, s.len() - 1);
        assert forall|i: int| 0 <= i < front.len() implies is_digit(#[trigger] front[i]) by {
            assert(front[i] == s[i]);
        }
        lemma_decimal_grows(front, n);
        assert(front.subrange(0, n) =~= s.subrange(0, n));
        assert(is_digit(s[s.len() - 1]));
    }
}

/// The integer that `s` writes: decimal digits behind an optional sign, within `i64`.
pub fn parse_i64(s: &str) -> (r: Option<i64>)
    ensures
        r == integer_of(s@),
{
    let text = chars_of(s);
    let negative = text.len() > 0 && text[0] == '-';
    let signed = text.len() > 0 && (text[0] == '-' || text[0] == '+');
    let start: usize = if signed { 1 } else { 0 };
    let ghost digits = s@.subrange(start as int, s@.len() as int);
    proof {
        assert(s@.subrange(0, s@.len() as int) =~= s@);
    }
    if start == text.len() {
        return None;
    }
    let mut value: i128 = 0;
    let mut i: usize = start;
    while i < text.len()
        invariant
            text@ == s@,
            start <= i <= text.len(),
            start <= 1,
            digits == s@.subrange(start as int, s@.len() as int),
            negative == (s@.len() > 0 && s@[0] == '-'),
            signed == (s@.len() > 0 && (s@[0] == '-' || s@[0] == '+')),
            start == (if signed { 1int } else { 0int }),
            forall|k: int| 0 <= k < i - start ==> is_digit(#[trigger] digits[k]),
            value == decimal_value(digits.subrange(0, i - start)),
            0 <= value <= 0x8000_0000_0000_0000,
        decreases text.len() - i,
    {
        let c = text[i];
        proof {
            assert(digits[i - start] == s@[i as int]);
        }
        if !('0' <= c && c <= '9') {
            proof {
                assert(!is_digit(digits[i - start]));
                assert(s@.subrange(0, s@.len() as int) =~= s@);
            }
            return None;
        }
        let d: u32 = c as u32 - '0' as u32;
        let next: i128 = value * 10 + d as i128;
        proof {
            let longer = digits.subrange(0, i + 1 - start);
            assert(longer.subrange(0, longer.len() - 1) =~= digits.subrange(0, i - start));
            assert(next == decimal_value(longer));
        }
        if next > 0x8000_0000_0000_0000 {
            proof {
                assert(s@.subrange(0, s@.len() as int) =~= s@);
                if all_digits(digits) {
                    lemma_decimal_grows(digits, i + 1 - start);
                }
            }
            return None;
        }
        value = next;
        i = i + 1;
    }
    proof {
        assert(digits.subrange(0, digits.len() as int) =~= digits);
        assert(s@.subrange(0, s@.len() as int) =~= s@);
    }
    if negative {
        Some((-value) as i64)
    } else if value > i64::MAX as i128 {
        None
    } else {
        Some(value as i64)
    }
}

/// The decimal digits of a natural number.
pub open spec fn decimal(n: nat) -> Seq<char>
    decreases n,
{
    if n < 10 {
        seq![('0' as int + n) as char]
    } else {
        decimal(n / 10).push(('0' as int + n % 10) as char)
    }
}

/// The decimal form of an integer.
pub open spec fn integer_text(n: int) -> Seq<char> {
    if n < 0 {
        seq!['-'] + decimal((-n) as nat)
    } else {
        decimal(n as nat)
    }
}

/// The decimal digits of an unsigned number.
pub fn decimal_u64(n: u64) -> (r: String)
    ensures
        r@ == decimal(n as nat),
    decreases n,
{
    let last: u8 = (n % 10) as u8;
    let digit: char = (48 + last) as char;
    let mut out = if n < 10 { String::new() } else { decimal_u64(n / 10) };
    push_char(&mut out, digit);
    proof {
        assert(n < 10 ==> out@ =~= decimal(n as nat));
    }
    out
}

/// The decimal form of a signed number.
pub fn decimal_i64(n: i64) -> (r: String)
    ensures
        r@ == integer_text(n as int),
{
    if n < 0 {
        let magnitude: i128 = -(n as i128);
        let digits = decimal_u64(magnitude as u64);
        let mut out = String::new();
        push_char(&mut out, '-');
        out.append(digits.as_str());
        proof {
            assert(out@ =~= integer_text(n as int));
        }
        out
    } else {
        decimal_u64(n as u64)
    }
}

/// The first position from `from` on at which `part` occurs in `s`.
pub open spec fn first_at(s: Seq<char>, part: Seq<char>, from: int) -> Option<int>
    decreases s.len() - from + 1,
{
    if from < 0 || from + part.len() > s.len() {
        None
    } else if occurs_at(s, part, from) {
        Some(from)
    } else {
        first_at(s, part, from + 1)
    }
}

/// What comes behind the first occurrence of `part` in `s`.
pub open spec fn after_first(s: Seq<char>, part: Seq<char>) -> Option<Seq<char>> {
    match first_at(s, part, 0) {
        Some(at) => Some(s.subrange(at + part.len(), s.len() as int)),
        None => None,
    }
}

/// What comes in front of the first occurrence of `part` in `s`.
pub open spec fn before_first(s: Seq<char>, part: Seq<char>) -> Option<Seq<char>> {
    match first_at(s, part, 0) {
        Some(at) => Some(s.subrange(0, at)),
        None => None,
    }
}

fn find_first(text: &Vec<char>, wanted: &Vec<char>) -> (r: Option<usize>)
    ensures
        match first_at(text@, wanted@, 0) {
            Some(at) => r is Some && r->0 == at && at + wanted@.len() <= text@.len(),
            None => r is None,
        },
{
    if wanted.len() > text.len() {
        return None;
    }
    let last: usize = text.len() - wanted.len();
    let mut at: usize = 0;
    while at < last
        invariant
            last + wanted@.len() == text@.len(),
            at <= last,
            first_at(text@, wanted@, 0) == first_at(text@, wanted@, at as int),
        decreases last - at,
    {
        if matches_at(text, wanted, at) {
            return Some(at);
        }
        at = at + 1;
    }
    proof {
        reveal_with_fuel(first_at, 2);
    }
    if matches_at(text, wanted, at) {
        Some(at)
    } else {
        None
    }
}

/// What comes behind the first occurrence of `part` in `s`.
pub fn text_after(s: &str, part: &str) -> (r: Option<String>)
    ensures
        opt_text(r) == after_first(s@, part@),
{
    let text = chars_of(s);
    let wanted = chars_of(part);
    let end: usize = text.len();
    match find_first(&text, &wanted) {
        Some(at) => Some(s.substring_char(at + wanted.len(), end).to_owned()),
        None => None,
    }
}

/// What comes in front of the first occurrence of `part` in `s`.
pub fn text_before(s: &str, part: &str) -> (r: Option<String>)
    ensures
        opt_text(r) == before_first(s@, part@),
{
    let text = chars_of(s);
    let wanted = chars_of(part);
    match find_first(&text, &wanted) {
        Some(at) => Some(s.substring_char(0, at).to_owned()),
        None => None,
    }
}

/// The number that `s` writes: decimal digits behind an optional plus sign, within `u32`.
pub open spec fn small_number_of(s: Seq<char>) -> Option<u32> {
    if s.len() > 0 && s[0] == '-' {
        None
    } else {
        match integer_of(s) {
            Some(n) => if n <= u32::MAX {
                Some(n as u32)
            } else {
                None
            },
            None => None,
        }
    }
}

/// The number that `s` writes: decimal digits behind an optional plus sign, within `u32`.
pub fn parse_u32(s: &str) -> (r: Option<u32>)
    ensures
        r == small_number_of(s@),
{
    let text = chars_of(s);
    if text.len() > 0 && text[0] == '-' {
        return None;
    }
    match parse_i64(s) {
        Some(n) => {
            proof {
                lemma_unsigned(s@);
            }
            if n <= u32::MAX as i64 {
                Some(n as u32)
            } else {
                None
            }
        },
        None => None,
    }
}

proof fn lemma_unsigned(s: Seq<char>)
    requires
        integer_of(s) is Some,
        !(s.len() > 0 && s[0] == '-'),
    ensures
        integer_of(s)->0 >= 0,
{
    let signed = s.len() > 0 && (s[0] == '-' || s[0] == '+');
    let digits = if signed {
        s.subrange(1, s.len() as int)
    } else {
        s
    };
    lemma_decimal_grows(digits, digits.len() as int);
    assert(digits.subrange(0, digits.len() as int) =~= digits);
}

/// Three texts one behind the other.
pub fn cat3(a: &str, b: &str, c: &str) -> (r: String)
    ensures
        r@ == a@ + b@ + c@,
{
    let mut out = cat(a, b);
    out.append(c);
    out
}

/// `String::from_utf8`: the text of bytes that are UTF-8, and an error for all others.
#[verifier::external_body]
pub(crate) fn utf8_text(bytes: &[u8]) -> (r: Option<String>)
    ensures
        r matches Some(text) ==> valid_utf8(bytes@) && text@ == decode_utf8(bytes@),
        r is None ==> !valid_utf8(bytes@),
{
    String::from_utf8(bytes.to_vec()).ok()
}

proof fn lemma_decimal_end(n: nat)
    ensures
        decimal(n).len() > 0,
        n < 10 ==> decimal(n).len() == 1,
        n >= 10 ==> decimal(n).len() > 1,
        decimal(n).last() as int == '0' as int + n % 10,
    decreases n,
{
    if n >= 10 {
        lemma_decimal_end(n / 10);
        assert(decimal(n).last() == ('0' as int + n % 10) as char);
    } else {
        assert(decimal(n) == seq![('0' as int + n) as char]);
    }
}

/// Different numbers have different digits.
pub proof fn lemma_decimal_differs(a: nat, b: nat)
    requires
        a != b,
    ensures
        decimal(a) != decimal(b),
    decreases a,
{
    lemma_decimal_end(a);
    lemma_decimal_end(b);
    if decimal(a) == decimal(b) {
        assert(a % 10 == b % 10);
        if a >= 10 && b >= 10 {
            assert(decimal(a).drop_last() =~= decimal(a / 10));
            assert(decimal(b).drop_last() =~= decimal(b / 10));
            lemma_decimal_differs(a / 10, b / 10);
        }
    }
}

} // verus!
