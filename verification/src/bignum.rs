//! Natural numbers of any size, held as big-endian bytes. The arithmetic is that of `num_bigint`.
use crate::error::Result;
use vstd::arithmetic::div_mod::{lemma_mul_mod_noop_left, lemma_mul_mod_noop_right, lemma_small_mod};
use vstd::arithmetic::mul::lemma_mul_is_associative;
use vstd::arithmetic::power::{
    lemma_pow0, lemma_pow1, lemma_pow_adds, lemma_pow_mod_noop, lemma_pow_multiplies, pow,
};
use vstd::prelude::*;

verus! {

/// The number that big-endian bytes write.
pub open spec fn be_value(bytes: Seq<u8>) -> nat
    decreases bytes.len(),
{
    if bytes.len() == 0 {
        0
    } else {
        be_value(bytes.subrange(0, bytes.len() - 1)) * 256 + bytes[bytes.len() - 1] as nat
    }
}

/// The shortest big-endian bytes of a number; one zero byte for zero.
pub open spec fn be_bytes(n: nat) -> Seq<u8>
    decreases n,
{
    if n < 256 {
        seq![n as u8]
    } else {
        be_bytes(n / 256).push((n % 256) as u8)
    }
}

/// Reading the bytes of a number gives the number back.
pub proof fn lemma_be_round_trip(n: nat)
    ensures
        be_value(be_bytes(n)) == n,
    decreases n,
{
    if n < 256 {
        let b = seq![n as u8];
        assert(b.subrange(0, 0) =~= Seq::<u8>::empty());
        assert(be_value(b.subrange(0, b.len() - 1)) == 0);
    } else {
        lemma_be_round_trip(n / 256);
        let b = be_bytes(n);
        assert(b.subrange(0, b.len() - 1) =~= be_bytes(n / 256));
    }
}

/// Leading zero bytes do not change the number that bytes write.
pub proof fn lemma_be_value_zeros(bytes: Seq<u8>, n: nat)
    ensures
        be_value(Seq::new(n, |i: int| 0u8) + bytes) == be_value(bytes),
    decreases n + bytes.len(),
{
    let zeros = Seq::new(n, |i: int| 0u8);
    let all = zeros + bytes;
    if bytes.len() == 0 {
        assert(all =~= zeros);
        if n > 0 {
            lemma_be_value_zeros(bytes, (n - 1) as nat);
            let fewer = Seq::new((n - 1) as nat, |i: int| 0u8);
            assert(all.subrange(0, all.len() - 1) =~= fewer + bytes);
        }
    } else {
        let front = bytes.subrange(0, bytes.len() - 1);
        lemma_be_value_zeros(front, n);
        assert(all.subrange(0, all.len() - 1) =~= zeros + front);
    }
}

/// A natural number.
#[derive(Debug, PartialEq)]
pub struct BigUint {
    digits: Vec<u8>,
}

impl View for BigUint {
    type V = nat;

    closed spec fn view(&self) -> nat {
        be_value(self.digits@)
    }
}

impl BigUint {
    /// The digits are the shortest that write the number.
    #[verifier::type_invariant]
    spec fn shortest(self) -> bool {
        self.digits@ == be_bytes(be_value(self.digits@))
    }

    fn of_shortest(digits: Vec<u8>, Ghost(n): Ghost<nat>) -> (r: BigUint)
        requires
            digits@ == be_bytes(n),
        ensures
            r@ == n,
    {
        proof {
            lemma_be_round_trip(n);
        }
        BigUint { digits }
    }

    /// The number that big-endian bytes write.
    pub fn from_bytes_be(bytes: &[u8]) -> (r: BigUint)
        ensures
            r@ == be_value(bytes@),
    {
        let digits = shortest_be(bytes);
        BigUint::of_shortest(digits, Ghost(be_value(bytes@)))
    }

    /// The shortest big-endian bytes of this number.
    pub fn to_bytes_be(&self) -> (r: Vec<u8>)
        ensures
            r@ == be_bytes(self@),
    {
        proof {
            use_type_invariant(self);
        }
        self.copy_digits()
    }

    fn copy_digits(&self) -> (r: Vec<u8>)
        ensures
            r@ == self.digits@,
    {
        let mut out: Vec<u8> = Vec::new();
        out.extend_from_slice(self.digits.as_slice());
        proof {
            assert(out@ =~= self.digits@);
        }
        out
    }

    /// The number zero.
    pub fn zero() -> (r: BigUint)
        ensures
            r@ == 0,
    {
        BigUint::from_byte(0)
    }

    /// The number of one byte.
    pub fn from_byte(n: u8) -> (r: BigUint)
        ensures
            r@ == n,
    {
        let mut digits: Vec<u8> = Vec::new();
        digits.push(n);
        proof {
            assert(digits@ =~= be_bytes(n as nat));
        }
        BigUint::of_shortest(digits, Ghost(n as nat))
    }

    /// An equal number.
    pub fn copy(&self) -> (r: BigUint)
        ensures
            r@ == self@,
    {
        proof {
            use_type_invariant(self);
        }
        BigUint::of_shortest(self.copy_digits(), Ghost(self@))
    }

    /// Whether this is zero.
    pub fn is_zero(&self) -> (r: bool)
        ensures
            r == (self@ == 0),
    {
        is_zero_be(self.digits.as_slice())
    }

    /// Whether this is odd.
    pub fn is_odd(&self) -> (r: bool)
        ensures
            r == (self@ % 2 == 1),
    {
        low_bit_be(self.digits.as_slice())
    }

    /// Whether this is at least `other`.
    pub fn at_least(&self, other: &BigUint) -> (r: bool)
        ensures
            r == (self@ >= other@),
    {
        at_least_be(self.digits.as_slice(), other.digits.as_slice())
    }

    /// The sum.
    pub fn plus(&self, other: &BigUint) -> (r: BigUint)
        ensures
            r@ == self@ + other@,
    {
        let digits = sum_be(self.digits.as_slice(), other.digits.as_slice());
        BigUint::of_shortest(digits, Ghost(self@ + other@))
    }

    /// The difference.
    pub fn minus(&self, other: &BigUint) -> (r: BigUint)
        requires
            self@ >= other@,
        ensures
            r@ == self@ - other@,
    {
        let digits = difference_be(self.digits.as_slice(), other.digits.as_slice());
        BigUint::of_shortest(digits, Ghost((self@ - other@) as nat))
    }

    /// The product.
    pub fn times(&self, other: &BigUint) -> (r: BigUint)
        ensures
            r@ == self@ * other@,
    {
        let digits = product_be(self.digits.as_slice(), other.digits.as_slice());
        BigUint::of_shortest(digits, Ghost(self@ * other@))
    }

    /// The remainder of the division by `modulus`.
    pub fn remainder(&self, modulus: &BigUint) -> (r: BigUint)
        requires
            modulus@ != 0,
        ensures
            r@ == self@ % modulus@,
    {
        let digits = remainder_be(self.digits.as_slice(), modulus.digits.as_slice());
        BigUint::of_shortest(digits, Ghost(self@ % modulus@))
    }

    /// Half of this, rounded down.
    pub fn half(&self) -> (r: BigUint)
        ensures
            r@ == self@ / 2,
    {
        let digits = half_be(self.digits.as_slice());
        BigUint::of_shortest(digits, Ghost(self@ / 2))
    }
}

impl Clone for BigUint {
    fn clone(&self) -> (r: BigUint)
        ensures
            r@ == self@,
    {
        self.copy()
    }
}

/// `num_bigint::BigUint::from_bytes_be` and back with `to_bytes_be`: the shortest bytes of the
/// number that the bytes write.
#[verifier::external_body]
fn shortest_be(bytes: &[u8]) -> (r: Vec<u8>)
    ensures
        r@ == be_bytes(be_value(bytes@)),
{
    num_bigint::BigUint::from_bytes_be(bytes).to_bytes_be()
}

/// `num_bigint::BigUint` is zero (`num_traits::Zero::is_zero`).
#[verifier::external_body]
fn is_zero_be(a: &[u8]) -> (r: bool)
    ensures
        r == (be_value(a@) == 0),
{
    num_traits::Zero::is_zero(&num_bigint::BigUint::from_bytes_be(a))
}

/// `num_bigint::BigUint::bit` at position zero: whether the number is odd.
#[verifier::external_body]
fn low_bit_be(a: &[u8]) -> (r: bool)
    ensures
        r == (be_value(a@) % 2 == 1),
{
    num_bigint::BigUint::from_bytes_be(a).bit(0)
}

/// `>=` of `num_bigint::BigUint`: the order of the numbers.
#[verifier::external_body]
fn at_least_be(a: &[u8], b: &[u8]) -> (r: bool)
    ensures
        r == (be_value(a@) >= be_value(b@)),
{
    num_bigint::BigUint::from_bytes_be(a) >= num_bigint::BigUint::from_bytes_be(b)
}

/// `+` of `num_bigint::BigUint`.
#[verifier::external_body]
fn sum_be(a: &[u8], b: &[u8]) -> (r: Vec<u8>)
    ensures
        r@ == be_bytes(be_value(a@) + be_value(b@)),
{
    (num_bigint::BigUint::from_bytes_be(a) + num_bigint::BigUint::from_bytes_be(b)).to_bytes_be()
}

/// `-` of `num_bigint::BigUint`, which panics where the result would be below zero.
#[verifier::external_body]
fn difference_be(a: &[u8], b: &[u8]) -> (r: Vec<u8>)
    requires
        be_value(a@) >= be_value(b@),
    ensures
        r@ == be_bytes((be_value(a@) - be_value(b@)) as nat),
{
    (num_bigint::BigUint::from_bytes_be(a) - num_bigint::BigUint::from_bytes_be(b)).to_bytes_be()
}

/// `*` of `num_bigint::BigUint`.
#[verifier::external_body]
fn product_be(a: &[u8], b: &[u8]) -> (r: Vec<u8>)
    ensures
        r@ == be_bytes(be_value(a@) * be_value(b@)),
{
    (num_bigint::BigUint::from_bytes_be(a) * num_bigint::BigUint::from_bytes_be(b)).to_bytes_be()
}

/// `%` of `num_bigint::BigUint`, which panics on a zero modulus.
#[verifier::external_body]
fn remainder_be(a: &[u8], m: &[u8]) -> (r: Vec<u8>)
    requires
        be_value(m@) != 0,
    ensures
        r@ == be_bytes(be_value(a@) % be_value(m@)),
{
    (num_bigint::BigUint::from_bytes_be(a) % num_bigint::BigUint::from_bytes_be(m)).to_bytes_be()
}

/// `>>` of `num_bigint::BigUint` by one bit.
#[verifier::external_body]
fn half_be(a: &[u8]) -> (r: Vec<u8>)
    ensures
        r@ == be_bytes(be_value(a@) / 2),
{
    (num_bigint::BigUint::from_bytes_be(a) >> 1u8).to_bytes_be()
}

/// The remainder of a division, taken as zero for a zero modulus.
pub open spec fn mod_value(n: nat, m: nat) -> nat {
    if m == 0 {
        0
    } else {
        n % m
    }
}

/// The remainder of `left` modulo `modulus`; zero where the modulus is zero.
pub fn mod_(left: &BigUint, modulus: &BigUint) -> (r: BigUint)
    ensures
        r@ == mod_value(left@, modulus@),
{
    if modulus.is_zero() {
        return BigUint::zero();
    }
    left.remainder(modulus)
}

/// `base` to the power of `exponent`, modulo `modulus`. The empty product is one, and everything
/// else is zero modulo zero.
pub open spec fn power_mod(base: nat, exponent: nat, modulus: nat) -> nat {
    if exponent == 0 {
        1
    } else {
        mod_value(pow(base as int, exponent) as nat, modulus)
    }
}

/// A power of a natural number is a natural number.
pub proof fn lemma_power_natural(b: nat, e: nat)
    ensures
        pow(b as int, e) >= 0,
    decreases e,
{
    if e == 0 {
        lemma_pow0(b as int);
    } else {
        lemma_power_natural(b, (e - 1) as nat);
        lemma_pow1(b as int);
        lemma_pow_adds(b as int, 1, (e - 1) as nat);
        let p = pow(b as int, (e - 1) as nat);
        assert(b * p >= 0) by (nonlinear_arith)
            requires
                p >= 0,
                b >= 0,
        ;
    }
}

/// One step of square and multiply keeps the product of the result and the remaining power.
proof fn lemma_square_step(result: int, base: int, exp: nat, m: int)
    requires
        m > 0,
        exp > 0,
    ensures
        ({
            let next = if exp % 2 == 1 {
                (result * base) % m
            } else {
                result
            };
            (next * pow((base * base) % m, exp / 2)) % m == (result * pow(base, exp)) % m
        }),
{
    let half = exp / 2;
    let square = base * base;
    lemma_pow_mod_noop(square, half, m);
    lemma_pow1(base);
    lemma_pow_adds(base, 1, 1);
    assert(pow(base, 2) == square);
    lemma_pow_multiplies(base, 2, half);
    assert(pow(square, half) == pow(base, 2 * half));
    let q = pow(square % m, half);
    let p = pow(base, 2 * half);
    assert(q % m == p % m);
    if exp % 2 == 1 {
        assert(exp == 1 + 2 * half);
        lemma_pow_adds(base, 1, 2 * half);
        let rb = result * base;
        lemma_mul_mod_noop_left(rb, q, m);
        lemma_mul_mod_noop_right(rb, q, m);
        lemma_mul_mod_noop_right(rb, p, m);
        lemma_mul_is_associative(result, base, p);
    } else {
        assert(exp == 2 * half);
        lemma_mul_mod_noop_right(result, q, m);
        lemma_mul_mod_noop_right(result, p, m);
    }
}

/// `base` to the power of `exponent`, modulo `modulus`.
pub fn powermod(base: &BigUint, exponent: &BigUint, modulus: &BigUint) -> (r: Result<BigUint>)
    ensures
        r is Ok && r->Ok_0@ == power_mod(base@, exponent@, modulus@),
{
    Ok(power_residue(base, exponent, modulus))
}

/// `base` to the power of `exponent`, modulo `modulus`.
pub(crate) fn power_residue(base: &BigUint, exponent: &BigUint, modulus: &BigUint) -> (r: BigUint)
    ensures
        r@ == power_mod(base@, exponent@, modulus@),
{
    if exponent.is_zero() {
        return BigUint::from_byte(1);
    }
    let ghost b0 = base@;
    let ghost e0 = exponent@;
    let m = modulus;
    let mut result = BigUint::from_byte(1);
    let mut power = mod_(base, m);
    let mut exp = exponent.copy();
    proof {
        if m@ > 0 {
            lemma_pow_mod_noop(b0 as int, e0, m@ as int);
            assert(1 * pow(power@ as int, e0) == pow(power@ as int, e0));
        }
    }
    while !exp.is_zero()
        invariant
            e0 > 0,
            m@ == 0 ==> power@ == 0 && (result@ == 0 || exp@ > 0),
            m@ > 0 ==> (result@ < m@ || exp@ > 0),
            m@ > 0 ==> (result@ as int * pow(power@ as int, exp@)) % (m@ as int) == pow(
                b0 as int,
                e0,
            ) % (m@ as int),
        decreases exp@,
    {
        let ghost r0 = result@;
        let ghost p0 = power@;
        let ghost x0 = exp@;
        proof {
            if m@ > 0 {
                lemma_square_step(r0 as int, p0 as int, x0, m@ as int);
            }
        }
        if exp.is_odd() {
            result = mod_(&result.times(&power), m);
        }
        exp = exp.half();
        if !exp.is_zero() {
            power = mod_(&power.times(&power), m);
        } else {
            proof {
                lemma_pow0(((p0 * p0) as int) % (m@ as int));
                lemma_pow0(p0 as int);
            }
        }
    }
    proof {
        lemma_power_natural(b0, e0);
        if m@ > 0 {
            lemma_pow0(power@ as int);
            lemma_small_mod(result@, m@);
        }
    }
    result
}

/// A power modulo a number above one is below that number.
pub proof fn law_power_mod_bounded(base: nat, exponent: nat, modulus: nat)
    requires
        modulus > 1,
    ensures
        power_mod(base, exponent, modulus) < modulus,
{
    lemma_power_natural(base, exponent);
}

/// Both sides of an exchange reach the same number: raising to one exponent and then to another
/// gives the same either way round.
pub proof fn law_power_mod_commutes(g: nat, a: nat, b: nat, m: nat)
    requires
        m > 1,
        a > 0,
        b > 0,
    ensures
        power_mod(power_mod(g, a, m), b, m) == power_mod(power_mod(g, b, m), a, m),
{
    lemma_power_natural(g, a);
    lemma_power_natural(g, b);
    let pa = pow(g as int, a);
    let pb = pow(g as int, b);
    lemma_pow_mod_noop(pa, b, m as int);
    lemma_pow_mod_noop(pb, a, m as int);
    lemma_pow_multiplies(g as int, a, b);
    lemma_pow_multiplies(g as int, b, a);
    assert(a * b == b * a) by (nonlinear_arith);
    lemma_power_natural(power_mod(g, a, m), b);
    lemma_power_natural(power_mod(g, b, m), a);
}

} // verus!
