//! Amounts of motes, the smallest unit of the network's token.

use vstd::arithmetic::power2::{lemma2_to64, lemma_pow2_adds, pow2};
use vstd::prelude::*;
use vstd::string::StringSliceAdditionalSpecFns;

verus! {

broadcast use vstd::array::group_array_axioms;

/// Number of 64-bit limbs of an amount.
pub const LIMBS: usize = 8;

/// Why a decimal text is no amount.
#[derive(Clone, Copy, Debug, PartialEq, Eq, Structural)]
pub enum FromDecStrErr {
    /// A character is not in the range 0-9.
    InvalidCharacter,
    /// The number is too large for the type.
    InvalidLength,
}

/// The base of the limbs: 2^64.
pub open spec fn base() -> nat {
    0x1_0000_0000_0000_0000
}

/// The weight of limb `k`: 2^(64 k).
pub open spec fn weight(k: nat) -> nat
    decreases k,
{
    if k == 0 {
        1
    } else {
        base() * weight((k - 1) as nat)
    }
}

/// The first number that is too large for an amount: 2^512.
pub open spec fn limit() -> nat {
    weight(LIMBS as nat)
}

/// The number that the first `n` limbs stand for, the least significant limb first.
pub open spec fn limbs_value(limbs: Seq<u64>, n: nat) -> nat
    decreases n,
{
    if n == 0 {
        0
    } else {
        limbs_value(limbs, (n - 1) as nat) + limbs[n - 1] as nat * weight((n - 1) as nat)
    }
}

/// Whether `byte` is the code of one of the characters 0-9.
pub open spec fn is_digit(byte: u8) -> bool {
    48 <= byte <= 57
}

/// Whether every byte of `text` is a digit.
pub open spec fn all_digits(text: Seq<u8>) -> bool {
    forall|i: int| 0 <= i < text.len() ==> is_digit(#[trigger] text[i])
}

/// The number that the digits of `text` write in base ten; the empty text writes zero.
pub open spec fn dec_value(text: Seq<u8>) -> nat
    decreases text.len(),
{
    if text.len() == 0 {
        0
    } else {
        dec_value(text.drop_last()) * 10 + (text.last() - 48) as nat
    }
}

/// An amount of motes: a number below 2^512.
#[derive(Clone, Copy, Debug, PartialEq, Eq)]
pub struct Motes {
    limbs: [u64; 8],
}

impl View for Motes {
    type V = nat;

    closed spec fn view(&self) -> nat {
        limbs_value(self.limbs@, LIMBS as nat)
    }
}

/// The first `n` limbs stand for a number below the weight of limb `n`.
proof fn lemma_limbs_value_bound(limbs: Seq<u64>, n: nat)
    requires
        n <= limbs.len(),
    ensures
        limbs_value(limbs, n) < weight(n),
    decreases n,
{
    if n > 0 {
        let m = (n - 1) as nat;
        lemma_limbs_value_bound(limbs, m);
        let low = limbs_value(limbs, m);
        let w = weight(m);
        let limb = limbs[n - 1] as nat;
        assert(limb + 1 <= base());
        assert(low + limb * w < base() * w) by (nonlinear_arith)
            requires
                low < w,
                limb + 1 <= base(),
        ;
    }
}

/// The value of the first `n` limbs does not depend on the limbs that follow.
proof fn lemma_limbs_value_prefix(a: Seq<u64>, b: Seq<u64>, n: nat)
    requires
        n <= a.len(),
        n <= b.len(),
        forall|j: int| 0 <= j < n ==> a[j] == b[j],
    ensures
        limbs_value(a, n) == limbs_value(b, n),
    decreases n,
{
    if n > 0 {
        lemma_limbs_value_prefix(a, b, (n - 1) as nat);
    }
}

/// A text of digits writes a number no smaller than any of its prefixes does.
proof fn lemma_dec_value_prefix(text: Seq<u8>, n: int)
    requires
        all_digits(text),
        0 <= n <= text.len(),
    ensures
        dec_value(text.take(n)) <= dec_value(text),
    decreases text.len() - n,
{
    if n == text.len() {
        assert(text.take(n) =~= text);
    } else {
        lemma_dec_value_prefix(text, n + 1);
        let longer = text.take(n + 1);
        assert(longer.drop_last() =~= text.take(n));
        assert(is_digit(text[n]));
        assert(longer.last() == text[n]);
    }
}

/// One step of reading a decimal text: multiplies the amount in `limbs` by ten and adds `digit`.
/// Tells whether the result was too large; `limbs` then holds its low 512 bits.
fn mul10_add(limbs: &mut [u64; 8], digit: u8) -> (overflow: bool)
    requires
        digit <= 9,
    ensures
        overflow <==> limbs_value(old(limbs)@, LIMBS as nat) * 10 + digit >= limit(),
        !overflow ==> limbs_value(final(limbs)@, LIMBS as nat) == limbs_value(
            old(limbs)@,
            LIMBS as nat,
        ) * 10 + digit,
{
    let ghost before = limbs@;
    let mut carry: u64 = digit as u64;
    let mut i: usize = 0;
    proof {
        let w = weight(0);
        assert(carry as nat * w == digit) by (nonlinear_arith)
            requires
                w == 1,
                carry == digit,
        ;
    }
    while i < 8
        invariant
            i <= 8,
            carry <= 9,
            limbs@.len() == 8,
            before.len() == 8,
            forall|j: int| i <= j < 8 ==> limbs@[j] == before[j],
            limbs_value(limbs@, i as nat) + carry as nat * weight(i as nat) == limbs_value(
                before,
                i as nat,
            ) * 10 + digit,
        decreases 8 - i,
    {
        let ghost current = limbs@;
        let limb: u64 = limbs[i];
        let wide: u128 = limb as u128 * 10 + carry as u128;
        let low: u64 = (wide & 0xffff_ffff_ffff_ffff) as u64;
        let high: u64 = (wide >> 64) as u64;
        assert(low as nat + high as nat * base() == wide as nat && high <= 9) by (bit_vector)
            requires
                wide <= 0xffff_ffff_ffff_ffffu128 * 10 + 9,
                low == (wide & 0xffff_ffff_ffff_ffff) as u64,
                high == (wide >> 64) as u64,
        ;
        limbs[i] = low;
        proof {
            let k = i as nat;
            let w = weight(k);
            lemma_limbs_value_prefix(limbs@, current, k);
            let new_low = limbs_value(limbs@, k);
            let old_low = limbs_value(before, k);
            assert(limbs_value(limbs@, k + 1) == new_low + low as nat * w);
            assert(limbs_value(before, k + 1) == old_low + limb as nat * w);
            assert(weight(k + 1) == base() * w);
            assert(new_low + low as nat * w + high as nat * (base() * w) == (old_low + limb as nat
                * w) * 10 + digit) by (nonlinear_arith)
                requires
                    new_low + carry as nat * w == old_low * 10 + digit,
                    low as nat + high as nat * base() == limb as nat * 10 + carry as nat,
            ;
        }
        carry = high;
        i = i + 1;
    }
    proof {
        lemma_limbs_value_bound(limbs@, LIMBS as nat);
        let w = limit();
        let value = limbs_value(limbs@, LIMBS as nat);
        assert(carry >= 1 ==> value + carry as nat * w >= w) by (nonlinear_arith)
            requires
                w >= 0,
        ;
    }
    carry != 0
}

impl Motes {
    /// The amount zero.
    pub fn zero() -> (motes: Self)
        ensures
            motes@ == 0,
    {
        let motes = Motes { limbs: [0u64; 8] };
        proof {
            lemma_zero_limbs(motes.limbs@, 0, LIMBS as nat);
        }
        motes
    }

    /// The amount whose limbs are `limbs`, the least significant first.
    pub fn from_limbs(limbs: [u64; 8]) -> (motes: Self)
        ensures
            motes@ == limbs_value(limbs@, LIMBS as nat),
    {
        Motes { limbs }
    }

    /// The limbs of the amount, the least significant first.
    pub fn limbs(&self) -> (limbs: [u64; 8])
        ensures
            limbs_value(limbs@, LIMBS as nat) == self@,
    {
        self.limbs
    }

    /// The amount `value`.
    pub fn from_u64(value: u64) -> (motes: Self)
        ensures
            motes@ == value,
    {
        let mut limbs = [0u64; 8];
        limbs[0] = value;
        let motes = Motes { limbs };
        proof {
            lemma_lowest_limb(limbs@);
            lemma_zero_limbs(limbs@, 1, LIMBS as nat);
        }
        motes
    }

    /// The amount, if it fits in 64 bits.
    pub fn as_u64(&self) -> (value: Option<u64>)
        ensures
            match value {
                Some(v) => self@ == v,
                None => self@ > u64::MAX,
            },
    {
        let mut i: usize = 1;
        while i < 8
            invariant
                1 <= i <= 8,
                forall|j: int| 1 <= j < i ==> self.limbs@[j] == 0,
            decreases 8 - i,
        {
            if self.limbs[i] != 0 {
                proof {
                    lemma_high_limb(self.limbs@, i as nat);
                }
                return None;
            }
            i = i + 1;
        }
        proof {
            lemma_lowest_limb(self.limbs@);
            lemma_zero_limbs(self.limbs@, 1, LIMBS as nat);
        }
        Some(self.limbs[0])
    }

    /// Reads an amount written in base ten.  A character that is no digit makes the text
    /// invalid, wherever it stands; a text of digits is too long when its number does not fit in
    /// 512 bits.  The empty text is the amount zero.
    pub fn from_dec_str(text: &str) -> (res: Result<Motes, FromDecStrErr>)
        ensures
            match res {
                Ok(motes) => all_digits(text.spec_bytes()) && motes@ == dec_value(
                    text.spec_bytes(),
                ) && motes@ < limit(),
                Err(FromDecStrErr::InvalidCharacter) => !all_digits(text.spec_bytes()),
                Err(FromDecStrErr::InvalidLength) => all_digits(text.spec_bytes()) && dec_value(
                    text.spec_bytes(),
                ) >= limit(),
            },
    {
        let bytes = text.as_bytes();
        let mut i: usize = 0;
        while i < bytes.len()
            invariant
                i <= bytes@.len(),
                bytes@ == text.spec_bytes(),
                forall|j: int| 0 <= j < i ==> is_digit(#[trigger] bytes@[j]),
            decreases bytes@.len() - i,
        {
            if !(bytes[i] >= 48 && bytes[i] <= 57) {
                assert(!is_digit(bytes@[i as int]));
                return Err(FromDecStrErr::InvalidCharacter);
            }
            i = i + 1;
        }
        let mut limbs = [0u64; 8];
        proof {
            lemma_zero_limbs(limbs@, 0, LIMBS as nat);
            assert(bytes@.take(0) =~= Seq::<u8>::empty());
        }
        let mut k: usize = 0;
        while k < bytes.len()
            invariant
                k <= bytes@.len(),
                bytes@ == text.spec_bytes(),
                all_digits(bytes@),
                limbs_value(limbs@, LIMBS as nat) == dec_value(bytes@.take(k as int)),
            decreases bytes@.len() - k,
        {
            let digit: u8 = bytes[k] - 48;
            proof {
                let longer = bytes@.take(k + 1);
                assert(longer.drop_last() =~= bytes@.take(k as int));
                assert(longer.last() == bytes@[k as int]);
                assert(is_digit(bytes@[k as int]));
                assert(dec_value(longer) == dec_value(bytes@.take(k as int)) * 10 + digit);
                lemma_dec_value_prefix(bytes@, k + 1);
            }
            let overflow = mul10_add(&mut limbs, digit);
            if overflow {
                return Err(FromDecStrErr::InvalidLength);
            }
            k = k + 1;
        }
        proof {
            assert(bytes@.take(k as int) =~= bytes@);
            lemma_limbs_value_bound(limbs@, LIMBS as nat);
        }
        Ok(Motes { limbs })
    }
}

/// Limbs that are zero add nothing.
proof fn lemma_zero_limbs(limbs: Seq<u64>, m: nat, n: nat)
    requires
        m <= n <= limbs.len(),
        forall|j: int| m <= j < n ==> limbs[j] == 0,
    ensures
        limbs_value(limbs, n) == limbs_value(limbs, m),
    decreases n,
{
    if m < n {
        lemma_zero_limbs(limbs, m, (n - 1) as nat);
        let w = weight((n - 1) as nat);
        assert(0 * w == 0) by (nonlinear_arith);
    }
}

/// The lowest limb counts as it is.
proof fn lemma_lowest_limb(limbs: Seq<u64>)
    requires
        limbs.len() >= 1,
    ensures
        limbs_value(limbs, 1) == limbs[0],
{
    reveal_with_fuel(limbs_value, 2);
    let w = weight(0);
    let limb = limbs[0] as nat;
    assert(limb * w == limb) by (nonlinear_arith)
        requires
            w == 1,
    ;
}

/// The weight of limb `k` is 2^(64 k).
pub proof fn lemma_weight_is_power_of_two(k: nat)
    ensures
        weight(k) == pow2(64 * k),
    decreases k,
{
    lemma2_to64();
    if k > 0 {
        lemma_weight_is_power_of_two((k - 1) as nat);
        lemma_pow2_adds(64, (64 * (k - 1)) as nat);
        assert(64 + 64 * (k - 1) == 64 * k);
    }
}

/// The first number that is too large for an amount is 2^512.
pub proof fn lemma_limit_is_two_to_the_512()
    ensures
        limit() == pow2(512),
{
    lemma_weight_is_power_of_two(8);
}

/// A limb above the lowest that is not zero makes the number exceed 64 bits.
proof fn lemma_high_limb(limbs: Seq<u64>, i: nat)
    requires
        limbs.len() == 8,
        1 <= i < 8,
        limbs[i as int] != 0,
    ensures
        limbs_value(limbs, LIMBS as nat) > u64::MAX,
{
    lemma_limbs_value_monotonic(limbs, i + 1, LIMBS as nat);
    lemma_weight_grows(i);
    let low = limbs_value(limbs, i);
    let limb = limbs[i as int] as nat;
    let w = weight(i);
    assert(low + limb * w >= base()) by (nonlinear_arith)
        requires
            limb >= 1,
            w >= base(),
            low >= 0,
    ;
}

/// More limbs stand for no smaller a number.
proof fn lemma_limbs_value_monotonic(limbs: Seq<u64>, m: nat, n: nat)
    requires
        m <= n,
    ensures
        limbs_value(limbs, m) <= limbs_value(limbs, n),
    decreases n,
{
    if m < n {
        lemma_limbs_value_monotonic(limbs, m, (n - 1) as nat);
        let limb = limbs[n - 1] as nat;
        let w = weight((n - 1) as nat);
        assert(limb * w >= 0) by (nonlinear_arith)
            requires
                limb >= 0,
                w >= 0,
        ;
    }
}

/// Every limb but the lowest weighs at least 2^64.
proof fn lemma_weight_grows(k: nat)
    requires
        k >= 1,
    ensures
        weight(k) >= base(),
    decreases k,
{
    if k > 1 {
        lemma_weight_grows((k - 1) as nat);
        let w = weight((k - 1) as nat);
        assert(base() * w >= base()) by (nonlinear_arith)
            requires
                w >= 1,
        ;
    } else {
        reveal_with_fuel(weight, 2);
    }
}

} // verus!
