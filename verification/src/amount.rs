//! Unbounded unsigned integers for token amounts.
//!
//! An [`Amount`] is a natural number of any size, held as base-256 digits
//! with the least significant digit first. Every operation is exact.

use vstd::prelude::*;

verus! {

/// The weight of the digit at position `n`: 256 to the power `n`.
spec fn weight(n: nat) -> nat
    decreases n,
{
    if n == 0 {
        1
    } else {
        256 * weight((n - 1) as nat)
    }
}

/// The number that a sequence of base-256 digits stands for, least
/// significant digit first.
pub open spec fn digits_value(s: Seq<u8>) -> nat
    decreases s.len(),
{
    if s.len() == 0 {
        0
    } else {
        s[0] as nat + 256 * digits_value(s.skip(1))
    }
}

/// The number that a sequence of bytes stands for, most significant byte
/// first.
pub open spec fn be_bytes_value(s: Seq<u8>) -> nat {
    digits_value(s.reverse())
}

/// Appending a digit at the most significant end adds it at its weight.
proof fn lemma_value_push(s: Seq<u8>, d: u8)
    ensures
        digits_value(s.push(d)) == digits_value(s) + d as nat * weight(s.len()),
    decreases s.len(),
{
    let t = s.push(d);
    if s.len() == 0 {
        assert(t.skip(1) =~= Seq::<u8>::empty());
        assert(digits_value(t.skip(1)) == 0);
        assert(d as nat * weight(0) == d as nat) by (nonlinear_arith)
            requires
                weight(0) == 1,
        ;
    } else {
        assert(t.skip(1) =~= s.skip(1).push(d));
        lemma_value_push(s.skip(1), d);
        let w = weight(s.skip(1).len());
        assert(weight(s.len()) == 256 * w);
        assert(256 * (digits_value(s.skip(1)) + d as nat * w) == 256 * digits_value(s.skip(1)) + d
            as nat * (256 * w)) by (nonlinear_arith);
    }
}

/// A number of `n` digits is below the weight of position `n`.
proof fn lemma_value_bound(s: Seq<u8>)
    ensures
        digits_value(s) < weight(s.len()),
    decreases s.len(),
{
    if s.len() > 0 {
        lemma_value_bound(s.skip(1));
    }
}

/// The first `i + 1` digits are the first `i` digits and the digit at `i`.
proof fn lemma_value_take_next(s: Seq<u8>, i: int)
    requires
        0 <= i < s.len(),
    ensures
        digits_value(s.take(i + 1)) == digits_value(s.take(i)) + s[i] as nat * weight(i as nat),
{
    assert(s.take(i + 1) =~= s.take(i).push(s[i]));
    lemma_value_push(s.take(i), s[i]);
}

/// The first `i` digits of `s`, or all of them where it has fewer.
spec fn low_digits(s: Seq<u8>, i: int) -> Seq<u8> {
    if i < s.len() {
        s.take(i)
    } else {
        s
    }
}

/// The digit of `s` at position `i`, zero beyond its length.
spec fn digit_at(s: Seq<u8>, i: int) -> u8 {
    if i < s.len() {
        s[i]
    } else {
        0
    }
}

/// The first `i + 1` digits are the first `i` digits and the digit at `i`.
proof fn lemma_low_digits_next(s: Seq<u8>, i: int)
    requires
        0 <= i,
    ensures
        digits_value(low_digits(s, i + 1)) == digits_value(low_digits(s, i)) + digit_at(s, i) as nat
            * weight(i as nat),
{
    if i < s.len() {
        assert(s.take(s.len() as int) =~= s);
        lemma_value_take_next(s, i);
    } else {
        assert(0 * weight(i as nat) == 0) by (nonlinear_arith);
    }
}

/// A number is its lowest digit plus 256 times the number of the digits above it.
proof fn lemma_value_skip_next(s: Seq<u8>, i: int)
    requires
        0 <= i < s.len(),
    ensures
        digits_value(s.skip(i)) == s[i] as nat + 256 * digits_value(s.skip(i + 1)),
{
    assert(s.skip(i).skip(1) =~= s.skip(i + 1));
}

/// A natural number of any size.
#[derive(Debug)]
pub struct Amount {
    digits: Vec<u8>,
}

impl View for Amount {
    type V = nat;

    closed spec fn view(&self) -> nat {
        digits_value(self.digits@)
    }
}

/// Reads the digit at position `i`, zero beyond the length.
fn digit_or_zero(digits: &Vec<u8>, i: usize) -> (d: u8)
    ensures
        d == digit_at(digits@, i as int),
{
    if i < digits.len() {
        digits[i]
    } else {
        0
    }
}

/// Drops the zero digits at the most significant end.
fn trimmed(digits: Vec<u8>) -> (r: Vec<u8>)
    ensures
        digits_value(r@) == digits_value(digits@),
        r@.len() > 0 ==> r@.last() != 0,
        r@.len() <= digits@.len(),
{
    let mut r = digits;
    while r.len() > 0 && r[r.len() - 1] == 0
        invariant
            digits_value(r@) == digits_value(digits@),
            r@.len() <= digits@.len(),
        decreases r@.len(),
    {
        proof {
            let shorter = r@.drop_last();
            assert(r@ =~= shorter.push(0u8));
            lemma_value_push(shorter, 0u8);
            assert(0 * weight(shorter.len()) == 0) by (nonlinear_arith);
        }
        r.pop();
    }
    r
}

impl Amount {
    /// The amount zero.
    pub fn zero() -> (r: Amount)
        ensures
            r@ == 0,
    {
        Amount { digits: Vec::new() }
    }

    /// The amount that equals `x`.
    pub fn from_u64(x: u64) -> (r: Amount)
        ensures
            r@ == x,
    {
        let mut digits: Vec<u8> = Vec::new();
        let mut rest: u64 = x;
        proof {
            reveal_with_fuel(weight, 1);
            assert(rest * weight(0) == x) by (nonlinear_arith)
                requires
                    weight(0) == 1,
                    rest == x,
            ;
        }
        while rest > 0
            invariant
                digits_value(digits@) + rest * weight(digits@.len()) == x,
            decreases rest,
        {
            let d: u8 = (rest % 256) as u8;
            proof {
                lemma_value_push(digits@, d);
                let w = weight(digits@.len());
                assert(rest * w == d as nat * w + (rest / 256) * (256 * w)) by (nonlinear_arith)
                    requires
                        rest == d as nat + 256 * (rest / 256),
                ;
            }
            digits.push(d);
            rest = rest / 256;
        }
        Amount { digits }
    }

    /// The amount that the bytes stand for, most significant byte first.
    pub fn from_bytes_be(bytes: &[u8]) -> (r: Amount)
        ensures
            r@ == be_bytes_value(bytes@),
    {
        let mut digits: Vec<u8> = Vec::new();
        let mut i: usize = bytes.len();
        while i > 0
            invariant
                i <= bytes@.len(),
                digits@ =~= bytes@.skip(i as int).reverse(),
            decreases i,
        {
            i = i - 1;
            digits.push(bytes[i]);
        }
        assert(bytes@.skip(0) =~= bytes@);
        Amount { digits: trimmed(digits) }
    }

    /// The shortest bytes that stand for the amount, most significant byte
    /// first; zero is the empty sequence.
    pub fn to_bytes_be(&self) -> (r: Vec<u8>)
        ensures
            be_bytes_value(r@) == self@,
            r@.len() > 0 ==> r@[0] != 0,
    {
        let digits = trimmed(self.digits.clone());
        let mut bytes: Vec<u8> = Vec::new();
        let mut i: usize = digits.len();
        while i > 0
            invariant
                i <= digits@.len(),
                bytes@ =~= digits@.skip(i as int).reverse(),
            decreases i,
        {
            i = i - 1;
            bytes.push(digits[i]);
        }
        proof {
            assert(digits@.skip(0) =~= digits@);
            assert(bytes@.reverse() =~= digits@);
        }
        bytes
    }

    /// Whether the amount is zero.
    pub fn is_zero(&self) -> (r: bool)
        ensures
            r == (self@ == 0),
    {
        Amount::zero().minus(self).is_some()
    }

    /// Whether the amount is at least `other`.
    pub fn ge(&self, other: &Amount) -> (r: bool)
        ensures
            r == (self@ >= other@),
    {
        self.minus(other).is_some()
    }

    /// Whether the amount is more than `other`.
    pub fn gt(&self, other: &Amount) -> (r: bool)
        ensures
            r == (self@ > other@),
    {
        other.minus(self).is_none()
    }

    /// Whether the two amounts are the same number.
    pub fn same(&self, other: &Amount) -> (r: bool)
        ensures
            r == (self@ == other@),
    {
        self.ge(other) && other.ge(self)
    }

    /// A copy of the amount.
    pub fn duplicate(&self) -> (r: Amount)
        ensures
            r@ == self@,
    {
        let digits = self.digits.clone();
        assert(digits@ =~= self.digits@);
        Amount { digits }
    }

    /// The sum of the two amounts.
    pub fn plus(&self, other: &Amount) -> (r: Amount)
        ensures
            r@ == self@ + other@,
    {
        let n: usize = if self.digits.len() >= other.digits.len() {
            self.digits.len()
        } else {
            other.digits.len()
        };
        let mut digits: Vec<u8> = Vec::new();
        let mut carry: u16 = 0;
        let mut i: usize = 0;
        proof {
            assert(low_digits(self.digits@, 0) =~= Seq::<u8>::empty());
            assert(low_digits(other.digits@, 0) =~= Seq::<u8>::empty());
            assert(0 * weight(0) == 0) by (nonlinear_arith);
        }
        while i < n
            invariant
                i <= n,
                n >= self.digits@.len(),
                n >= other.digits@.len(),
                digits@.len() == i,
                carry <= 1,
                digits_value(digits@) + carry * weight(i as nat) == digits_value(
                    low_digits(self.digits@, i as int),
                ) + digits_value(low_digits(other.digits@, i as int)),
            decreases n - i,
        {
            let a: u8 = digit_or_zero(&self.digits, i);
            let b: u8 = digit_or_zero(&other.digits, i);
            let t: u16 = a as u16 + b as u16 + carry;
            let d: u8 = (t % 256) as u8;
            let next_carry: u16 = t / 256;
            proof {
                lemma_low_digits_next(self.digits@, i as int);
                lemma_low_digits_next(other.digits@, i as int);
                lemma_value_push(digits@, d);
                let w = weight(i as nat);
                assert(weight((i + 1) as nat) == 256 * w);
                assert(d as nat * w + next_carry * (256 * w) == a as nat * w + b as nat * w + carry
                    * w) by (nonlinear_arith)
                    requires
                        d as nat + 256 * next_carry == a as nat + b as nat + carry,
                ;
            }
            digits.push(d);
            carry = next_carry;
            i = i + 1;
        }
        if carry > 0 {
            proof {
                lemma_value_push(digits@, 1u8);
            }
            digits.push(1u8);
        } else {
            assert(0 * weight(i as nat) == 0) by (nonlinear_arith);
        }
        Amount { digits }
    }

    /// The difference of the two amounts, where `other` is not the larger.
    pub fn minus(&self, other: &Amount) -> (r: Option<Amount>)
        ensures
            match r {
                Some(d) => self@ >= other@ && d@ == self@ - other@,
                None => self@ < other@,
            },
    {
        let n: usize = if self.digits.len() >= other.digits.len() {
            self.digits.len()
        } else {
            other.digits.len()
        };
        let mut digits: Vec<u8> = Vec::new();
        let mut borrow: u16 = 0;
        let mut i: usize = 0;
        proof {
            assert(low_digits(self.digits@, 0) =~= Seq::<u8>::empty());
            assert(low_digits(other.digits@, 0) =~= Seq::<u8>::empty());
            assert(0 * weight(0) == 0) by (nonlinear_arith);
        }
        while i < n
            invariant
                i <= n,
                n >= self.digits@.len(),
                n >= other.digits@.len(),
                digits@.len() == i,
                borrow <= 1,
                digits_value(low_digits(self.digits@, i as int)) + borrow * weight(i as nat)
                    == digits_value(low_digits(other.digits@, i as int)) + digits_value(digits@),
            decreases n - i,
        {
            let a: u8 = digit_or_zero(&self.digits, i);
            let b: u8 = digit_or_zero(&other.digits, i);
            let t: u16 = 256 + a as u16 - b as u16 - borrow;
            let d: u8 = (t % 256) as u8;
            let next_borrow: u16 = 1 - t / 256;
            proof {
                lemma_low_digits_next(self.digits@, i as int);
                lemma_low_digits_next(other.digits@, i as int);
                lemma_value_push(digits@, d);
                let w = weight(i as nat);
                assert(weight((i + 1) as nat) == 256 * w);
                assert(a as nat * w + next_borrow * (256 * w) == b as nat * w + borrow * w + d as nat
                    * w) by (nonlinear_arith)
                    requires
                        a as nat + 256 * next_borrow == b as nat + borrow + d as nat,
                ;
            }
            digits.push(d);
            borrow = next_borrow;
            i = i + 1;
        }
        proof {
            lemma_value_bound(digits@);
        }
        if borrow > 0 {
            assert(1 * weight(i as nat) == weight(i as nat)) by (nonlinear_arith);
            None
        } else {
            assert(0 * weight(i as nat) == 0) by (nonlinear_arith);
            Some(Amount { digits: trimmed(digits) })
        }
    }

    /// 256 times the amount, plus the digit `d`.
    fn shifted_in(&self, d: u8) -> (r: Amount)
        ensures
            r@ == 256 * self@ + d,
    {
        let mut digits = self.digits.clone();
        assert(digits@ =~= self.digits@);
        digits.insert(0, d);
        assert(digits@.skip(1) =~= self.digits@);
        Amount { digits }
    }

    /// The amount times the digit `d`.
    fn times_digit(&self, d: u8) -> (r: Amount)
        ensures
            r@ == self@ * d,
    {
        let n: usize = self.digits.len();
        let mut digits: Vec<u8> = Vec::new();
        let mut carry: u32 = 0;
        let mut i: usize = 0;
        proof {
            assert(self.digits@.take(0) =~= Seq::<u8>::empty());
            assert(0 * weight(0) == 0) by (nonlinear_arith);
            assert(0 * d == 0) by (nonlinear_arith);
        }
        while i < n
            invariant
                i <= n,
                n == self.digits@.len(),
                digits@.len() == i,
                carry <= 255,
                digits_value(digits@) + carry * weight(i as nat) == digits_value(
                    self.digits@.take(i as int),
                ) * d,
            decreases n - i,
        {
            let a: u8 = self.digits[i];
            assert(a as u32 * d as u32 <= 255 * 255) by (nonlinear_arith)
                requires
                    a <= 255,
                    d <= 255,
            ;
            let t: u32 = a as u32 * d as u32 + carry;
            let low: u8 = (t % 256) as u8;
            let next_carry: u32 = t / 256;
            proof {
                lemma_value_take_next(self.digits@, i as int);
                lemma_value_push(digits@, low);
                let w = weight(i as nat);
                let v = digits_value(self.digits@.take(i as int));
                assert(weight((i + 1) as nat) == 256 * w);
                assert(low as nat * w + next_carry * (256 * w) + v * d == (v + a as nat * w) * d
                    + carry * w) by (nonlinear_arith)
                    requires
                        low as nat + 256 * next_carry == a as nat * d as nat + carry,
                ;
            }
            digits.push(low);
            carry = next_carry;
            i = i + 1;
        }
        proof {
            assert(self.digits@.take(n as int) =~= self.digits@);
            lemma_value_push(digits@, carry as u8);
        }
        digits.push(carry as u8);
        Amount { digits: trimmed(digits) }
    }

    /// The product of the two amounts.
    pub fn times(&self, other: &Amount) -> (r: Amount)
        ensures
            r@ == self@ * other@,
    {
        let mut acc = Amount::zero();
        let mut j: usize = other.digits.len();
        proof {
            assert(other.digits@.skip(j as int) =~= Seq::<u8>::empty());
            assert(self@ * 0 == 0) by (nonlinear_arith);
        }
        while j > 0
            invariant
                j <= other.digits@.len(),
                acc@ == self@ * digits_value(other.digits@.skip(j as int)),
            decreases j,
        {
            j = j - 1;
            let d: u8 = other.digits[j];
            let part = self.times_digit(d);
            let shifted = acc.shifted_in(0);
            proof {
                lemma_value_skip_next(other.digits@, j as int);
                let above = digits_value(other.digits@.skip(j + 1));
                assert(256 * (self@ * above) + self@ * d == self@ * (d as nat + 256 * above))
                    by (nonlinear_arith);
            }
            acc = shifted.plus(&part);
        }
        assert(other.digits@.skip(0) =~= other.digits@);
        acc
    }

    /// The quotient and the remainder of the amount divided by `divisor`,
    /// where `divisor` is not zero.
    pub fn div_rem(&self, divisor: &Amount) -> (r: Option<(Amount, Amount)>)
        ensures
            match r {
                Some((q, m)) => divisor@ > 0 && q@ == self@ / divisor@ && m@ == self@ % divisor@,
                None => divisor@ == 0,
            },
    {
        if divisor.is_zero() {
            return None;
        }
        let mut quotient = Amount::zero();
        let mut rest = Amount::zero();
        let mut i: usize = self.digits.len();
        proof {
            assert(self.digits@.skip(i as int) =~= Seq::<u8>::empty());
            assert(0 * divisor@ == 0) by (nonlinear_arith);
        }
        while i > 0
            invariant
                i <= self.digits@.len(),
                divisor@ > 0,
                rest@ < divisor@,
                digits_value(self.digits@.skip(i as int)) == quotient@ * divisor@ + rest@,
            decreases i,
        {
            i = i - 1;
            let ghost carried = rest@;
            let ghost above = quotient@;
            rest = rest.shifted_in(self.digits[i]);
            let ghost start = rest@;
            let mut count: u8 = 0;
            proof {
                assert(0 * divisor@ == 0) by (nonlinear_arith);
                assert(start < 256 * divisor@) by (nonlinear_arith)
                    requires
                        start == 256 * carried + self.digits@[i as int],
                        carried < divisor@,
                        self.digits@[i as int] < 256,
                ;
            }
            loop
                invariant_except_break
                    start == count * divisor@ + rest@,
                invariant
                    divisor@ > 0,
                    start < 256 * divisor@,
                ensures
                    start == count * divisor@ + rest@,
                    rest@ < divisor@,
                decreases rest@,
            {
                match rest.minus(divisor) {
                    Some(d) => {
                        proof {
                            assert(count < 255 && (count + 1) * divisor@ + d@ == start)
                                by (nonlinear_arith)
                                requires
                                    start == count * divisor@ + rest@,
                                    d@ == rest@ - divisor@,
                                    rest@ >= divisor@,
                                    start < 256 * divisor@,
                                    divisor@ > 0,
                            ;
                        }
                        rest = d;
                        count = count + 1;
                    },
                    None => {
                        break ;
                    },
                }
            }
            quotient = quotient.shifted_in(count);
            proof {
                lemma_value_skip_next(self.digits@, i as int);
                assert((256 * above + count) * divisor@ + rest@ == self.digits@[i as int] as nat + 256
                    * (above * divisor@ + carried)) by (nonlinear_arith)
                    requires
                        256 * carried + self.digits@[i as int] == count * divisor@ + rest@,
                ;
            }
        }
        proof {
            assert(self.digits@.skip(0) =~= self.digits@);
            vstd::arithmetic::div_mod::lemma_fundamental_div_mod_converse(
                self@ as int,
                divisor@ as int,
                quotient@ as int,
                rest@ as int,
            );
        }
        Some((quotient, rest))
    }

    /// The amount divided by `divisor`, rounded down, where `divisor` is not
    /// zero.
    pub fn div_floor(&self, divisor: &Amount) -> (r: Option<Amount>)
        ensures
            match r {
                Some(q) => divisor@ > 0 && q@ == self@ / divisor@,
                None => divisor@ == 0,
            },
    {
        match self.div_rem(divisor) {
            Some((q, _)) => Some(q),
            None => None,
        }
    }
}


} // verus!
