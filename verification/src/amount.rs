//! Token amounts of any size: natural numbers held as little-endian 32-bit
//! limbs.
use vstd::prelude::*;

verus! {

/// The base of one limb.
pub open spec fn limb_base() -> nat {
    0x1_0000_0000
}

/// `limb_base()` to the power `i`.
pub open spec fn limb_pow(i: nat) -> nat
    decreases i,
{
    if i == 0 {
        1
    } else {
        limb_base() * limb_pow((i - 1) as nat)
    }
}

/// The limb at position `i`, 0 past the end.
pub open spec fn limb_at(s: Seq<u32>, i: int) -> nat {
    if 0 <= i < s.len() {
        s[i] as nat
    } else {
        0
    }
}

/// The value of the `i` lowest limbs of `s`.
pub open spec fn value_below(s: Seq<u32>, i: nat) -> nat
    decreases i,
{
    if i == 0 {
        0
    } else {
        value_below(s, (i - 1) as nat) + limb_at(s, i - 1) * limb_pow((i - 1) as nat)
    }
}

/// The number that little-endian limbs `s` stand for.
pub open spec fn limbs_value(s: Seq<u32>) -> nat {
    value_below(s, s.len())
}

/// Limbs past the end count for nothing.
proof fn lemma_value_below_past_end(s: Seq<u32>, i: nat)
    requires
        i >= s.len(),
    ensures
        value_below(s, i) == limbs_value(s),
    decreases i,
{
    if i > s.len() {
        lemma_value_below_past_end(s, (i - 1) as nat);
        assert(limb_at(s, i - 1) == 0);
    }
}

/// Pushing a limb leaves the value of the lower limbs as it was.
proof fn lemma_value_below_push(s: Seq<u32>, d: u32, i: nat)
    requires
        i <= s.len(),
    ensures
        value_below(s.push(d), i) == value_below(s, i),
    decreases i,
{
    if i > 0 {
        lemma_value_below_push(s, d, (i - 1) as nat);
        assert(limb_at(s.push(d), i - 1) == limb_at(s, i - 1));
    }
}

/// Pushing limb `d` adds `d` times the weight of its position.
proof fn lemma_value_push(s: Seq<u32>, d: u32)
    ensures
        limbs_value(s.push(d)) == limbs_value(s) + d * limb_pow(s.len()),
{
    lemma_value_below_push(s, d, s.len());
    assert(limb_at(s.push(d), s.len() as int) == d);
}

/// A natural number of any size.
#[derive(Clone, Debug)]
pub struct Amount {
    limbs: Vec<u32>,
}

impl View for Amount {
    type V = nat;

    closed spec fn view(&self) -> nat {
        limbs_value(self.limbs@)
    }
}

impl Amount {
    /// Zero.
    pub fn zero() -> (r: Amount)
        ensures
            r@ == 0,
    {
        Amount { limbs: Vec::new() }
    }

    /// The amount `x`.
    pub fn from_u128(x: u128) -> (r: Amount)
        ensures
            r@ == x,
    {
        let mut limbs: Vec<u32> = Vec::new();
        let mut rest: u128 = x;
        assert(limbs_value(limbs@) == 0 && limb_pow(0) == 1);
        while rest > 0
            invariant
                limbs_value(limbs@) + rest * limb_pow(limbs@.len()) == x,
            decreases rest,
        {
            let digit: u128 = rest % 0x1_0000_0000;
            let next: u128 = rest / 0x1_0000_0000;
            proof {
                let p = limb_pow(limbs@.len());
                lemma_value_push(limbs@, digit as u32);
                assert(digit * p + next * (limb_base() * p) == rest * p) by (nonlinear_arith)
                    requires
                        digit == rest % 0x1_0000_0000,
                        next == rest / 0x1_0000_0000,
                        limb_base() == 0x1_0000_0000,
                ;
            }
            limbs.push(digit as u32);
            rest = next;
        }
        Amount { limbs }
    }

    /// The amount that little-endian 32-bit limbs stand for.
    pub fn from_limbs(limbs: Vec<u32>) -> (r: Amount)
        ensures
            r@ == limbs_value(limbs@),
    {
        Amount { limbs }
    }

    /// Little-endian 32-bit limbs that stand for this amount.
    pub fn to_limbs(&self) -> (r: Vec<u32>)
        ensures
            limbs_value(r@) == self@,
    {
        let r = self.limbs.clone();
        assert(r@ =~= self.limbs@);
        r
    }

    /// The same amount.
    pub fn duplicate(&self) -> (r: Amount)
        ensures
            r@ == self@,
    {
        Amount { limbs: self.to_limbs() }
    }

    fn limb(&self, i: usize) -> (r: u32)
        ensures
            r == limb_at(self.limbs@, i as int),
    {
        if i < self.limbs.len() {
            self.limbs[i]
        } else {
            0
        }
    }

    /// The sum of two amounts.
    pub fn add(&self, other: &Amount) -> (r: Amount)
        ensures
            r@ == self@ + other@,
    {
        let n: usize = if self.limbs.len() < other.limbs.len() {
            other.limbs.len()
        } else {
            self.limbs.len()
        };
        let mut limbs: Vec<u32> = Vec::new();
        let mut carry: u64 = 0;
        let mut i: usize = 0;
        while i < n
            invariant
                i <= n,
                n >= self.limbs@.len(),
                n >= other.limbs@.len(),
                limbs@.len() == i,
                carry <= 1,
                limbs_value(limbs@) + carry * limb_pow(i as nat) == value_below(self.limbs@, i as nat)
                    + value_below(other.limbs@, i as nat),
            decreases n - i,
        {
            let a: u32 = self.limb(i);
            let b: u32 = other.limb(i);
            let x: u64 = a as u64 + b as u64 + carry;
            let digit: u64 = x % 0x1_0000_0000;
            let next: u64 = x / 0x1_0000_0000;
            proof {
                let p = limb_pow(i as nat);
                lemma_value_push(limbs@, digit as u32);
                assert(digit * p + next * (limb_base() * p) == x * p) by (nonlinear_arith)
                    requires
                        digit == x % 0x1_0000_0000,
                        next == x / 0x1_0000_0000,
                        limb_base() == 0x1_0000_0000,
                ;
                assert(x * p == a * p + b * p + carry * p) by (nonlinear_arith)
                    requires
                        x == a + b + carry,
                ;
            }
            limbs.push(digit as u32);
            carry = next;
            i = i + 1;
        }
        proof {
            lemma_value_below_past_end(self.limbs@, n as nat);
            lemma_value_below_past_end(other.limbs@, n as nat);
        }
        if carry > 0 {
            proof {
                lemma_value_push(limbs@, 1);
            }
            limbs.push(1);
        }
        Amount { limbs }
    }

    /// Twice the amount.
    pub fn double(&self) -> (r: Amount)
        ensures
            r@ == 2 * self@,
    {
        self.add(self)
    }

    /// Half the amount, rounded down.
    pub fn half(&self) -> (r: Amount)
        ensures
            r@ == self@ / 2,
    {
        let n: usize = self.limbs.len();
        let mut limbs: Vec<u32> = Vec::new();
        let mut i: usize = 0;
        let ghost low_bit: nat = limb_at(self.limbs@, 0) % 2;
        assert(limbs_value(limbs@) == 0 && limb_pow(0) == 1 && value_below(self.limbs@, 0) == 0);
        while i < n
            invariant
                i <= n,
                n == self.limbs@.len(),
                limbs@.len() == i,
                low_bit == limb_at(self.limbs@, 0) % 2,
                2 * limbs_value(limbs@) + low_bit == value_below(self.limbs@, i as nat) + (limb_at(
                    self.limbs@,
                    i as int,
                ) % 2) * limb_pow(i as nat),
            decreases n - i,
        {
            let a: u32 = self.limb(i);
            let b: u32 = self.limb(i + 1);
            let digit: u32 = a / 2 + (b % 2) * 0x8000_0000;
            proof {
                let p = limb_pow(i as nat);
                lemma_value_push(limbs@, digit);
                assert(a % 2 + 2 * digit == a + (b % 2) * limb_base());
                assert(2 * (digit * p) + (a % 2) * p == a * p + (b % 2) * (limb_base() * p)) by (
                nonlinear_arith)
                    requires
                        a % 2 + 2 * digit == a + (b % 2) * limb_base(),
                ;
            }
            limbs.push(digit);
            i = i + 1;
        }
        proof {
            lemma_value_below_past_end(self.limbs@, n as nat);
        }
        Amount { limbs }
    }

    /// Whether the amount is not above `other`.
    pub fn le(&self, other: &Amount) -> (r: bool)
        ensures
            r == (self@ <= other@),
    {
        let n: usize = if self.limbs.len() < other.limbs.len() {
            other.limbs.len()
        } else {
            self.limbs.len()
        };
        let mut borrow: u64 = 0;
        let mut i: usize = 0;
        let ghost mut acc: nat = 0;
        assert(limb_pow(0) == 1 && value_below(self.limbs@, 0) == 0 && value_below(other.limbs@, 0) == 0);
        while i < n
            invariant
                i <= n,
                n >= self.limbs@.len(),
                n >= other.limbs@.len(),
                borrow <= 1,
                acc < limb_pow(i as nat),
                value_below(other.limbs@, i as nat) + borrow * limb_pow(i as nat) == value_below(
                    self.limbs@,
                    i as nat,
                ) + acc,
            decreases n - i,
        {
            let a: u64 = self.limb(i) as u64;
            let b: u64 = other.limb(i) as u64;
            let digit: u64;
            let next: u64;
            if b >= a + borrow {
                digit = b - a - borrow;
                next = 0;
            } else {
                digit = b + 0x1_0000_0000 - a - borrow;
                next = 1;
            }
            proof {
                let p = limb_pow(i as nat);
                assert(digit < limb_base());
                assert(acc + digit * p < limb_base() * p) by (nonlinear_arith)
                    requires
                        acc < p,
                        digit < limb_base(),
                ;
                assert(b * p + next * (limb_base() * p) == a * p + digit * p + borrow * p) by (
                nonlinear_arith)
                    requires
                        b + next * limb_base() == a + digit + borrow,
                ;
                acc = (acc + digit * p) as nat;
            }
            borrow = next;
            i = i + 1;
        }
        proof {
            lemma_value_below_past_end(self.limbs@, n as nat);
            lemma_value_below_past_end(other.limbs@, n as nat);
        }
        borrow == 0
    }

    /// Whether the amount is 0.
    pub fn is_zero(&self) -> (r: bool)
        ensures
            r == (self@ == 0),
    {
        let zero = Amount::zero();
        self.le(&zero)
    }

    /// Whether the two amounts are equal.
    pub fn equals(&self, other: &Amount) -> (r: bool)
        ensures
            r == (self@ == other@),
    {
        self.le(other) && other.le(self)
    }
}

impl PartialEq for Amount {
    fn eq(&self, other: &Amount) -> (r: bool) {
        self.equals(other)
    }
}

impl vstd::std_specs::cmp::PartialEqSpecImpl for Amount {
    open spec fn obeys_eq_spec() -> bool {
        true
    }

    open spec fn eq_spec(&self, other: &Amount) -> bool {
        self@ == other@
    }
}

impl Eq for Amount {

}

} // verus!
