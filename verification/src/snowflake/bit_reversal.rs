//! Reversal of the low bits of a timestamp, the reversible transform behind
//! spread-mode Qubit Snowflake IDs.

use vstd::prelude::*;

verus! {

/// Two raised to the power `n`.
pub open spec fn pow2(n: nat) -> nat
    decreases n,
{
    if n == 0 {
        1
    } else {
        2 * pow2((n - 1) as nat)
    }
}

/// The `n`-bit value whose bit `i` is bit `n - 1 - i` of `x`, for every
/// `i < n`: the low `n` bits of `x` in reverse order. Bits of `x` at or above
/// position `n` do not contribute.
pub open spec fn reverse_low_bits(x: nat, n: nat) -> nat
    decreases n,
{
    if n == 0 {
        0
    } else {
        reverse_low_bits(x / 2, (n - 1) as nat) + (x % 2) * pow2((n - 1) as nat)
    }
}

/// Powers of two are positive.
pub proof fn lemma_pow2_positive(n: nat)
    ensures
        pow2(n) > 0,
    decreases n,
{
    if n > 0 {
        lemma_pow2_positive((n - 1) as nat);
    }
}

/// Powers of two grow with their exponent.
pub proof fn lemma_pow2_monotone(a: nat, b: nat)
    requires
        a <= b,
    ensures
        pow2(a) <= pow2(b),
    decreases b,
{
    if a < b {
        lemma_pow2_monotone(a, (b - 1) as nat);
        lemma_pow2_positive((b - 1) as nat);
    }
}

/// The value of two to the sixty-fourth.
pub proof fn lemma_pow2_64()
    ensures
        pow2(64) == 0x1_0000_0000_0000_0000,
{
    reveal_with_fuel(pow2, 65);
}

/// Reversing `n` bits gives an `n`-bit value.
pub proof fn lemma_reverse_low_bits_bound(x: nat, n: nat)
    ensures
        reverse_low_bits(x, n) < pow2(n),
    decreases n,
{
    if n > 0 {
        let m = (n - 1) as nat;
        lemma_reverse_low_bits_bound(x / 2, m);
        assert((x % 2) * pow2(m) <= pow2(m)) by (nonlinear_arith)
            requires
                x % 2 <= 1,
        ;
    }
}

/// Reversing `n` bits of a value whose top bit `b` sits above `n - 1` lower
/// bits moves `b` to the bottom and reverses the lower bits above it.
proof fn lemma_reverse_low_bits_top_bit(x: nat, b: nat, n: nat)
    requires
        n >= 1,
        b <= 1,
        x < pow2((n - 1) as nat),
    ensures
        reverse_low_bits(x + b * pow2((n - 1) as nat), n) == b + 2 * reverse_low_bits(
            x,
            (n - 1) as nat,
        ),
    decreases n,
{
    let m = (n - 1) as nat;
    if n == 1 {
        assert(x == 0);
        assert(pow2(0) == 1);
        reveal_with_fuel(reverse_low_bits, 2);
    } else {
        let k = (m - 1) as nat;
        let y = x / 2;
        let c = x % 2;
        assert(pow2(m) == 2 * pow2(k));
        assert(y < pow2(k));
        let v = x + b * pow2(m);
        assert(b * pow2(m) == 2 * (b * pow2(k))) by (nonlinear_arith)
            requires
                pow2(m) == 2 * pow2(k),
        ;
        assert(v == 2 * (y + b * pow2(k)) + c);
        assert(v / 2 == y + b * pow2(k));
        assert(v % 2 == c);
        lemma_reverse_low_bits_top_bit(y, b, m);
        assert(c * pow2(m) == 2 * (c * pow2(k))) by (nonlinear_arith)
            requires
                pow2(m) == 2 * pow2(k),
        ;
    }
}

/// Reversing the low `n` bits twice restores any `n`-bit value.
pub proof fn lemma_reverse_low_bits_involution(x: nat, n: nat)
    requires
        x < pow2(n),
    ensures
        reverse_low_bits(reverse_low_bits(x, n), n) == x,
    decreases n,
{
    if n == 0 {
        assert(x == 0);
    } else {
        let m = (n - 1) as nat;
        let y = x / 2;
        let b = x % 2;
        assert(y < pow2(m));
        lemma_reverse_low_bits_bound(y, m);
        lemma_reverse_low_bits_top_bit(reverse_low_bits(y, m), b, n);
        lemma_reverse_low_bits_involution(y, m);
    }
}

/// Distinct `n`-bit values have distinct reversals.
pub proof fn lemma_reverse_low_bits_injective(x: nat, y: nat, n: nat)
    requires
        x < pow2(n),
        y < pow2(n),
        reverse_low_bits(x, n) == reverse_low_bits(y, n),
    ensures
        x == y,
{
    lemma_reverse_low_bits_involution(x, n);
    lemma_reverse_low_bits_involution(y, n);
}

/// Returns the low `bits` bits of `value` in reverse order.
pub fn reverse_bits_below(value: u64, bits: u8) -> (reversed: u64)
    requires
        bits <= 64,
    ensures
        reversed == reverse_low_bits(value as nat, bits as nat),
{
    let mut reversed: u64 = 0;
    let mut rest: u64 = value;
    let mut done: u8 = 0;
    proof {
        lemma_pow2_positive(bits as nat);
    }
    while done < bits
        invariant
            done <= bits <= 64,
            reversed < pow2(done as nat),
            reverse_low_bits(value as nat, bits as nat) == reversed * pow2((bits - done) as nat)
                + reverse_low_bits(rest as nat, (bits - done) as nat),
        decreases bits - done,
    {
        let ghost m = (bits - done) as nat;
        let ghost k = (m - 1) as nat;
        let bit = rest % 2;
        proof {
            assert(pow2(m) == 2 * pow2(k));
            assert(reversed * pow2(m) == (2 * reversed) * pow2(k)) by (nonlinear_arith)
                requires
                    pow2(m) == 2 * pow2(k),
            ;
            assert((2 * reversed + bit) * pow2(k) == (2 * reversed) * pow2(k) + bit * pow2(k))
                by (nonlinear_arith);
            lemma_pow2_monotone((done + 1) as nat, 64);
            lemma_pow2_64();
            assert(pow2((done + 1) as nat) == 2 * pow2(done as nat));
        }
        reversed = 2 * reversed + bit;
        rest = rest / 2;
        done = done + 1;
    }
    proof {
        assert(done == bits);
        assert(pow2(0) == 1);
        assert(reverse_low_bits(rest as nat, 0) == 0);
        assert(reversed * pow2(0) == reversed);
    }
    reversed
}

} // verus!
