//! Small numeric helpers: clock-style durations and aspect ratios.

use vstd::prelude::*;
use crate::text::{push_char, push_two_digits, two_digits};
use vstd::arithmetic::div_mod::{lemma_fundamental_div_mod, lemma_mod_multiples_basic};

verus! {

/// The text `HH:MM:SS` for a number of seconds: hours, minutes and seconds,
/// each at least two digits wide (hours may take more).
pub open spec fn clock_text(total_seconds: nat) -> Seq<char> {
    two_digits(total_seconds / 3600) + seq![':'] + two_digits((total_seconds % 3600) / 60)
        + seq![':'] + two_digits(total_seconds % 60)
}

/// Formats a duration, given in whole seconds, as hours:minutes:seconds.
pub fn format_duration(total_seconds: u64) -> (r: String)
    ensures
        r@ == clock_text(total_seconds as nat),
{
    let hours = total_seconds / 3600;
    let minutes = (total_seconds % 3600) / 60;
    let seconds = total_seconds % 60;
    let mut s = String::new();
    push_two_digits(&mut s, hours);
    push_char(&mut s, ':');
    push_two_digits(&mut s, minutes);
    push_char(&mut s, ':');
    push_two_digits(&mut s, seconds);
    s
}

/// Greatest common divisor by Euclid's algorithm.
pub open spec fn spec_gcd(a: nat, b: nat) -> nat
    decreases b,
{
    if b == 0 {
        a
    } else {
        spec_gcd(b, a % b)
    }
}

/// Computes the greatest common divisor of `a` and `b`.
pub fn gcd(a: usize, b: usize) -> (r: usize)
    ensures
        r == spec_gcd(a as nat, b as nat),
    decreases b,
{
    if b == 0 {
        a
    } else {
        gcd(b, a % b)
    }
}

proof fn lemma_common_multiple(x: int, y: int, q: int, g: int)
    requires
        g > 0,
        x % g == 0,
        y % g == 0,
    ensures
        (q * x + y) % g == 0,
        (y - q * x) % g == 0,
{
    lemma_fundamental_div_mod(x, g);
    lemma_fundamental_div_mod(y, g);
    let kx = x / g;
    let ky = y / g;
    assert(q * x + y == (q * kx + ky) * g) by (nonlinear_arith)
        requires x == g * kx, y == g * ky;
    assert(y - q * x == (ky - q * kx) * g) by (nonlinear_arith)
        requires x == g * kx, y == g * ky;
    lemma_mod_multiples_basic(q * kx + ky, g);
    lemma_mod_multiples_basic(ky - q * kx, g);
}

/// The divisor found by Euclid's algorithm divides both numbers, and every
/// common divisor divides it.
pub proof fn lemma_gcd_is_greatest_common_divisor(a: nat, b: nat)
    ensures
        spec_gcd(a, b) == 0 <==> (a == 0 && b == 0),
        spec_gcd(a, b) > 0 ==> a % spec_gcd(a, b) == 0 && b % spec_gcd(a, b) == 0,
        forall|d: nat| d > 0 && a % d == 0 && b % d == 0 ==> #[trigger] (spec_gcd(a, b) % d) == 0,
    decreases b,
{
    if b != 0 {
        lemma_gcd_is_greatest_common_divisor(b, a % b);
        let g = spec_gcd(b, a % b);
        let q = (a / b) as int;
        let r = (a % b) as int;
        lemma_fundamental_div_mod(a as int, b as int);
        assert(a == q * b + r) by (nonlinear_arith) requires a == b * q + r;
        if g > 0 {
            lemma_common_multiple(b as int, r, q, g as int);
        }
        assert forall|d: nat| d > 0 && a % d == 0 && b % d == 0 implies #[trigger] (spec_gcd(a, b) % d) == 0 by {
            lemma_common_multiple(b as int, a as int, q, d as int);
            assert(r == a - q * b);
        }
    }
}

/// Reduces a width and a height by their greatest common divisor.
pub fn compute_aspect_ratio(width: usize, height: usize) -> (r: (usize, usize))
    requires
        width > 0 || height > 0,
    ensures
        r.0 == width as nat / spec_gcd(width as nat, height as nat),
        r.1 == height as nat / spec_gcd(width as nat, height as nat),
{
    proof {
        lemma_gcd_is_greatest_common_divisor(width as nat, height as nat);
    }
    let g = gcd(width, height);
    (width / g, height / g)
}

} // verus!
