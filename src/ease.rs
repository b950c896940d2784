//! The ease-out curve of camera transitions, in fixed point.
use vstd::prelude::*;

verus! {

/// Fixed-point one for transition progress and its eased value.
pub const EASE_ONE: u64 = 1_000_000;

/// Exponent of the ease-out curve `1 - (1 - x)^30`.
pub const EASE_POWER: u64 = 30;

/// `y^n` in fixed point, each product rounded down.
pub open spec fn ease_tail(y: int, n: nat) -> int
    decreases n,
{
    if n == 0 {
        EASE_ONE as int
    } else {
        ease_tail(y, (n - 1) as nat) * y / (EASE_ONE as int)
    }
}

/// The ease-out curve `1 - (1 - p)^30` at progress `p`, in fixed point.
pub open spec fn eased(p: int) -> int {
    EASE_ONE - ease_tail(EASE_ONE - p, EASE_POWER as nat)
}

proof fn lemma_tail_step(a: int, y: int)
    requires
        0 <= a <= EASE_ONE,
        0 <= y <= EASE_ONE,
    ensures
        0 <= a * y / (EASE_ONE as int) <= a,
        a * y <= 1_000_000_000_000,
{
    assert(0 <= a * y <= a * 1_000_000) by (nonlinear_arith)
        requires
            0 <= a,
            0 <= y <= 1_000_000,
    ;
    assert(a * y <= 1_000_000_000_000) by (nonlinear_arith)
        requires
            0 <= a <= 1_000_000,
            0 <= y <= 1_000_000,
    ;
    assert(a * y / 1_000_000 <= a) by (nonlinear_arith)
        requires
            0 <= a * y <= a * 1_000_000,
            0 <= a,
    ;
}

proof fn lemma_tail_range(y: int, n: nat)
    requires
        0 <= y <= EASE_ONE,
    ensures
        0 <= ease_tail(y, n) <= EASE_ONE,
    decreases n,
{
    if n > 0 {
        lemma_tail_range(y, (n - 1) as nat);
        lemma_tail_step(ease_tail(y, (n - 1) as nat), y);
    }
}

/// The eased value of a progress in `[0, EASE_ONE]`.
pub fn cubic_ease_out(p: u64) -> (r: u64)
    requires
        p <= EASE_ONE,
    ensures
        r == eased(p as int),
        r <= EASE_ONE,
{
    let y: u64 = EASE_ONE - p;
    let mut tail: u64 = EASE_ONE;
    let mut k: u64 = 0;
    while k < EASE_POWER
        invariant
            k <= EASE_POWER,
            y == EASE_ONE - p,
            tail == ease_tail(y as int, k as nat),
            tail <= EASE_ONE,
        decreases EASE_POWER - k,
    {
        proof {
            lemma_tail_step(tail as int, y as int);
        }
        tail = tail * y / EASE_ONE;
        k = k + 1;
    }
    proof {
        lemma_tail_range(y as int, EASE_POWER as nat);
    }
    EASE_ONE - tail
}

proof fn lemma_tail_of_one(n: nat)
    ensures
        ease_tail(EASE_ONE as int, n) == EASE_ONE,
    decreases n,
{
    if n > 0 {
        lemma_tail_of_one((n - 1) as nat);
    }
}

proof fn lemma_tail_of_zero(n: nat)
    requires
        n > 0,
    ensures
        ease_tail(0, n) == 0,
{
}

proof fn lemma_tail_monotone(y1: int, y2: int, n: nat)
    requires
        0 <= y1 <= y2 <= EASE_ONE,
    ensures
        ease_tail(y1, n) <= ease_tail(y2, n),
    decreases n,
{
    if n > 0 {
        let m = (n - 1) as nat;
        lemma_tail_monotone(y1, y2, m);
        lemma_tail_range(y1, m);
        lemma_tail_range(y2, m);
        let a = ease_tail(y1, m);
        let b = ease_tail(y2, m);
        assert(a * y1 <= b * y2) by (nonlinear_arith)
            requires
                0 <= a <= b,
                0 <= y1 <= y2,
        ;
        assert(a * y1 / 1_000_000 <= b * y2 / 1_000_000) by (nonlinear_arith)
            requires
                a * y1 <= b * y2,
        ;
    }
}

/// Each step of the tail at nine tenths keeps at most nine tenths of it.
proof fn lemma_tail_nine_tenths(n: nat)
    ensures
        ease_tail(900_000, n) * vstd::arithmetic::power::pow(10, n) <= EASE_ONE
            * vstd::arithmetic::power::pow(9, n),
    decreases n,
{
    reveal(vstd::arithmetic::power::pow);
    if n > 0 {
        let m = (n - 1) as nat;
        lemma_tail_nine_tenths(m);
        lemma_tail_range(900_000, m);
        let a = ease_tail(900_000, m);
        let tens = vstd::arithmetic::power::pow(10, m);
        let nines = vstd::arithmetic::power::pow(9, m);
        vstd::arithmetic::power::lemma_pow_positive(10, m);
        assert((a * 900_000 / 1_000_000) * 10 <= a * 9) by (nonlinear_arith)
            requires
                0 <= a,
        ;
        assert((a * 900_000 / 1_000_000) * (10 * tens) <= 1_000_000 * (9 * nines)) by (nonlinear_arith)
            requires
                (a * 900_000 / 1_000_000) * 10 <= a * 9,
                a * tens <= 1_000_000 * nines,
                tens > 0,
                0 <= a,
                a * 900_000 / 1_000_000 >= 0,
        ;
    }
}

/// The ease-out curve starts at 0, ends at one, never decreases, and has
/// done more than nine tenths of its motion a tenth of the way through.
pub proof fn lemma_ease_out_shape(lo: int, hi: int)
    requires
        0 <= lo <= hi <= EASE_ONE,
    ensures
        eased(0) == 0,
        eased(EASE_ONE as int) == EASE_ONE,
        eased(lo) <= eased(hi),
        eased(100_000) > 900_000,
{
    lemma_tail_of_one(EASE_POWER as nat);
    lemma_tail_of_zero(EASE_POWER as nat);
    lemma_tail_monotone(EASE_ONE - hi, EASE_ONE - lo, EASE_POWER as nat);
    lemma_tail_nine_tenths(30);
    lemma_tail_range(900_000, 30);
    let tens = vstd::arithmetic::power::pow(10, 30);
    let nines = vstd::arithmetic::power::pow(9, 30);
    reveal_with_fuel(vstd::arithmetic::power::pow, 31);
    assert(tens == 1_000_000_000_000_000_000_000_000_000_000);
    assert(nines == 42_391_158_275_216_203_514_294_433_201);
}

} // verus!
