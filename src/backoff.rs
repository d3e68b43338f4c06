use vstd::prelude::*;

verus! {

/// Two to the power `e`.
pub open spec fn pow2(e: nat) -> nat
    decreases e,
{
    if e == 0 {
        1
    } else {
        2 * pow2((e - 1) as nat)
    }
}

/// The smaller of `a` and `cap`.
pub open spec fn capped(a: int, cap: int) -> int {
    if a < cap {
        a
    } else {
        cap
    }
}

/// The delay before retry number `attempt + 1`: `base` doubled for each
/// earlier attempt, never more than `cap`.
pub open spec fn backoff_spec(base: u64, attempt: u32, cap: u64) -> int {
    capped(base * pow2(attempt as nat), cap as int)
}

proof fn lemma_pow2_monotonic(a: nat, b: nat)
    requires
        a <= b,
    ensures
        pow2(a) <= pow2(b),
    decreases b,
{
    if a < b {
        lemma_pow2_monotonic(a, (b - 1) as nat);
    }
}

/// Exponential backoff with a ceiling.
pub fn backoff_delay(base: u64, attempt: u32, cap: u64) -> (r: u64)
    ensures
        r as int == backoff_spec(base, attempt, cap),
{
    let mut d: u128 = base as u128;
    let mut i: u32 = 0;
    assert(pow2(0) == 1);
    while i < attempt && d < cap as u128
        invariant
            i <= attempt,
            d == base * pow2(i as nat),
            d <= 2 * (u64::MAX as int),
        decreases attempt - i,
    {
        proof {
            let e = (i + 1) as nat;
            assert(pow2(e) == 2 * pow2(i as nat));
            assert(base * pow2(e) == 2 * (base * pow2(i as nat))) by (nonlinear_arith)
                requires
                    pow2(e) == 2 * pow2(i as nat),
            ;
        }
        d = 2 * d;
        i = i + 1;
    }
    if d >= cap as u128 {
        proof {
            lemma_pow2_monotonic(i as nat, attempt as nat);
            assert(base * pow2(i as nat) <= base * pow2(attempt as nat)) by (nonlinear_arith)
                requires
                    pow2(i as nat) <= pow2(attempt as nat),
            ;
        }
        cap
    } else {
        d as u64
    }
}

} // verus!
