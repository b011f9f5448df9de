//! Delivery retry policy: exponential backoff with a hard cap, and retry
//! eligibility. Pure policy functions, consulted by whatever transport
//! performs the actual sends; no I/O happens here.

use vstd::prelude::*;
use vstd::arithmetic::power2::{lemma2_to64, lemma_pow2_strictly_increases, lemma_pow2_unfold, pow2};

verus! {

/// Maximum backoff delay in milliseconds, capping unreasonably long waits.
pub const MAX_BACKOFF_MS: u64 = 60000;

/// Exponent cap applied to the attempt number before computing the
/// exponential factor, preventing overflow for very large attempt counts.
pub const MAX_BACKOFF_EXPONENT: u32 = 10;

/// The exponent actually used for a given attempt number.
pub open spec fn capped_exponent(attempt: u32) -> nat {
    if attempt < MAX_BACKOFF_EXPONENT {
        attempt as nat
    } else {
        MAX_BACKOFF_EXPONENT as nat
    }
}

/// The backoff delay in milliseconds for a retry attempt:
/// `base_delay_ms * 2^min(attempt, 10)`, capped at `MAX_BACKOFF_MS`.
pub open spec fn backoff_delay_millis(attempt: u32, base_delay_ms: u64) -> int {
    let raw = base_delay_ms * pow2(capped_exponent(attempt));
    if raw < MAX_BACKOFF_MS { raw } else { MAX_BACKOFF_MS as int }
}

/// Calculates the exponential backoff delay in milliseconds for a retry
/// attempt (0-indexed), capped at [`MAX_BACKOFF_MS`]. Neither the
/// exponentiation nor the multiplication can overflow: the exponent is capped
/// at [`MAX_BACKOFF_EXPONENT`] and a base at or above the cap short-circuits.
pub fn calculate_backoff_delay_ms(attempt: u32, base_delay_ms: u64) -> (delay: u64)
    ensures
        delay == backoff_delay_millis(attempt, base_delay_ms),
{
    let exponent: u32 = if attempt < MAX_BACKOFF_EXPONENT {
        attempt
    } else {
        MAX_BACKOFF_EXPONENT
    };
    if base_delay_ms >= MAX_BACKOFF_MS {
        proof {
            lemma2_to64();
            if exponent > 0 {
                lemma_pow2_strictly_increases(0, exponent as nat);
            }
            assert(base_delay_ms * pow2(exponent as nat) >= base_delay_ms * 1 == base_delay_ms)
                by (nonlinear_arith)
                requires pow2(exponent as nat) >= 1,
            ;
        }
        return MAX_BACKOFF_MS;
    }
    let mut factor: u64 = 1;
    let mut i: u32 = 0;
    proof {
        lemma2_to64();
    }
    while i < exponent
        invariant
            i <= exponent <= MAX_BACKOFF_EXPONENT,
            factor == pow2(i as nat),
        decreases exponent - i,
    {
        proof {
            if (i as nat) < 10 {
                lemma_pow2_strictly_increases(i as nat, 10);
            }
            lemma2_to64();
            lemma_pow2_unfold((i + 1) as nat);
        }
        factor = factor * 2;
        i = i + 1;
    }
    proof {
        lemma2_to64();
        if (exponent as nat) < 10 {
            lemma_pow2_strictly_increases(exponent as nat, 10);
        }
        assert(base_delay_ms * factor <= 60000 * 1024) by (nonlinear_arith)
            requires
                base_delay_ms <= 60000,
                factor <= 1024,
        ;
    }
    let raw = base_delay_ms * factor;
    if raw < MAX_BACKOFF_MS {
        raw
    } else {
        MAX_BACKOFF_MS
    }
}

/// Whether a failed request should be retried: true exactly when the
/// attempt count has not yet reached the configured maximum.
pub fn should_retry(attempt: u32, max_retries: u32) -> (retry: bool)
    ensures
        retry == (attempt < max_retries),
{
    attempt < max_retries
}

/// The backoff delay never exceeds the cap.
pub proof fn lemma_backoff_delay_bounded(attempt: u32, base_delay_ms: u64)
    ensures
        backoff_delay_millis(attempt, base_delay_ms) <= MAX_BACKOFF_MS,
{
    lemma2_to64();
    lemma_pow2_pos_value(attempt, base_delay_ms);
}

proof fn lemma_pow2_pos_value(attempt: u32, base_delay_ms: u64)
    ensures
        base_delay_ms * pow2(capped_exponent(attempt)) >= 0,
{
    vstd::arithmetic::power2::lemma_pow2_pos(capped_exponent(attempt));
    assert(base_delay_ms * pow2(capped_exponent(attempt)) >= 0) by (nonlinear_arith)
        requires pow2(capped_exponent(attempt)) >= 1,
    ;
}

/// The backoff delay is monotonically non-decreasing in the attempt number,
/// for any base delay.
pub proof fn lemma_backoff_delay_monotonic(a1: u32, a2: u32, base_delay_ms: u64)
    requires
        a1 <= a2,
    ensures
        backoff_delay_millis(a1, base_delay_ms) <= backoff_delay_millis(a2, base_delay_ms),
{
    if capped_exponent(a1) < capped_exponent(a2) {
        lemma_pow2_strictly_increases(capped_exponent(a1), capped_exponent(a2));
    }
    assert(base_delay_ms * pow2(capped_exponent(a1)) <= base_delay_ms * pow2(capped_exponent(a2)))
        by (nonlinear_arith)
        requires pow2(capped_exponent(a1)) <= pow2(capped_exponent(a2)),
    ;
}

} // verus!
