//! Span bookkeeping helpers for the runner host: the flow-context hook and
//! the retry backoff schedule.

use vstd::prelude::*;

verus! {

broadcast use vstd::seq::group_seq_axioms;

/// A hook for recording the current tenant and flow on ambient telemetry;
/// the fallback host keeps no such context, so this does nothing.
pub fn set_flow_context(_tenant: &str, _flow_id: Option<&str>) {
}

/// How many doublings a retry attempt earns: the attempt number, capped at
/// ten.
pub open spec fn shift_count(attempt: u32) -> u32 {
    if attempt < 10 {
        attempt
    } else {
        10u32
    }
}

/// The deterministic part of the backoff delay: the base delay doubled once
/// per attempt (capped at ten doublings), saturating at the largest value.
pub open spec fn backoff_exp(base: u64, attempt: u32) -> int {
    let m = (1u64 << shift_count(attempt)) as int;
    if base * m > u64::MAX {
        u64::MAX as int
    } else {
        base * m
    }
}

/// Relies on rand::random_range: a uniformly drawn value inside the given
/// inclusive range, which is never empty here.
#[verifier::external_body]
fn random_in_range(bound: u64) -> (r: u64)
    ensures
        r <= bound,
{
    rand::random_range(0..=bound)
}

/// The delay before the given retry attempt: the exponential base delay
/// plus a random jitter of at most the smaller of that delay and one
/// second, saturating at the largest value.
pub fn backoff_delay_ms(base: u64, attempt: u32) -> (r: u64)
    ensures
        ({
            let exp = backoff_exp(base, attempt);
            let cap = if exp < 1000 {
                exp
            } else {
                1000int
            };
            exp <= r as int <= (if exp + cap > u64::MAX {
                u64::MAX as int
            } else {
                exp + cap
            })
        }),
{
    let m_count: u32 = if attempt < 10 {
        attempt
    } else {
        10
    };
    assert((1u64 << m_count) <= 1024 && (1u64 << m_count) >= 1) by (bit_vector)
        requires
            m_count <= 10,
    ;
    let multiplier: u64 = 1u64 << m_count;
    proof {
        vstd::arithmetic::mul::lemma_mul_upper_bound(
            base as int,
            u64::MAX as int,
            multiplier as int,
            1024,
        );
    }
    let wide: u128 = (base as u128) * (multiplier as u128);
    let exp: u64 = if wide > u64::MAX as u128 {
        u64::MAX
    } else {
        wide as u64
    };
    let cap: u64 = if exp < 1000 {
        exp
    } else {
        1000
    };
    let jitter = random_in_range(cap);
    if exp > u64::MAX - jitter {
        u64::MAX
    } else {
        exp + jitter
    }
}

} // verus!
