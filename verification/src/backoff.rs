//! The delay before the next attempt: exponential in the number of the
//! attempt, capped, and moved by a jitter that depends on that number
//! alone.

use vstd::prelude::*;

verus! {

/// Delay before the second attempt, in milliseconds, before jitter.
pub const BASE_DELAY_MS: u64 = 1000;

/// No delay is longer, in milliseconds.
pub const MAX_DELAY_MS: u64 = 15000;

/// No delay is shorter, in milliseconds.
pub const MIN_DELAY_MS: u64 = 100;

/// The base delay doubled once for each attempt after the first.
pub open spec fn exponential_delay(attempt: nat) -> nat
    decreases attempt,
{
    if attempt <= 1 {
        BASE_DELAY_MS as nat
    } else {
        2 * exponential_delay((attempt - 1) as nat)
    }
}

/// The exponential delay, cut at the maximum.
pub open spec fn capped_delay(attempt: nat) -> nat {
    if exponential_delay(attempt) <= MAX_DELAY_MS as nat {
        exponential_delay(attempt)
    } else {
        MAX_DELAY_MS as nat
    }
}

/// The widest jitter to either side: a quarter of the capped delay.
pub open spec fn jitter_range(capped: nat) -> nat {
    capped / 4
}

/// The offset that `seed` picks: at least minus the range, and below the
/// range.
pub open spec fn jitter(capped: nat, seed: nat) -> int {
    if jitter_range(capped) > 0 {
        (seed % (2 * jitter_range(capped))) - jitter_range(capped)
    } else {
        0
    }
}

/// `delay` moved into the bounds of every delay.
pub open spec fn clamp_delay(delay: int) -> nat {
    if delay < MIN_DELAY_MS as int {
        MIN_DELAY_MS as nat
    } else if delay > MAX_DELAY_MS as int {
        MAX_DELAY_MS as nat
    } else {
        delay as nat
    }
}

/// The delay after attempt `attempt`, as `seed` moves it.
pub open spec fn backoff_delay(attempt: nat, seed: nat) -> nat {
    clamp_delay(capped_delay(attempt) + jitter(capped_delay(attempt), seed))
}

/// The hash of a `u32` under `std::collections::hash_map::DefaultHasher`
/// as `DefaultHasher::new()` makes it. That hasher takes no seed from the
/// process: all hashers made by `new` are the same, so for one build of
/// the library the hash depends on the number alone.
pub uninterp spec fn attempt_hash(attempt: u32) -> u64;

/// The delay after attempt `attempt`: a function of that number alone.
pub open spec fn delay_of_attempt(attempt: u32) -> nat {
    backoff_delay(attempt as nat, attempt_hash(attempt) as nat)
}

/// Feeds `attempt` to a hasher made by `DefaultHasher::new()` and returns
/// what `finish` gives. The contract gives the result the name
/// `attempt_hash` and claims nothing else of it.
#[verifier::external_body]
fn hash_attempt(attempt: u32) -> (hash: u64)
    ensures
        hash == attempt_hash(attempt),
{
    let mut hasher = std::collections::hash_map::DefaultHasher::new();
    std::hash::Hash::hash(&attempt, &mut hasher);
    std::hash::Hasher::finish(&hasher)
}

/// The exponential delay never shrinks, and from the fifth attempt on it
/// lies above the maximum.
pub proof fn lemma_exponential_delay_grows(earlier: nat, later: nat)
    requires
        earlier <= later,
    ensures
        BASE_DELAY_MS <= exponential_delay(earlier) <= exponential_delay(later),
    decreases later,
{
    if later > 1 {
        if earlier == later {
            lemma_exponential_delay_grows(1, (later - 1) as nat);
        } else {
            lemma_exponential_delay_grows(earlier, (later - 1) as nat);
        }
    }
}

/// The capped delay of an attempt.
pub fn capped_delay_ms(attempt: u32) -> (capped: u64)
    requires
        attempt >= 1,
    ensures
        capped == capped_delay(attempt as nat),
        BASE_DELAY_MS <= capped <= MAX_DELAY_MS,
{
    let mut delay: u64 = BASE_DELAY_MS;
    let mut reached: u32 = 1;
    while reached < attempt && delay <= MAX_DELAY_MS
        invariant
            1 <= reached <= attempt,
            delay == exponential_delay(reached as nat),
            BASE_DELAY_MS <= delay <= 2 * MAX_DELAY_MS,
        decreases attempt - reached,
    {
        delay = 2 * delay;
        reached = reached + 1;
    }
    proof {
        lemma_exponential_delay_grows(reached as nat, attempt as nat);
    }
    if delay <= MAX_DELAY_MS {
        delay
    } else {
        MAX_DELAY_MS
    }
}

/// The delay after attempt `attempt`, as `seed` moves it.
pub fn backoff_delay_for(attempt: u32, seed: u64) -> (delay: u64)
    requires
        attempt >= 1,
    ensures
        delay == backoff_delay(attempt as nat, seed as nat),
        MIN_DELAY_MS <= delay <= MAX_DELAY_MS,
{
    let capped = capped_delay_ms(attempt);
    let range: u64 = capped / 4;
    let moved: u64 = if range > 0 {
        capped + seed % (2 * range) - range
    } else {
        capped
    };
    if moved < MIN_DELAY_MS {
        MIN_DELAY_MS
    } else if moved > MAX_DELAY_MS {
        MAX_DELAY_MS
    } else {
        moved
    }
}

/// The delay to wait after attempt `attempt` has failed. Attempts are
/// counted from one.
pub fn calculate_python_backoff_delay(attempt: u32) -> (delay: u64)
    requires
        attempt >= 1,
    ensures
        delay == delay_of_attempt(attempt),
        MIN_DELAY_MS <= delay <= MAX_DELAY_MS,
{
    let seed = hash_attempt(attempt);
    backoff_delay_for(attempt, seed)
}

/// Every delay lies between the minimum and the maximum, whatever the
/// seed.
pub proof fn lemma_delay_in_bounds(attempt: nat, seed: nat)
    ensures
        MIN_DELAY_MS <= backoff_delay(attempt, seed) <= MAX_DELAY_MS,
{
}

/// Before jitter the delay never shrinks from one attempt to the next,
/// and it stays at the maximum once it has reached it.
pub proof fn lemma_capped_delay_grows(earlier: nat, later: nat)
    requires
        earlier <= later,
    ensures
        BASE_DELAY_MS <= capped_delay(earlier) <= capped_delay(later) <= MAX_DELAY_MS,
{
    lemma_exponential_delay_grows(earlier, later);
    lemma_exponential_delay_grows(0, earlier);
}

/// Jitter moves the delay by at most a quarter of its capped value, to
/// either side, and the lower bound never cuts it.
pub proof fn lemma_delay_stays_near(attempt: nat, seed: nat)
    ensures
        capped_delay(attempt) - jitter_range(capped_delay(attempt)) <= backoff_delay(attempt, seed),
        backoff_delay(attempt, seed) <= capped_delay(attempt) + jitter_range(
            capped_delay(attempt),
        ),
{
    lemma_capped_delay_grows(attempt, attempt);
    let capped = capped_delay(attempt);
    let range = jitter_range(capped);
    assert(0 <= seed % (2 * range) < 2 * range) by (nonlinear_arith)
        requires
            range > 0,
    ;
}

/// The delays of `attempt` for the seeds below `count`, added up.
pub open spec fn delay_sum(attempt: nat, count: nat) -> nat
    decreases count,
{
    if count == 0 {
        0
    } else {
        delay_sum(attempt, (count - 1) as nat) + backoff_delay(attempt, (count - 1) as nat)
    }
}

/// The number of seeds after which the jitter of `attempt` repeats.
pub open spec fn jitter_period(attempt: nat) -> nat {
    2 * jitter_range(capped_delay(attempt))
}

/// The capped delay takes five values: it doubles from the first attempt
/// to the fourth and is the maximum from the fifth on.
pub proof fn lemma_capped_delay_values(attempt: nat)
    ensures
        capped_delay(attempt) == if attempt <= 1 {
            1000nat
        } else if attempt == 2 {
            2000nat
        } else if attempt == 3 {
            4000nat
        } else if attempt == 4 {
            8000nat
        } else {
            15000nat
        },
{
    reveal_with_fuel(exponential_delay, 6);
    if attempt >= 5 {
        lemma_exponential_delay_grows(5, attempt);
    }
}

/// A seed and the seed one period later give the same delay.
pub proof fn lemma_jitter_repeats(attempt: nat, seed: nat)
    ensures
        backoff_delay(attempt, seed + jitter_period(attempt)) == backoff_delay(attempt, seed),
{
    lemma_capped_delay_grows(attempt, attempt);
    let period = jitter_period(attempt) as int;
    vstd::arithmetic::div_mod::lemma_mod_add_multiples_vanish(seed as int, period);
}

proof fn lemma_sum_below_the_cap(attempt: nat, count: nat)
    requires
        capped_delay(attempt) + jitter_range(capped_delay(attempt)) <= MAX_DELAY_MS,
        count <= jitter_period(attempt),
    ensures
        2 * delay_sum(attempt, count) == 2 * count * (capped_delay(attempt) - jitter_range(
            capped_delay(attempt),
        )) + count * (count - 1),
    decreases count,
{
    lemma_capped_delay_grows(attempt, attempt);
    let capped = capped_delay(attempt) as int;
    let range = jitter_range(capped_delay(attempt)) as int;
    if count > 0 {
        let seed = (count - 1) as nat;
        lemma_sum_below_the_cap(attempt, seed);
        vstd::arithmetic::div_mod::lemma_small_mod(seed, (2 * range) as nat);
        assert(backoff_delay(attempt, seed) == capped - range + seed);
        let before = delay_sum(attempt, seed) as int;
        let low = capped - range;
        assert(2 * (before + low + seed) == 2 * count * low + count * (count - 1))
            by (nonlinear_arith)
            requires
                2 * before == 2 * seed * low + seed * (seed - 1),
                count == seed + 1,
        ;
    } else {
        assert(2 * count * (capped - range) + count * (count - 1) == 0) by (nonlinear_arith)
            requires
                count == 0,
        ;
    }
}

proof fn lemma_sum_at_the_cap(attempt: nat, count: nat)
    requires
        capped_delay(attempt) == 15000,
        count <= 7500,
    ensures
        count <= 3751 ==> 2 * delay_sum(attempt, count) == 22500 * count + count * (count - 1),
        count >= 3751 ==> delay_sum(attempt, count) == 49231875 + 15000 * (count - 3751),
    decreases count,
{
    if count > 0 {
        let seed = (count - 1) as nat;
        lemma_sum_at_the_cap(attempt, seed);
        assert(seed % 7500 == seed);
        if count <= 3751 {
            assert(backoff_delay(attempt, seed) == 11250 + seed);
            let before = delay_sum(attempt, seed) as int;
            assert(2 * (before + 11250 + seed) == 22500 * count + count * (count - 1))
                by (nonlinear_arith)
                requires
                    2 * before == 22500 * seed + seed * (seed - 1),
                    count == seed + 1,
            ;
            if count == 3751 {
                assert(count * (count - 1) == 14066250) by (nonlinear_arith)
                    requires
                        count == 3751,
                ;
            }
        } else {
            assert(backoff_delay(attempt, seed) == 15000);
        }
    } else {
        assert(count * (count - 1) == 0) by (nonlinear_arith)
            requires
                count == 0,
        ;
    }
}

/// The delays of one period of seeds, added up, for each of the five
/// capped delays.
pub proof fn lemma_period_sum(attempt: nat)
    ensures
        jitter_period(attempt) == capped_delay(attempt) / 2,
        delay_sum(attempt, jitter_period(attempt)) == if attempt <= 1 {
            499750nat
        } else if attempt == 2 {
            1999500nat
        } else if attempt == 3 {
            7999000nat
        } else if attempt == 4 {
            31998000nat
        } else {
            105466875nat
        },
{
    lemma_capped_delay_values(attempt);
    let period = jitter_period(attempt);
    let capped = capped_delay(attempt) as int;
    let range = jitter_range(capped_delay(attempt)) as int;
    if attempt >= 5 {
        lemma_sum_at_the_cap(attempt, period);
    } else {
        lemma_sum_below_the_cap(attempt, period);
        assert(2 * period * (capped - range) + period * (period - 1) == 2 * if attempt <= 1 {
            499750int
        } else if attempt == 2 {
            1999500int
        } else if attempt == 3 {
            7999000int
        } else {
            31998000int
        }) by (nonlinear_arith)
            requires
                (capped == 1000 && range == 250 && period == 500 && attempt <= 1) || (capped
                    == 2000 && range == 500 && period == 1000 && attempt == 2) || (capped == 4000
                    && range == 1000 && period == 2000 && attempt == 3) || (capped == 8000 && range
                    == 2000 && period == 4000 && attempt == 4),
        ;
    }
}

/// With the seed drawn evenly, the mean delay never shrinks from one
/// attempt to a later one: the delays of one period of seeds, added up and
/// divided by the length of the period, grow with the attempt up to the
/// cap and stay there. The two means are compared without division.
pub proof fn lemma_mean_delay_grows(earlier: nat, later: nat)
    requires
        1 <= earlier <= later,
    ensures
        jitter_period(earlier) > 0,
        jitter_period(later) > 0,
        delay_sum(earlier, jitter_period(earlier)) * jitter_period(later) <= delay_sum(
            later,
            jitter_period(later),
        ) * jitter_period(earlier),
{
    lemma_period_sum(earlier);
    lemma_period_sum(later);
    lemma_capped_delay_values(earlier);
    lemma_capped_delay_values(later);
    let left = delay_sum(earlier, jitter_period(earlier)) as int;
    let right = delay_sum(later, jitter_period(later)) as int;
    let short = jitter_period(earlier) as int;
    let long = jitter_period(later) as int;
    assert(left * long <= right * short) by (nonlinear_arith)
        requires
            (left == 499750 && short == 500) || (left == 1999500 && short == 1000) || (left
                == 7999000 && short == 2000) || (left == 31998000 && short == 4000) || (left
                == 105466875 && short == 7500),
            (right == 499750 && long == 500) || (right == 1999500 && long == 1000) || (right
                == 7999000 && long == 2000) || (right == 31998000 && long == 4000) || (right
                == 105466875 && long == 7500),
            short <= long,
    ;
}

} // verus!
