use vstd::prelude::*;

verus! {

/// Delay before the first retry of a batch, in milliseconds.
pub const BASE_RETRY_DELAY_MS: u64 = 100;

/// Largest random addition to a retry delay, in milliseconds.
pub const MAX_JITTER_MS: u64 = 50;

/// Delay before the first retry of the service bootstrap, in milliseconds.
pub const INITIAL_BOOTSTRAP_DELAY_MS: u64 = 1000;

/// Longest delay between two bootstrap attempts, in milliseconds.
pub const MAX_BOOTSTRAP_DELAY_MS: u64 = 30000;

/// Two to the power `k`.
pub open spec fn power_of_two(k: nat) -> nat
    decreases k,
{
    if k == 0 {
        1
    } else {
        2 * power_of_two((k - 1) as nat)
    }
}

/// The factor by which the base delay has grown after `retries` failures: it
/// doubles with each failure.
pub open spec fn spec_backoff_factor(retries: nat) -> nat {
    power_of_two(retries)
}

/// The delay before retry number `retries` (counted from zero) with the
/// given random addition: the base delay times the factor, plus the
/// addition, and the largest 64-bit number where that would pass it.
pub open spec fn spec_retry_delay_ms(retries: nat, jitter: u64) -> u64 {
    let exact = BASE_RETRY_DELAY_MS * spec_backoff_factor(retries) + jitter;
    if exact > u64::MAX {
        u64::MAX
    } else {
        exact as u64
    }
}

/// Powers of two grow with the exponent.
pub proof fn lemma_power_of_two_monotonic(i: nat, j: nat)
    requires
        i <= j,
    ensures
        power_of_two(i) <= power_of_two(j),
    decreases j,
{
    if i < j {
        lemma_power_of_two_monotonic(i, (j - 1) as nat);
    }
}

/// The powers of two at the edge of the 64-bit range.
pub proof fn lemma_power_of_two_64()
    ensures
        power_of_two(57) == 0x0200_0000_0000_0000,
        power_of_two(63) == 0x8000_0000_0000_0000,
        power_of_two(64) == 0x1_0000_0000_0000_0000,
{
    reveal_with_fuel(power_of_two, 65);
}

/// The growth factor after `retries` failures, where it is a 64-bit number.
pub fn backoff_factor(retries: usize) -> (factor: Option<u64>)
    ensures
        retries <= 63 ==> factor == Some(spec_backoff_factor(retries as nat) as u64)
            && spec_backoff_factor(retries as nat) <= u64::MAX,
        retries > 63 ==> factor.is_none() && spec_backoff_factor(retries as nat) > u64::MAX,
{
    proof {
        lemma_power_of_two_64();
    }
    if retries > 63 {
        proof {
            lemma_power_of_two_monotonic(64, retries as nat);
        }
        return None;
    }
    let mut factor: u64 = 1;
    let mut i: usize = 0;
    while i < retries
        invariant
            i <= retries <= 63,
            factor == power_of_two(i as nat),
            power_of_two(63) == 0x8000_0000_0000_0000,
        decreases retries - i,
    {
        proof {
            lemma_power_of_two_monotonic((i + 1) as nat, 63);
        }
        factor = factor * 2;
        i += 1;
    }
    Some(factor)
}

/// The delay before retry number `retries`, in milliseconds.
pub fn retry_delay_ms(retries: usize, jitter: u64) -> (millis: u64)
    ensures
        millis == spec_retry_delay_ms(retries as nat, jitter),
{
    match backoff_factor(retries) {
        None => u64::MAX,
        Some(factor) => {
            if factor > (u64::MAX - jitter) / BASE_RETRY_DELAY_MS {
                u64::MAX
            } else {
                BASE_RETRY_DELAY_MS * factor + jitter
            }
        },
    }
}

/// Calls `rand::Rng::gen_range` on the generator of the current thread with
/// the inclusive range from zero to `max`; the draw lies in that range.
#[verifier::external_body]
fn random_up_to(max: u64) -> (draw: u64)
    ensures
        draw <= max,
{
    rand::Rng::gen_range(&mut rand::thread_rng(), 0..=max)
}

/// A fresh random addition to a retry delay.
pub fn random_jitter_ms() -> (jitter: u64)
    ensures
        jitter <= MAX_JITTER_MS,
{
    random_up_to(MAX_JITTER_MS)
}

/// The bootstrap delay that follows `delay`: twice as long, up to the cap.
pub open spec fn spec_next_bootstrap_delay(delay: u64) -> u64 {
    if 2 * delay >= MAX_BOOTSTRAP_DELAY_MS {
        MAX_BOOTSTRAP_DELAY_MS
    } else {
        (2 * delay) as u64
    }
}

/// The bootstrap delay that follows `delay`.
pub fn next_bootstrap_delay(delay: u64) -> (next: u64)
    ensures
        next == spec_next_bootstrap_delay(delay),
{
    if delay >= MAX_BOOTSTRAP_DELAY_MS / 2 {
        MAX_BOOTSTRAP_DELAY_MS
    } else {
        2 * delay
    }
}

/// Up to the fifty-seventh doubling every delay with its random addition is
/// a 64-bit number of milliseconds.
pub proof fn lemma_retry_delay_fits(k: nat, jitter: u64)
    requires
        k <= 57,
        jitter <= MAX_JITTER_MS,
    ensures
        100 * power_of_two(k) + jitter <= u64::MAX,
{
    lemma_power_of_two_64();
    lemma_power_of_two_monotonic(k, 57);
}

/// The delay before retry `k` is the base delay times two to the `k`, plus
/// the random addition, wherever that is a 64-bit number of milliseconds.
/// The random addition is at most fifty milliseconds.
pub proof fn lemma_retry_delay_formula(k: nat, jitter: u64)
    requires
        100 * power_of_two(k) + jitter <= u64::MAX,
    ensures
        spec_retry_delay_ms(k, jitter) == 100 * power_of_two(k) + jitter,
        jitter <= MAX_JITTER_MS ==> 100 * power_of_two(k) <= spec_retry_delay_ms(k, jitter) <= 100
            * power_of_two(k) + 50,
{
}

/// Retry delays grow from one retry to the next, whatever the random
/// additions, while they are 64-bit numbers of milliseconds.
pub proof fn lemma_retry_delay_grows(k: nat, jitter_a: u64, jitter_b: u64)
    requires
        k < 57,
        jitter_a <= MAX_JITTER_MS,
        jitter_b <= MAX_JITTER_MS,
    ensures
        spec_retry_delay_ms(k, jitter_a) < spec_retry_delay_ms(k + 1, jitter_b),
{
    assert(power_of_two(k + 1) == 2 * power_of_two(k));
    lemma_power_of_two_monotonic(0, k);
    lemma_retry_delay_fits(k, jitter_a);
    lemma_retry_delay_fits(k + 1, jitter_b);
}

} // verus!
