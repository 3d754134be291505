use vstd::prelude::*;
use crate::contract::TimeLockContract;
use crate::lifecycle::{claim_outcome, claimed, proof_accepted};
use crate::pricing::slippage_outcome;
use crate::slippage::rate_in_bounds;
use crate::types::{Address, Error, GiftStatus, SlippageConfig};

verus! {

/// A pending gift cannot be claimed before its unlock time, whether or not
/// the proof is valid.
pub proof fn lemma_early_claim_rejected(unlock_time: u64, now: u64, proof_valid: bool)
    requires
        now < unlock_time,
    ensures
        claim_outcome(GiftStatus::Pending, unlock_time, now, proof_valid) == Err::<(), Error>(Error::TimeLockActive),
{
}

/// Once a claim has succeeded, the gift records that claimant, and every
/// later claim, by anyone, at any time, with any proof, fails with
/// `InvalidStatus` (and a failed claim changes nothing).
pub proof fn lemma_claim_happens_once(
    before: TimeLockContract,
    after: TimeLockContract,
    gift_id: u64,
    claimant: Address,
    now: u64,
    first_proof_valid: bool,
    later: u64,
    later_proof_valid: bool,
)
    requires
        before.wf(),
        before.gift(gift_id) is Some,
        claim_outcome(
            before.gift(gift_id)->Some_0.status,
            before.gift(gift_id)->Some_0.unlock_time,
            now,
            first_proof_valid,
        ) is Ok,
        after.gifts@ == before.gifts@.update(gift_id - 1, claimed(before.gift(gift_id)->Some_0, claimant)),
    ensures
        after.gift(gift_id) matches Some(g) && g.status == GiftStatus::Claimed && g.claimant == Some(claimant),
        claim_outcome(
            after.gift(gift_id)->Some_0.status,
            after.gift(gift_id)->Some_0.unlock_time,
            later,
            later_proof_valid,
        ) == Err::<(), Error>(Error::InvalidStatus),
{
}

/// A pending, unlocked gift is refused with `InvalidProof` when the proof is
/// not the oracle key's signature over the claimant and recipient hash.
pub proof fn lemma_bad_proof_rejected(
    key: Option<[u8; 32]>,
    claimant: Address,
    recipient_proof_hash: Seq<char>,
    proof: Seq<u8>,
    unlock_time: u64,
    now: u64,
)
    requires
        now >= unlock_time,
        !proof_accepted(key, claimant, recipient_proof_hash, proof),
    ensures
        claim_outcome(
            GiftStatus::Pending,
            unlock_time,
            now,
            proof_accepted(key, claimant, recipient_proof_hash, proof),
        ) == Err::<(), Error>(Error::InvalidProof),
{
}

/// For a sane oracle rate and any actual rate, the guard passes exactly when
/// the deviation of `actual` from `expected`, in whole basis points, is
/// within the threshold, and fails with `SlippageExceeded` otherwise.
pub proof fn lemma_slippage_threshold(config: SlippageConfig, expected: i128, actual: i128)
    requires
        rate_in_bounds(expected as int),
    ensures
        (10_000 * (if actual >= expected { actual - expected } else { expected - actual })) / (expected as int)
            <= config.max_slippage_bps ==> slippage_outcome(Some(config), expected, actual) == Ok::<(), Error>(()),
        (10_000 * (if actual >= expected { actual - expected } else { expected - actual })) / (expected as int)
            > config.max_slippage_bps ==> slippage_outcome(Some(config), expected, actual) == Err::<(), Error>(
            Error::SlippageExceeded,
        ),
{
}

/// A smaller deviation under a wider tolerance never turns a passing
/// settlement into a failing one.
pub proof fn lemma_slippage_monotone(config: SlippageConfig, wider: SlippageConfig, expected: i128, actual: i128, closer: i128)
    requires
        rate_in_bounds(expected as int),
        config.max_slippage_bps <= wider.max_slippage_bps,
        (if closer >= expected { closer - expected } else { expected - closer })
            <= (if actual >= expected { actual - expected } else { expected - actual }),
        slippage_outcome(Some(config), expected, actual) == Ok::<(), Error>(()),
    ensures
        slippage_outcome(Some(wider), expected, closer) == Ok::<(), Error>(()),
{
    let d1: int = if actual >= expected { actual - expected } else { expected - actual };
    let d2: int = if closer >= expected { closer - expected } else { expected - closer };
    vstd::arithmetic::div_mod::lemma_div_is_ordered(10_000 * d2, 10_000 * d1, expected as int);
}

/// While oracle checks run and a rate is cached, a query younger than the
/// maximum age is served the cached rate and asks nothing upstream; a query
/// at or past that age asks upstream and serves the new rate.
pub proof fn lemma_cache_window(s: TimeLockContract, now: u64, quote: i128)
    requires
        s.oracle_config matches Some(c) && !c.is_paused,
        s.price_cache matches Some(p) && p.timestamp <= now,
        rate_in_bounds(quote as int),
    ensures
        now - s.price_cache->Some_0.timestamp < s.oracle_config->Some_0.max_oracle_age ==> {
            &&& s.oracle_outcome(now, quote) == Ok::<i128, Error>(s.price_cache->Some_0.rate)
            &&& !s.oracle_refreshes(now, quote)
        },
        now - s.price_cache->Some_0.timestamp >= s.oracle_config->Some_0.max_oracle_age ==> {
            &&& s.oracle_outcome(now, quote) == Ok::<i128, Error>(quote)
            &&& s.oracle_refreshes(now, quote)
        },
{
}

/// Settling a claimed gift larger than the available liquidity fails with
/// `InsufficientLiquidity` before any rate is asked for.
pub proof fn lemma_liquidity_checked(
    s: TimeLockContract,
    gift_id: u64,
    now: u64,
    quote: i128,
    actual_rate: i128,
    available_liquidity: i128,
)
    requires
        s.gift(gift_id) matches Some(g) && g.status == GiftStatus::Claimed && g.amount > available_liquidity,
    ensures
        s.withdraw_outcome(gift_id, now, quote, actual_rate, available_liquidity) == Err::<(), Error>(
            Error::InsufficientLiquidity,
        ),
        !s.withdraw_reaches_oracle(gift_id, available_liquidity),
{
}

} // verus!
