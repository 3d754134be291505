use vstd::prelude::*;
use crate::contract::TimeLockContract;
use crate::events::{AnchorDepositSent, BankWithdrawalInitiated, Event, FeesCollected, PathPaymentExecuted};
use crate::payload::{build_claim_payload, claim_payload, encodable_string};
use crate::pricing::{is_rate_query, slippage_outcome};
use crate::signature::{ed25519_verify_strict, verify_ed25519};
use crate::types::{Address, Error, Gift, GiftStatus, BPS_DENOMINATOR, FEE_DIVISOR, RATE_SCALE};

verus! {

/// Whether `proof` is the configured oracle key's signature binding
/// `claimant` to `recipient_proof_hash`.
pub open spec fn proof_accepted(
    key: Option<[u8; 32]>,
    claimant: Address,
    recipient_proof_hash: Seq<char>,
    proof: Seq<u8>,
) -> bool {
    &&& key is Some
    &&& encodable_string(recipient_proof_hash)
    &&& ed25519_verify_strict(key->Some_0@, claim_payload(claimant, recipient_proof_hash), proof)
}

/// Outcome of a claim on a gift in `status`, unlocking at `unlock_time`,
/// attempted at `now`, with a proof that is valid or not.
pub open spec fn claim_outcome(status: GiftStatus, unlock_time: u64, now: u64, proof_valid: bool) -> Result<(), Error> {
    if status != GiftStatus::Pending {
        Err(Error::InvalidStatus)
    } else if now < unlock_time {
        Err(Error::TimeLockActive)
    } else if !proof_valid {
        Err(Error::InvalidProof)
    } else {
        Ok(())
    }
}

/// `g` after a successful claim by `claimant`.
pub open spec fn claimed(g: Gift, claimant: Address) -> Gift {
    Gift { status: GiftStatus::Claimed, claimant: Some(claimant), ..g }
}

/// `g` after settlement.
pub open spec fn withdrawn(g: Gift) -> Gift {
    Gift { status: GiftStatus::Withdrawn, ..g }
}

/// The fee retained when settling `amount`.
pub open spec fn settlement_fee(amount: int) -> int {
    amount / (FEE_DIVISOR as int)
}

/// What is sent down the settlement path for `amount`.
pub open spec fn settlement_net(amount: int) -> int {
    amount - settlement_fee(amount)
}

/// Whether settling `amount` at `rate` stays within 128-bit arithmetic.
pub open spec fn settlement_fits(amount: int, rate: int) -> bool {
    i128::MIN <= settlement_net(amount) * rate <= i128::MAX
}

/// What the recipient receives for `amount` at `rate`, rounded down.
pub open spec fn settlement_value(amount: int, rate: int) -> int {
    settlement_net(amount) * rate / (RATE_SCALE as int)
}

/// The four events that record the settlement of gift `gift_id`.
pub open spec fn is_settlement_record(
    es: Seq<Event>,
    gift_id: u64,
    amount: i128,
    rate: i128,
    destination: Address,
    memo: Seq<char>,
) -> bool {
    let value = settlement_value(amount as int, rate as int);
    &&& es.len() == 4
    &&& es[0] == Event::BankWithdrawalInitiated(
        (BankWithdrawalInitiated { gift_id, amount_usdc: amount, expected_ngn: value as i128 }),
    )
    &&& es[1] matches Event::PathPaymentExecuted(p) && p.usdc_sent == settlement_net(amount as int)
        && p.ngn_received == value && p.exchange_rate == rate && p.path@.len() == 0
    &&& es[2] matches Event::AnchorDepositSent(d) && d.anchor_address == destination && d.ngn_amount == value
        && d.memo@ == memo
    &&& es[3] == Event::FeesCollected((FeesCollected { gift_id, fee_amount_usdc: settlement_fee(amount as int) as i128 }))
}

/// Decides a claim from the gift's status and unlock time, the ledger time,
/// and whether the proof verified.
pub fn claim_verdict(status: GiftStatus, unlock_time: u64, now: u64, proof_valid: bool) -> (r: Result<(), Error>)
    ensures
        r == claim_outcome(status, unlock_time, now, proof_valid),
{
    if status != GiftStatus::Pending {
        Err(Error::InvalidStatus)
    } else if now < unlock_time {
        Err(Error::TimeLockActive)
    } else if !proof_valid {
        Err(Error::InvalidProof)
    } else {
        Ok(())
    }
}

impl TimeLockContract {
    /// Outcome of settling gift `gift_id` at `now`, when the upstream oracle
    /// would answer `quote`, the path would settle at `actual_rate`, and
    /// `available_liquidity` can be paid out.
    pub open spec fn withdraw_outcome(
        &self,
        gift_id: u64,
        now: u64,
        quote: i128,
        actual_rate: i128,
        available_liquidity: i128,
    ) -> Result<(), Error> {
        match self.gift(gift_id) {
            None => Err(Error::NotFound),
            Some(g) => if g.status != GiftStatus::Claimed {
                Err(Error::InvalidStatus)
            } else if g.amount > available_liquidity {
                Err(Error::InsufficientLiquidity)
            } else {
                match self.oracle_outcome(now, quote) {
                    Err(e) => Err(e),
                    Ok(rate) => match slippage_outcome(self.slippage_config, rate, actual_rate) {
                        Err(e) => Err(e),
                        Ok(_) => if !settlement_fits(g.amount as int, actual_rate as int) {
                            Err(Error::InvalidExchangeRate)
                        } else {
                            Ok(())
                        },
                    },
                }
            },
        }
    }

    /// Whether settling gift `gift_id` gets as far as asking for a rate.
    pub open spec fn withdraw_reaches_oracle(&self, gift_id: u64, available_liquidity: i128) -> bool {
        self.gift(gift_id) matches Some(g) && g.status == GiftStatus::Claimed && g.amount <= available_liquidity
    }

    /// The gift stored under `gift_id`.
    pub fn get_gift(&self, gift_id: u64) -> (r: Option<&Gift>)
        requires
            self.wf(),
        ensures
            r == (match self.gift(gift_id) {
                Some(g) => Some(&g),
                None => None::<&Gift>,
            }),
    {
        match self.gift_index(gift_id) {
            Some(i) => Some(&self.gifts[i]),
            None => None,
        }
    }

    /// The slot of gift `gift_id` in the gift table.
    fn gift_index(&self, gift_id: u64) -> (r: Option<usize>)
        requires
            self.wf(),
        ensures
            r is Some <==> self.gift(gift_id) is Some,
            r matches Some(i) ==> i == gift_id - 1 && i < self.gifts@.len(),
    {
        let len = self.gifts.len();
        if gift_id == 0 || gift_id - 1 >= len as u64 {
            None
        } else {
            Some((gift_id - 1) as usize)
        }
    }

    /// Locks `amount` for the holder of `recipient_proof_hash` until
    /// `unlock_time`, and returns the new gift's id.
    pub fn create_gift(&mut self, sender: Address, amount: i128, unlock_time: u64, recipient_proof_hash: String) -> (r: Result<u64, Error>)
        requires
            old(self).wf(),
            old(self).next_gift_id < u64::MAX,
        ensures
            final(self).wf(),
            amount <= 0 ==> r == Err::<u64, Error>(Error::InvalidAmount) && *final(self) == *old(self),
            amount > 0 ==> {
                &&& r == Ok::<u64, Error>(old(self).next_gift_id)
                &&& final(self).next_gift_id == old(self).next_gift_id + 1
                &&& final(self).gifts@ == old(self).gifts@.push(
                    (Gift {
                        id: old(self).next_gift_id,
                        sender,
                        amount,
                        unlock_time,
                        recipient_proof_hash,
                        status: GiftStatus::Pending,
                        claimant: None,
                    }),
                )
                &&& final(self).same_settings(old(self))
                &&& final(self).price_cache == old(self).price_cache
                &&& final(self).events@ == old(self).events@
            },
    {
        if amount <= 0 {
            return Err(Error::InvalidAmount);
        }
        let id = self.next_gift_id;
        self.gifts.push(
            Gift {
                id,
                sender,
                amount,
                unlock_time,
                recipient_proof_hash,
                status: GiftStatus::Pending,
                claimant: None,
            },
        );
        self.next_gift_id = id + 1;
        Ok(id)
    }

    /// Claims gift `gift_id` for `claimant` at ledger time `now`. The gift
    /// must be pending and unlocked, and `proof` must be the oracle key's
    /// signature of the claimant's XDR followed by the recipient hash's XDR.
    pub fn claim_gift(&mut self, claimant: Address, gift_id: u64, proof: &[u8; 64], now: u64) -> (r: Result<(), Error>)
        requires
            old(self).wf(),
        ensures
            final(self).wf(),
            r == (match old(self).gift(gift_id) {
                None => Err(Error::NotFound),
                Some(g) => claim_outcome(
                    g.status,
                    g.unlock_time,
                    now,
                    proof_accepted(old(self).oracle_auth_key, claimant, g.recipient_proof_hash@, proof@),
                ),
            }),
            r is Err ==> *final(self) == *old(self),
            r is Ok ==> {
                &&& final(self).gifts@ == old(self).gifts@.update(
                    gift_id - 1,
                    claimed(old(self).gift(gift_id)->Some_0, claimant),
                )
                &&& *final(self) == (TimeLockContract { gifts: final(self).gifts, ..*old(self) })
            },
    {
        let idx = match self.gift_index(gift_id) {
            Some(i) => i,
            None => return Err(Error::NotFound),
        };
        let g = &self.gifts[idx];
        let pre = claim_verdict(g.status, g.unlock_time, now, true);
        if pre.is_err() {
            return pre;
        }
        let valid = match (&self.oracle_auth_key, build_claim_payload(&claimant, &g.recipient_proof_hash)) {
            (Some(key), Some(payload)) => verify_ed25519(key, &payload, proof),
            _ => false,
        };
        let verdict = claim_verdict(g.status, g.unlock_time, now, valid);
        if verdict.is_err() {
            return verdict;
        }
        let ghost before = self.gifts@;
        let mut updated = self.gifts.remove(idx);
        updated.status = GiftStatus::Claimed;
        updated.claimant = Some(claimant);
        self.gifts.insert(idx, updated);
        proof {
            assert(self.gifts@ =~= before.update(idx as int, claimed(before[idx as int], claimant)));
            assert forall|i: int| 0 <= i < self.gifts@.len() implies #[trigger] crate::contract::gift_wf(self.gifts@[i], i) by {
                if i != idx {
                    assert(self.gifts@[i] == before[i]);
                }
            }
        }
        Ok(())
    }

    /// Settles claimed gift `gift_id` at ledger time `now`: checks liquidity,
    /// prices the pair through the oracle cache (the upstream oracle would
    /// answer `quote`), bounds the slippage of the path's `actual_rate`, then
    /// marks the gift withdrawn and records the settlement.
    pub fn withdraw_to_bank(
        &mut self,
        gift_id: u64,
        memo: String,
        destination: Address,
        now: u64,
        quote: i128,
        actual_rate: i128,
        available_liquidity: i128,
    ) -> (r: Result<(), Error>)
        requires
            old(self).wf(),
        ensures
            final(self).wf(),
            r == old(self).withdraw_outcome(gift_id, now, quote, actual_rate, available_liquidity),
            final(self).same_settings(old(self)),
            final(self).next_gift_id == old(self).next_gift_id,
            r is Err ==> final(self).gifts@ == old(self).gifts@,
            r is Ok ==> final(self).gifts@ == old(self).gifts@.update(
                gift_id - 1,
                withdrawn(old(self).gift(gift_id)->Some_0),
            ),
            !old(self).withdraw_reaches_oracle(gift_id, available_liquidity) ==> {
                &&& final(self).price_cache == old(self).price_cache
                &&& final(self).events@ == old(self).events@
            },
            old(self).withdraw_reaches_oracle(gift_id, available_liquidity) ==> {
                let n = old(self).events@.len();
                let refreshed = old(self).oracle_refreshes(now, quote);
                let k = if refreshed { n + 1 } else { n };
                let g = old(self).gift(gift_id)->Some_0;
                &&& final(self).price_cache == (if refreshed {
                    Some((crate::types::PriceCache { rate: quote, timestamp: now }))
                } else {
                    old(self).price_cache
                })
                &&& final(self).events@.len() >= k
                &&& final(self).events@.subrange(0, n as int) == old(self).events@
                &&& refreshed ==> is_rate_query(final(self).events@[n as int], now, quote)
                &&& r == Err::<(), Error>(Error::SlippageExceeded) ==> final(self).events@.len() == k + 1
                    && final(self).events@[k as int] == Event::SlippageCheckFailed(
                    (crate::events::SlippageCheckFailed {
                        expected_rate: old(self).oracle_outcome(now, quote)->Ok_0,
                        actual_rate,
                        threshold: old(self).slippage_config->Some_0.max_slippage_bps,
                    }),
                )
                &&& r is Ok ==> is_settlement_record(
                    final(self).events@.subrange(k as int, final(self).events@.len() as int),
                    gift_id,
                    g.amount,
                    actual_rate,
                    destination,
                    memo@,
                )
                &&& (r is Err && r != Err::<(), Error>(Error::SlippageExceeded)) ==> final(self).events@.len() == k
            },
    {
        let idx = match self.gift_index(gift_id) {
            Some(i) => i,
            None => return Err(Error::NotFound),
        };
        assert(crate::contract::gift_wf(self.gifts@[idx as int], idx as int));
        let status = self.gifts[idx].status;
        let amount = self.gifts[idx].amount;
        if status != GiftStatus::Claimed {
            return Err(Error::InvalidStatus);
        }
        if amount > available_liquidity {
            return Err(Error::InsufficientLiquidity);
        }
        let ghost s0 = *self;
        let pair = "USDC/NGN".to_owned();
        let rate = self.check_exchange_rate(&pair, now, quote)?;
        let ghost s1 = *self;
        self.validate_slippage(rate, actual_rate)?;
        proof {
            // Within a tolerance of at most MAX_SLIPPAGE_BPS the settlement rate is positive.
            let b = rate as int;
            let m = self.slippage_config->Some_0.max_slippage_bps as int;
            let diff: int = if actual_rate >= rate { actual_rate - rate } else { rate - actual_rate };
            let x = BPS_DENOMINATOR * diff;
            vstd::arithmetic::div_mod::lemma_fundamental_div_mod(x, b);
            assert(x < (m + 1) * b) by (nonlinear_arith)
                requires
                    x == b * (x / b) + (x % b),
                    0 <= x % b < b,
                    x / b <= m,
            ;
            assert(actual_rate > 0) by (nonlinear_arith)
                requires
                    x < (m + 1) * b,
                    0 <= m <= 1000,
                    b > 0,
                    x == 10_000 * diff,
                    diff == (if actual_rate >= b { actual_rate - b } else { b - actual_rate }),
            ;
        }
        let fee = amount / FEE_DIVISOR;
        let net = amount - fee;
        assert(fee == settlement_fee(amount as int) && 0 < net <= amount) by (nonlinear_arith)
            requires
                amount > 0,
                fee == amount / FEE_DIVISOR,
                net == amount - fee,
        ;
        assert(net * actual_rate > 0) by (nonlinear_arith)
            requires
                net > 0,
                actual_rate > 0,
        ;
        let gross = match net.checked_mul(actual_rate) {
            Some(p) => p,
            None => return Err(Error::InvalidExchangeRate),
        };
        let value = gross / RATE_SCALE;
        let ghost before = self.gifts@;
        assert(crate::contract::gift_wf(before[idx as int], idx as int));
        let mut updated = self.gifts.remove(idx);
        updated.status = GiftStatus::Withdrawn;
        self.gifts.insert(idx, updated);
        proof {
            assert(self.gifts@ =~= before.update(idx as int, withdrawn(before[idx as int])));
            assert forall|i: int| 0 <= i < self.gifts@.len() implies #[trigger] crate::contract::gift_wf(self.gifts@[i], i) by {
                if i != idx {
                    assert(self.gifts@[i] == before[i]);
                }
            }
        }
        let ghost e0 = self.events@;
        self.events.push(
            Event::BankWithdrawalInitiated(BankWithdrawalInitiated { gift_id, amount_usdc: amount, expected_ngn: value }),
        );
        self.events.push(
            Event::PathPaymentExecuted(
                PathPaymentExecuted { usdc_sent: net, ngn_received: value, exchange_rate: actual_rate, path: Vec::new() },
            ),
        );
        self.events.push(
            Event::AnchorDepositSent(AnchorDepositSent { anchor_address: destination, ngn_amount: value, memo }),
        );
        self.events.push(Event::FeesCollected(FeesCollected { gift_id, fee_amount_usdc: fee }));
        proof {
            assert(self.events@.subrange(0, s0.events@.len() as int) =~= s0.events@);
        }
        Ok(())
    }
}

} // verus!
