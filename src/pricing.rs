use vstd::prelude::*;
use crate::contract::{appended_one, TimeLockContract};
use crate::events::{Event, OracleRateQueried, SlippageCheckFailed};
use crate::oracle::{cache_is_fresh, is_fresh};
use crate::slippage::{exceeds_tolerance, rate_in_bounds, slippage_exceeded, validate_rate_bounds};
use crate::types::{Error, PriceCache, SlippageConfig};

verus! {

/// Whether `e` records an oracle query answered with `rate` at `now`.
pub open spec fn is_rate_query(e: Event, now: u64, rate: i128) -> bool {
    e matches Event::OracleRateQueried(q) && q.timestamp == now && q.rate == rate && q.source@ == "oracle"@
}

/// Outcome of the slippage guard under `config`.
pub open spec fn slippage_outcome(config: Option<SlippageConfig>, oracle_rate: i128, actual_rate: i128) -> Result<(), Error> {
    match config {
        None => Err(Error::Unauthorized),
        Some(c) => if !rate_in_bounds(oracle_rate as int) {
            Err(Error::InvalidExchangeRate)
        } else if exceeds_tolerance(oracle_rate as int, actual_rate as int, c.max_slippage_bps as int) {
            Err(Error::SlippageExceeded)
        } else {
            Ok(())
        },
    }
}

impl TimeLockContract {
    /// Outcome of a rate query at `now`, when the upstream oracle would answer `quote`.
    pub open spec fn oracle_outcome(&self, now: u64, quote: i128) -> Result<i128, Error> {
        match self.oracle_config {
            None => Err(Error::Unauthorized),
            Some(c) => if c.is_paused {
                Err(Error::OraclePaused)
            } else if self.price_cache matches Some(p) && cache_is_fresh(p, now, c.max_oracle_age) {
                Ok(self.price_cache->Some_0.rate)
            } else if !rate_in_bounds(quote as int) {
                Err(Error::InvalidExchangeRate)
            } else {
                Ok(quote)
            },
        }
    }

    /// Whether a rate query at `now` asks the upstream oracle and accepts its `quote`.
    pub open spec fn oracle_refreshes(&self, now: u64, quote: i128) -> bool {
        &&& self.oracle_config matches Some(c)
        &&& !c.is_paused
        &&& !(self.price_cache matches Some(p) && cache_is_fresh(p, now, c.max_oracle_age))
        &&& rate_in_bounds(quote as int)
    }

    /// The exchange rate at ledger time `now`: the cached rate while it is
    /// fresh, else `quote`, the upstream oracle's answer, which is checked,
    /// cached with timestamp `now`, and recorded as an event.
    pub fn check_exchange_rate(&mut self, _currency_pair: &String, now: u64, quote: i128) -> (r: Result<i128, Error>)
        requires
            old(self).wf(),
        ensures
            final(self).wf(),
            r == old(self).oracle_outcome(now, quote),
            final(self).same_settings(old(self)),
            final(self).same_gifts(old(self)),
            old(self).oracle_refreshes(now, quote) ==> {
                &&& final(self).price_cache == Some((PriceCache { rate: quote, timestamp: now }))
                &&& appended_one(old(self).events@, final(self).events@)
                &&& is_rate_query(final(self).events@.last(), now, quote)
            },
            !old(self).oracle_refreshes(now, quote) ==> {
                &&& final(self).price_cache == old(self).price_cache
                &&& final(self).events@ == old(self).events@
            },
    {
        let c = match &self.oracle_config {
            Some(c) => *c,
            None => return Err(Error::Unauthorized),
        };
        if c.is_paused {
            return Err(Error::OraclePaused);
        }
        if let Some(p) = &self.price_cache {
            if is_fresh(p, now, c.max_oracle_age) {
                return Ok(p.rate);
            }
        }
        validate_rate_bounds(quote)?;
        self.price_cache = Some(PriceCache { rate: quote, timestamp: now });
        let source = "oracle".to_owned();
        let ghost before = self.events@;
        self.events.push(Event::OracleRateQueried(OracleRateQueried { timestamp: now, rate: quote, source }));
        proof {
            assert(self.events@.subrange(0, before.len() as int) =~= before);
        }
        Ok(quote)
    }

    /// Checks that settling at `actual_rate` stays within the configured
    /// tolerance of `oracle_rate`, which must itself be a sane rate; a breach
    /// is recorded as an event.
    pub fn validate_slippage(&mut self, oracle_rate: i128, actual_rate: i128) -> (r: Result<(), Error>)
        requires
            old(self).wf(),
        ensures
            final(self).wf(),
            r == slippage_outcome(old(self).slippage_config, oracle_rate, actual_rate),
            final(self).same_settings(old(self)),
            final(self).same_gifts(old(self)),
            final(self).price_cache == old(self).price_cache,
            r == Err::<(), Error>(Error::SlippageExceeded) ==> final(self).events@ == old(self).events@.push(
                Event::SlippageCheckFailed(
                    (SlippageCheckFailed {
                        expected_rate: oracle_rate,
                        actual_rate,
                        threshold: old(self).slippage_config->Some_0.max_slippage_bps,
                    }),
                ),
            ),
            r != Err::<(), Error>(Error::SlippageExceeded) ==> final(self).events@ == old(self).events@,
    {
        let c = match &self.slippage_config {
            Some(c) => *c,
            None => return Err(Error::Unauthorized),
        };
        validate_rate_bounds(oracle_rate)?;
        if slippage_exceeded(oracle_rate, actual_rate, c.max_slippage_bps) {
            self.events.push(
                Event::SlippageCheckFailed(
                    SlippageCheckFailed { expected_rate: oracle_rate, actual_rate, threshold: c.max_slippage_bps },
                ),
            );
            return Err(Error::SlippageExceeded);
        }
        Ok(())
    }
}

} // verus!
