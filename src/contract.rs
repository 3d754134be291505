use vstd::prelude::*;
use crate::events::{Event, OracleAddressUpdated, SlippageConfigUpdated};
use crate::oracle::default_oracle_config;
use crate::slippage::{default_slippage_config, rate_in_bounds, validate_slippage_bounds};
use crate::types::{
    Address, Error, Gift, GiftStatus, OracleConfig, PriceCache, SlippageConfig,
    DEFAULT_MAX_ORACLE_AGE, DEFAULT_SLIPPAGE_BPS, MAX_SLIPPAGE_BPS,
};

verus! {

/// The escrow's whole stored state. Gift `id` lives at index `id - 1` of
/// `gifts`, and `events` is the append-only audit trail.
pub struct TimeLockContract {
    pub admin: Option<Address>,
    pub oracle_auth_key: Option<[u8; 32]>,
    pub oracle_config: Option<OracleConfig>,
    pub slippage_config: Option<SlippageConfig>,
    pub next_gift_id: u64,
    pub gifts: Vec<Gift>,
    pub price_cache: Option<PriceCache>,
    pub events: Vec<Event>,
}

/// A stored gift is well formed when its id matches its slot, its amount is
/// positive, and it has a claimant exactly when it has left `Pending`.
pub open spec fn gift_wf(g: Gift, index: int) -> bool {
    &&& g.id == index + 1
    &&& g.amount > 0
    &&& (g.status == GiftStatus::Pending <==> g.claimant is None)
}

/// The records of the contract's store.
#[derive(Clone, Copy, Debug, PartialEq, Eq, Structural)]
pub enum DataKey {
    Admin,
    OracleAuthKey,
    OracleConfig,
    SlippageConfig,
    NextGiftId,
    Gift(u64),
    PriceCache,
}

/// `after` is `before` with one more event at its end.
pub open spec fn appended_one(before: Seq<Event>, after: Seq<Event>) -> bool {
    after.len() == before.len() + 1 && after.subrange(0, before.len() as int) == before
}

impl TimeLockContract {
    pub open spec fn wf(&self) -> bool {
        &&& self.next_gift_id == self.gifts@.len() + 1
        &&& forall|i: int| 0 <= i < self.gifts@.len() ==> #[trigger] gift_wf(self.gifts@[i], i)
        &&& (self.admin is Some <==> self.oracle_auth_key is Some)
        &&& (self.admin is Some <==> self.oracle_config is Some)
        &&& (self.admin is Some <==> self.slippage_config is Some)
        &&& (self.slippage_config matches Some(c) ==> c.max_slippage_bps <= MAX_SLIPPAGE_BPS && self.admin == Some(c.admin))
        &&& (self.price_cache matches Some(p) ==> rate_in_bounds(p.rate as int))
    }

    /// The gift stored under `id`, if any.
    pub open spec fn gift(&self, id: u64) -> Option<Gift> {
        if 1 <= id <= self.gifts@.len() {
            Some(self.gifts@[id - 1])
        } else {
            None
        }
    }

    /// Whether `caller` is the configured admin.
    pub open spec fn is_admin(&self, caller: Address) -> bool {
        self.admin matches Some(a) && a.view() == caller.view()
    }

    /// The admin, oracle key and both configurations agree.
    pub open spec fn same_settings(&self, other: &Self) -> bool {
        &&& self.admin == other.admin
        &&& self.oracle_auth_key == other.oracle_auth_key
        &&& self.oracle_config == other.oracle_config
        &&& self.slippage_config == other.slippage_config
    }

    /// The gift table agrees.
    pub open spec fn same_gifts(&self, other: &Self) -> bool {
        self.next_gift_id == other.next_gift_id && self.gifts@ == other.gifts@
    }

    /// Whether the store holds a record under `key`.
    pub open spec fn holds(&self, key: DataKey) -> bool {
        match key {
            DataKey::Admin => self.admin is Some,
            DataKey::OracleAuthKey => self.oracle_auth_key is Some,
            DataKey::OracleConfig => self.oracle_config is Some,
            DataKey::SlippageConfig => self.slippage_config is Some,
            DataKey::NextGiftId => true,
            DataKey::Gift(id) => self.gift(id) is Some,
            DataKey::PriceCache => self.price_cache is Some,
        }
    }

    /// Whether the store holds a record under `key`.
    pub fn has(&self, key: DataKey) -> (r: bool)
        requires
            self.wf(),
        ensures
            r == self.holds(key),
    {
        match key {
            DataKey::Admin => self.admin.is_some(),
            DataKey::OracleAuthKey => self.oracle_auth_key.is_some(),
            DataKey::OracleConfig => self.oracle_config.is_some(),
            DataKey::SlippageConfig => self.slippage_config.is_some(),
            DataKey::NextGiftId => true,
            DataKey::Gift(id) => id != 0 && id < self.next_gift_id,
            DataKey::PriceCache => self.price_cache.is_some(),
        }
    }

    /// Whether an admin has been set.
    pub fn has_admin(&self) -> (r: bool)
        ensures
            r == self.admin is Some,
    {
        self.admin.is_some()
    }

    /// The admin, if the contract is initialized.
    pub fn get_admin(&self) -> (r: Option<Address>)
        ensures
            r == self.admin,
    {
        self.admin
    }

    /// The public key that signs claim proofs, if the contract is initialized.
    pub fn get_oracle_auth_key(&self) -> (r: Option<[u8; 32]>)
        ensures
            r == self.oracle_auth_key,
    {
        self.oracle_auth_key
    }

    /// The oracle settings, if the contract is initialized.
    pub fn get_oracle_config(&self) -> (r: Option<OracleConfig>)
        ensures
            r == self.oracle_config,
    {
        self.oracle_config
    }

    /// The id the next gift will get.
    pub fn get_next_gift_id(&self) -> (r: u64)
        ensures
            r == self.next_gift_id,
    {
        self.next_gift_id
    }

    /// The cached oracle rate, if any.
    pub fn get_price_cache(&self) -> (r: Option<PriceCache>)
        ensures
            r == self.price_cache,
    {
        self.price_cache
    }

    /// An empty, uninitialized contract.
    pub fn new() -> (r: Self)
        ensures
            r.wf(),
            r.admin is None,
            r.gifts@.len() == 0,
            r.price_cache is None,
            r.events@.len() == 0,
    {
        TimeLockContract {
            admin: None,
            oracle_auth_key: None,
            oracle_config: None,
            slippage_config: None,
            next_gift_id: 1,
            gifts: Vec::new(),
            price_cache: None,
            events: Vec::new(),
        }
    }

    /// One-time setup of the admin, the key that signs claim proofs, and the
    /// oracle address, with default oracle and slippage settings.
    pub fn initialize(&mut self, admin: Address, oracle_auth_key: [u8; 32], oracle_address: Address) -> (r: Result<(), Error>)
        requires
            old(self).wf(),
        ensures
            final(self).wf(),
            old(self).admin is Some ==> r == Err::<(), Error>(Error::AlreadyInitialized) && *final(self) == *old(self),
            old(self).admin is None ==> {
                &&& r is Ok
                &&& final(self).admin == Some(admin)
                &&& final(self).oracle_auth_key == Some(oracle_auth_key)
                &&& final(self).oracle_config == Some(
                    (OracleConfig { oracle_address, max_oracle_age: DEFAULT_MAX_ORACLE_AGE, is_paused: false }),
                )
                &&& final(self).slippage_config == Some(
                    (SlippageConfig { max_slippage_bps: DEFAULT_SLIPPAGE_BPS, admin }),
                )
                &&& final(self).same_gifts(old(self))
                &&& final(self).price_cache == old(self).price_cache
                &&& final(self).events@ == old(self).events@
            },
    {
        if self.admin.is_some() {
            return Err(Error::AlreadyInitialized);
        }
        self.admin = Some(admin);
        self.oracle_auth_key = Some(oracle_auth_key);
        self.oracle_config = Some(default_oracle_config(oracle_address));
        self.slippage_config = Some(default_slippage_config(admin));
        Ok(())
    }

    /// The stored admin when `caller` is that admin.
    fn require_admin(&self, caller: &Address) -> (r: Result<Address, Error>)
        ensures
            r is Ok <==> self.is_admin(*caller),
            r is Err ==> r == Err::<Address, Error>(Error::Unauthorized),
            r matches Ok(a) ==> self.admin == Some(a),
    {
        match &self.admin {
            Some(a) => {
                if a.same_as(caller) {
                    Ok(*a)
                } else {
                    Err(Error::Unauthorized)
                }
            },
            None => Err(Error::Unauthorized),
        }
    }

    /// The current oracle settings.
    pub fn get_oracle_status(&self) -> (r: Result<OracleConfig, Error>)
        ensures
            r == (match self.oracle_config {
                Some(c) => Ok(c),
                None => Err(Error::Unauthorized),
            }),
    {
        match &self.oracle_config {
            Some(c) => Ok(*c),
            None => Err(Error::Unauthorized),
        }
    }

    /// The current slippage settings.
    pub fn get_slippage_config(&self) -> (r: Result<SlippageConfig, Error>)
        ensures
            r == (match self.slippage_config {
                Some(c) => Ok(c),
                None => Err(Error::Unauthorized),
            }),
    {
        match &self.slippage_config {
            Some(c) => Ok(*c),
            None => Err(Error::Unauthorized),
        }
    }

    /// Points price queries at a new oracle (admin only) and records the change.
    pub fn set_oracle_address(&mut self, caller: &Address, new_oracle_address: Address) -> (r: Result<(), Error>)
        requires
            old(self).wf(),
        ensures
            final(self).wf(),
            !old(self).is_admin(*caller) ==> r == Err::<(), Error>(Error::Unauthorized) && *final(self) == *old(self),
            old(self).is_admin(*caller) ==> {
                let c = old(self).oracle_config->Some_0;
                &&& r is Ok
                &&& final(self).oracle_config == Some((OracleConfig { oracle_address: new_oracle_address, ..c }))
                &&& final(self).admin == old(self).admin
                &&& final(self).oracle_auth_key == old(self).oracle_auth_key
                &&& final(self).slippage_config == old(self).slippage_config
                &&& final(self).same_gifts(old(self))
                &&& final(self).price_cache == old(self).price_cache
                &&& final(self).events@ == old(self).events@.push(
                    Event::OracleAddressUpdated(
                        (OracleAddressUpdated { old_address: c.oracle_address, new_address: new_oracle_address }),
                    ),
                )
            },
    {
        self.require_admin(caller)?;
        let mut c = self.oracle_config.unwrap();
        let old_address = c.oracle_address;
        c.oracle_address = new_oracle_address;
        self.oracle_config = Some(c);
        self.events.push(
            Event::OracleAddressUpdated(OracleAddressUpdated { old_address, new_address: new_oracle_address }),
        );
        Ok(())
    }

    /// Sets how long a cached oracle rate may be served (admin only).
    pub fn set_max_oracle_age(&mut self, caller: &Address, max_age: u64) -> (r: Result<(), Error>)
        requires
            old(self).wf(),
        ensures
            final(self).wf(),
            !old(self).is_admin(*caller) ==> r == Err::<(), Error>(Error::Unauthorized) && *final(self) == *old(self),
            old(self).is_admin(*caller) ==> {
                let c = old(self).oracle_config->Some_0;
                &&& r is Ok
                &&& final(self).oracle_config == Some((OracleConfig { max_oracle_age: max_age, ..c }))
                &&& *final(self) == (TimeLockContract { oracle_config: final(self).oracle_config, ..*old(self) })
            },
    {
        self.require_admin(caller)?;
        let mut c = self.oracle_config.unwrap();
        c.max_oracle_age = max_age;
        self.oracle_config = Some(c);
        Ok(())
    }

    /// Suspends exchange-rate queries (admin only).
    pub fn pause_oracle_checks(&mut self, caller: &Address) -> (r: Result<(), Error>)
        requires
            old(self).wf(),
        ensures
            final(self).wf(),
            !old(self).is_admin(*caller) ==> r == Err::<(), Error>(Error::Unauthorized) && *final(self) == *old(self),
            old(self).is_admin(*caller) ==> {
                let c = old(self).oracle_config->Some_0;
                &&& r is Ok
                &&& final(self).oracle_config == Some((OracleConfig { is_paused: true, ..c }))
                &&& *final(self) == (TimeLockContract { oracle_config: final(self).oracle_config, ..*old(self) })
            },
    {
        self.require_admin(caller)?;
        let mut c = self.oracle_config.unwrap();
        c.is_paused = true;
        self.oracle_config = Some(c);
        Ok(())
    }

    /// Resumes exchange-rate queries (admin only).
    pub fn resume_oracle_checks(&mut self, caller: &Address) -> (r: Result<(), Error>)
        requires
            old(self).wf(),
        ensures
            final(self).wf(),
            !old(self).is_admin(*caller) ==> r == Err::<(), Error>(Error::Unauthorized) && *final(self) == *old(self),
            old(self).is_admin(*caller) ==> {
                let c = old(self).oracle_config->Some_0;
                &&& r is Ok
                &&& final(self).oracle_config == Some((OracleConfig { is_paused: false, ..c }))
                &&& *final(self) == (TimeLockContract { oracle_config: final(self).oracle_config, ..*old(self) })
            },
    {
        self.require_admin(caller)?;
        let mut c = self.oracle_config.unwrap();
        c.is_paused = false;
        self.oracle_config = Some(c);
        Ok(())
    }

    /// Sets the slippage tolerance (admin only), after checking it against
    /// `MAX_SLIPPAGE_BPS`, and records the change.
    pub fn set_max_slippage(&mut self, caller: &Address, slippage_bps: u32) -> (r: Result<(), Error>)
        requires
            old(self).wf(),
        ensures
            final(self).wf(),
            slippage_bps > MAX_SLIPPAGE_BPS ==> r == Err::<(), Error>(Error::InvalidSlippageConfig) && *final(self) == *old(self),
            slippage_bps <= MAX_SLIPPAGE_BPS && !old(self).is_admin(*caller) ==> r == Err::<(), Error>(Error::Unauthorized)
                && *final(self) == *old(self),
            slippage_bps <= MAX_SLIPPAGE_BPS && old(self).is_admin(*caller) ==> {
                let c = old(self).slippage_config->Some_0;
                &&& r is Ok
                &&& final(self).slippage_config == Some((SlippageConfig { max_slippage_bps: slippage_bps, ..c }))
                &&& final(self).admin == old(self).admin
                &&& final(self).oracle_auth_key == old(self).oracle_auth_key
                &&& final(self).oracle_config == old(self).oracle_config
                &&& final(self).same_gifts(old(self))
                &&& final(self).price_cache == old(self).price_cache
                &&& final(self).events@ == old(self).events@.push(
                    Event::SlippageConfigUpdated(
                        (SlippageConfigUpdated {
                            old_slippage: c.max_slippage_bps,
                            new_slippage: slippage_bps,
                            admin: old(self).admin->Some_0,
                        }),
                    ),
                )
            },
    {
        validate_slippage_bounds(slippage_bps)?;
        let admin = self.require_admin(caller)?;
        let mut c = self.slippage_config.unwrap();
        let old_slippage = c.max_slippage_bps;
        c.max_slippage_bps = slippage_bps;
        self.slippage_config = Some(c);
        self.events.push(
            Event::SlippageConfigUpdated(SlippageConfigUpdated { old_slippage, new_slippage: slippage_bps, admin }),
        );
        Ok(())
    }
}

} // verus!
