use vstd::prelude::*;

verus! {

/// Fixed-point scale of exchange rates: `RATE_SCALE` stands for 1.0.
pub const RATE_SCALE: i128 = 1_000_000;

/// Largest exchange rate accepted from an oracle or a settlement path.
pub const MAX_RATE: i128 = 1_000_000_000_000_000;

/// Basis points in a whole.
pub const BPS_DENOMINATOR: i128 = 10_000;

/// Upper bound on the slippage tolerance an admin may configure.
pub const MAX_SLIPPAGE_BPS: u32 = 1_000;

/// Slippage tolerance set at initialization.
pub const DEFAULT_SLIPPAGE_BPS: u32 = 100;

/// Oracle cache lifetime, in ledger seconds, set at initialization.
pub const DEFAULT_MAX_ORACLE_AGE: u64 = 300;

/// The settlement fee is `amount / FEE_DIVISOR` (0.25%, rounded down).
pub const FEE_DIVISOR: i128 = 400;

/// Error kinds reported by the contract.
#[derive(Clone, Copy, Debug, PartialEq, Eq, Structural)]
pub enum Error {
    Unauthorized,
    AlreadyInitialized,
    NotFound,
    InvalidStatus,
    TimeLockActive,
    InvalidProof,
    InvalidExchangeRate,
    OraclePaused,
    SlippageExceeded,
    InvalidSlippageConfig,
    InsufficientLiquidity,
    InvalidAmount,
}

/// What an address names on the ledger.
#[derive(Clone, Copy, Debug, PartialEq, Eq, Structural)]
pub enum AddressKind {
    /// An account, named by its ed25519 public key.
    Account,
    /// A contract, named by its 32-byte hash.
    Contract,
}

/// A ledger identity.
#[derive(Clone, Copy, Debug, PartialEq, Eq)]
pub struct Address {
    pub kind: AddressKind,
    pub key: [u8; 32],
}

impl Address {
    pub open spec fn view(&self) -> (AddressKind, Seq<u8>) {
        (self.kind, self.key@)
    }

    /// Whether two addresses name the same identity.
    pub fn same_as(&self, other: &Address) -> (r: bool)
        ensures
            r == (self.view() == other.view()),
    {
        if self.kind != other.kind {
            return false;
        }
        let mut i: usize = 0;
        while i < 32
            invariant
                i <= 32,
                self.key@.len() == 32,
                other.key@.len() == 32,
                forall|j: int| 0 <= j < i ==> self.key@[j] == other.key@[j],
            decreases 32 - i,
        {
            if self.key[i] != other.key[i] {
                return false;
            }
            i = i + 1;
        }
        proof {
            assert(self.key@ =~= other.key@);
        }
        true
    }
}

/// Lifecycle of a gift: `Pending` to `Claimed` to `Withdrawn`.
#[derive(Clone, Copy, Debug, PartialEq, Eq, Structural)]
pub enum GiftStatus {
    Pending,
    Claimed,
    Withdrawn,
}

/// A time-locked payment addressed to the holder of a hashed identifier.
#[derive(Clone, Debug, PartialEq, Eq)]
pub struct Gift {
    pub id: u64,
    pub sender: Address,
    pub amount: i128,
    pub unlock_time: u64,
    pub recipient_proof_hash: String,
    pub status: GiftStatus,
    pub claimant: Option<Address>,
}

/// The last rate obtained from the oracle and the ledger time it was obtained.
#[derive(Clone, Copy, Debug, PartialEq, Eq, Structural)]
pub struct PriceCache {
    pub rate: i128,
    pub timestamp: u64,
}

/// Oracle settings.
#[derive(Clone, Copy, Debug, PartialEq, Eq)]
pub struct OracleConfig {
    pub oracle_address: Address,
    pub max_oracle_age: u64,
    pub is_paused: bool,
}

/// Slippage settings.
#[derive(Clone, Copy, Debug, PartialEq, Eq)]
pub struct SlippageConfig {
    pub max_slippage_bps: u32,
    pub admin: Address,
}

} // verus!
