use vstd::prelude::*;
use crate::types::Address;

verus! {

/// A fresh rate was obtained from the oracle and cached.
#[derive(Clone, Debug, PartialEq, Eq)]
pub struct OracleRateQueried {
    pub timestamp: u64,
    pub rate: i128,
    pub source: String,
}

/// The admin changed the slippage tolerance.
#[derive(Clone, Copy, Debug, PartialEq, Eq)]
pub struct SlippageConfigUpdated {
    pub old_slippage: u32,
    pub new_slippage: u32,
    pub admin: Address,
}

/// A settlement was refused because its rate strayed too far from the oracle rate.
#[derive(Clone, Copy, Debug, PartialEq, Eq, Structural)]
pub struct SlippageCheckFailed {
    pub expected_rate: i128,
    pub actual_rate: i128,
    pub threshold: u32,
}

/// The admin changed the oracle address.
#[derive(Clone, Copy, Debug, PartialEq, Eq)]
pub struct OracleAddressUpdated {
    pub old_address: Address,
    pub new_address: Address,
}

/// A claimed gift is being settled.
#[derive(Clone, Copy, Debug, PartialEq, Eq, Structural)]
pub struct BankWithdrawalInitiated {
    pub gift_id: u64,
    pub amount_usdc: i128,
    pub expected_ngn: i128,
}

/// The settlement path was executed.
#[derive(Clone, Debug, PartialEq, Eq)]
pub struct PathPaymentExecuted {
    pub usdc_sent: i128,
    pub ngn_received: i128,
    pub exchange_rate: i128,
    pub path: Vec<Address>,
}

/// The settled amount was handed to the off-ramp anchor.
#[derive(Clone, Debug, PartialEq, Eq)]
pub struct AnchorDepositSent {
    pub anchor_address: Address,
    pub ngn_amount: i128,
    pub memo: String,
}

/// The settlement fee was retained.
#[derive(Clone, Copy, Debug, PartialEq, Eq, Structural)]
pub struct FeesCollected {
    pub gift_id: u64,
    pub fee_amount_usdc: i128,
}

/// An entry of the contract's audit trail.
#[derive(Clone, Debug, PartialEq, Eq)]
pub enum Event {
    OracleRateQueried(OracleRateQueried),
    SlippageConfigUpdated(SlippageConfigUpdated),
    SlippageCheckFailed(SlippageCheckFailed),
    OracleAddressUpdated(OracleAddressUpdated),
    BankWithdrawalInitiated(BankWithdrawalInitiated),
    PathPaymentExecuted(PathPaymentExecuted),
    AnchorDepositSent(AnchorDepositSent),
    FeesCollected(FeesCollected),
}

} // verus!
