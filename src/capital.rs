//! Enumerations and records of deposits and withdrawals.

use vstd::prelude::*;

verus! {

/// Where a deposit came from.
#[derive(Clone, Copy, Debug, PartialEq, Eq, Hash, Structural)]
pub enum DepositSource {
    Administrator,
    Solana,
    Ethereum,
    Bitcoin,
    Nuvei,
}

/// The state of a deposit.
#[derive(Clone, Copy, Debug, PartialEq, Eq, Hash, Structural)]
pub enum DepositStatus {
    Pending,
    Confirmed,
}

/// The state of a withdrawal.
#[derive(Clone, Copy, Debug, PartialEq, Eq, Hash, Structural)]
pub enum WithdrawalStatus {
    Pending,
    Confirmed,
    Verifying,
    Void,
}

/// The address to deposit to.
#[derive(Clone, Debug)]
pub struct DepositAddress {
    pub address: String,
}

} // verus!
