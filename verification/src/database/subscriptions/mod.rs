pub mod contracts;
pub mod proposals;

use vstd::prelude::*;

verus! {

/// A standing payment between two wallets, under its current contract.
#[derive(Debug, Clone, PartialEq)]
pub struct Model {
    pub id: i32,
    pub payer_wallet_id: i32,
    pub payee_wallet_id: i32,
    pub current_contract_id: i64,
    pub next_run_at: Option<i64>,
    pub start_at: i64,
    pub status: SubscriptionStatus,
    pub run_count: i32,
    pub failure_policy: FailurePolicy,
    pub created_at: i64,
    pub updated_at: i64,
}

#[derive(Debug, Clone, Copy, PartialEq, Eq, Structural)]
pub enum SubscriptionStatus {
    Active,
    Paused,
    Cancelled,
}

#[derive(Debug, Clone, Copy, PartialEq, Eq, Structural)]
pub enum PaymentStatus {
    Pending,
    Success,
    Failed,
}

#[derive(Debug, Clone, Copy, PartialEq, Eq, Structural)]
pub enum FailurePolicy {
    Pause,
    Retry,
    Skip,
}

} // verus!
