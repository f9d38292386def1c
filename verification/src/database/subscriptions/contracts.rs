use vstd::prelude::*;

use crate::database::subscriptions::SubscriptionStatus;

verus! {

/// The terms of a standing payment.
#[derive(Debug, Clone, PartialEq)]
pub struct Model {
    pub id: i64,
    pub payee_wallet_id: i32,
    pub amount: u64,
    pub cron_expr: String,
    pub status: SubscriptionStatus,
    pub created_at: i64,
    pub updated_at: i64,
}

#[derive(Debug, Clone, Copy, PartialEq, Eq, Structural)]
pub enum ContractStatus {
    Proposed,
    Active,
    Rejected,
    Superseded,
}

} // verus!
