use vstd::prelude::*;

use crate::database::subscriptions::contracts::ContractStatus;

verus! {

/// New terms proposed for a standing payment.
#[derive(Debug, Clone, PartialEq)]
pub struct Model {
    pub id: i64,
    pub offer_id: i64,
    pub proposed_amount: u64,
    pub proposed_cron_expr: Option<String>,
    pub payer_accepted: bool,
    pub payer_accepted_at: Option<i64>,
    pub status: ContractStatus,
    pub applied_at: Option<i64>,
    pub created_at: i64,
    pub updated_at: i64,
}

} // verus!
