// British people can fight me, I *will* be writing it as "canceled"

use vstd::prelude::*;

use crate::models::kromer::Patch;

verus! {

/// Whether a contract takes new subscribers, keeps the ones it has, or is over.
#[derive(Debug, Clone, Copy, PartialEq, Eq, Structural)]
pub enum ContractStatus {
    Open,
    Closed,
    Canceled,
}

/// Where a subscription stands.
#[derive(Debug, Clone, Copy, PartialEq, Eq, Structural)]
pub enum SubStatus {
    Active,
    Pending,
    Canceled,
}

/// What a wallet owner sends to offer a contract.
#[derive(Debug, Clone, PartialEq)]
pub struct ContractCreateRequest {
    pub title: String,
    pub description: Option<String>,
    pub price: i64,
    pub cron_expr: String,
    pub max_subscribers: Option<i32>,
    pub allow_list: Option<Vec<String>>,
}

/// A contract as the store holds it and as requests return it.
#[derive(Debug, Clone, PartialEq)]
pub struct ContractInfo {
    pub contract_id: i32,
    pub address: String,
    pub status: ContractStatus,
    pub title: String,
    pub description: Option<String>,
    pub price: i64,
    pub cron_expr: String,
    pub max_subscribers: Option<i32>,
    pub allow_list: Option<Vec<String>>,
    pub created_at: i64,
    pub updated_at: i64,
}

/// Mathematical content of a [`ContractInfo`].
pub ghost struct ContractView {
    pub contract_id: i32,
    pub address: Seq<char>,
    pub status: ContractStatus,
    pub title: Seq<char>,
    pub description: Option<Seq<char>>,
    pub price: i64,
    pub cron_expr: Seq<char>,
    pub max_subscribers: Option<i32>,
    pub allow_list: Option<Seq<Seq<char>>>,
    pub created_at: i64,
    pub updated_at: i64,
}

impl View for ContractInfo {
    type V = ContractView;

    open spec fn view(&self) -> ContractView {
        ContractView {
            contract_id: self.contract_id,
            address: self.address@,
            status: self.status,
            title: self.title@,
            description: self.description.deep_view(),
            price: self.price,
            cron_expr: self.cron_expr@,
            max_subscribers: self.max_subscribers,
            allow_list: self.allow_list.deep_view(),
            created_at: self.created_at,
            updated_at: self.updated_at,
        }
    }
}

/// A subscription as the store holds it.
#[derive(Debug, Clone, PartialEq)]
pub struct SubscriptionInfo {
    pub subscription_id: i32,
    pub contract_id: i32,
    pub address: String,
    pub status: SubStatus,
    /// The time the subscription will lapse at. Empty if no subscription is active.
    pub lapsed_at: Option<i64>,
    /// The time that the current term started at. If the subscription ends and then is
    /// restarted, this value will be reset.
    pub started_at: i64,
}

/// Mathematical content of a [`SubscriptionInfo`].
pub ghost struct SubscriptionView {
    pub subscription_id: i32,
    pub contract_id: i32,
    pub address: Seq<char>,
    pub status: SubStatus,
    pub lapsed_at: Option<i64>,
    pub started_at: i64,
}

impl View for SubscriptionInfo {
    type V = SubscriptionView;

    open spec fn view(&self) -> SubscriptionView {
        SubscriptionView {
            subscription_id: self.subscription_id,
            contract_id: self.contract_id,
            address: self.address@,
            status: self.status,
            lapsed_at: self.lapsed_at,
            started_at: self.started_at,
        }
    }
}

impl SubscriptionView {
    /// The subscription once it is canceled: nothing is scheduled any more.
    pub open spec fn canceled(self) -> SubscriptionView {
        SubscriptionView { status: SubStatus::Canceled, lapsed_at: None, ..self }
    }

    /// The subscription once its next lapse is set to `next`.
    pub open spec fn rescheduled(self, next: i64) -> SubscriptionView {
        SubscriptionView { lapsed_at: Some(next), ..self }
    }

    /// A subscription is canceled exactly when nothing is scheduled for it.
    pub open spec fn consistent(self) -> bool {
        (self.status == SubStatus::Canceled) <==> self.lapsed_at.is_none()
    }
}

/// Pagination params passed to the contract listing.
#[derive(Debug, Clone, PartialEq)]
pub struct ContractQueryParams {
    /// The maximum number of entries to return. Will be clamped between 0 and 500, defaulting
    /// to 50.
    pub limit: Option<i32>,
    /// The offset of the page, defaults to 0.
    pub offset: Option<i32>,
    /// Optional filter by address that owns the resource.
    pub address: Option<String>,
    /// Optional filter based on the resource's status.
    pub is_open: Option<bool>,
}

/// Pagination params used to list subscribers for a subscription.
#[derive(Debug, Clone, PartialEq)]
pub struct ListSubscribersParams {
    pub limit: Option<i32>,
    pub offset: Option<i32>,
    pub is_active: Option<bool>,
}

/// A partial update of a contract.
#[derive(Debug, Clone, PartialEq)]
pub struct UpdateContractRequest {
    pub title: Option<String>,
    pub description: Patch<String>,
    pub status: Option<ContractStatus>,
    pub price: Option<i64>,
    pub cron_expr: Option<String>,
    pub max_subscribers: Patch<i32>,
    pub allow_list: Patch<Vec<String>>,
}

impl UpdateContractRequest {
    /// Whether the request names no field to change. A request that only
    /// sets the status counts as empty.
    pub fn is_empty(&self) -> (r: bool)
        ensures
            r == (self.title.is_none() && self.description is Unset && self.price.is_none()
                && self.cron_expr.is_none() && self.max_subscribers is Unset
                && self.allow_list is Unset),
    {
        self.title.is_none() && self.description.is_none() && self.price.is_none()
            && self.cron_expr.is_none() && self.max_subscribers.is_none()
            && self.allow_list.is_none()
    }
}

} // verus!
