pub mod ledger;
pub mod name;
pub mod query;
pub mod subscriptions;
pub mod transaction;
pub mod wallet;
