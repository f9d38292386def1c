//! All kromer wallet related models

use vstd::prelude::*;

use crate::database::wallet;

verus! {

/// A wallet as the native API shows it.
#[derive(Debug, Clone, PartialEq)]
pub struct Wallet {
    pub id: i32,
    pub address: String,
    pub balance: u64,
    pub created_at: i64,
    pub locked: bool,
    pub total_in: u64,
    pub total_out: u64,
    pub names: Option<i64>,
}

impl Wallet {
    /// Shows a wallet, with the number of names it owns where that was
    /// counted.
    pub fn from_model(value: wallet::Model, names: Option<i64>) -> (r: Self)
        ensures
            r.id == value.id,
            r.address == value.address,
            r.balance == value.balance,
            r.created_at == value.created_at,
            r.locked == value.locked,
            r.total_in == value.total_in,
            r.total_out == value.total_out,
            r.names == names,
    {
        Wallet {
            id: value.id,
            address: value.address,
            balance: value.balance,
            created_at: value.created_at,
            locked: value.locked,
            total_in: value.total_in,
            total_out: value.total_out,
            names,
        }
    }
}

} // verus!
