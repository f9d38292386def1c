use vstd::prelude::*;

use crate::clock::{spec_rfc3339, spec_time_text, time_text};
use crate::database::wallet;

verus! {

/// A page of wallets.
#[derive(Debug, Clone, PartialEq)]
pub struct AddressListResponse {
    pub ok: bool,
    pub count: usize,
    pub total: usize,
    pub addresses: Vec<AddressJson>,
}

/// One wallet.
#[derive(Debug, Clone, PartialEq)]
pub struct AddressResponse {
    pub ok: bool,
    pub address: AddressJson,
}

/// A freshly created wallet: its key and the address derived from it.
#[derive(Debug, Clone, PartialEq, PartialOrd)]
pub struct AddressCreationResponse {
    pub private_key: String,
    pub address: String,
}

/// A wallet as the Krist-compatible endpoints show it.
#[derive(Debug, Clone, PartialEq, PartialOrd)]
pub struct AddressJson {
    pub address: String,
    pub balance: u64,
    pub total_in: u64,
    pub total_out: u64,
    pub first_seen: String,
    pub names: Option<i64>,
}

/// The outcome of checking a private key against the wallet it derives.
#[derive(Debug, Clone, PartialEq, PartialOrd)]
pub struct VerifyResponse {
    pub authed: bool,
    pub address: String,
}

/// Options of the address lookup.
#[derive(Debug, Clone, PartialEq, PartialOrd, Default)]
pub struct AddressGetQuery {
    pub fetch_names: Option<bool>,
}

impl AddressJson {
    /// Shows a wallet, with the number of names it owns where that was
    /// counted.
    pub fn from_model(wallet: wallet::Model, names: Option<i64>) -> (r: Self)
        ensures
            r.address@ == wallet.address@,
            r.balance == wallet.balance,
            r.total_in == wallet.total_in,
            r.total_out == wallet.total_out,
            r.first_seen@ == spec_time_text(spec_rfc3339(wallet.created_at)),
            r.names == names,
    {
        AddressJson {
            first_seen: time_text(wallet.created_at),
            address: wallet.address,
            balance: wallet.balance,
            total_in: wallet.total_in,
            total_out: wallet.total_out,
            names,
        }
    }
}

impl AddressListResponse {
    /// A page of `addresses` out of `total`.
    pub fn new(addresses: Vec<AddressJson>, total: usize) -> (r: Self)
        ensures
            r.ok,
            r.count == addresses.len(),
            r.total == total,
            r.addresses == addresses,
    {
        AddressListResponse { ok: true, count: addresses.len(), total, addresses }
    }
}

} // verus!
