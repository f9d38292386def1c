use vstd::prelude::*;

use crate::models::krist::addresses::AddressJson;

verus! {

/// The outcome of looking several addresses up at once: how many were
/// found, how many were not, and the wallets that were found. The wallets
/// are in the order in which they were found; each is listed under its own
/// address.
#[derive(Debug, Clone, PartialEq)]
pub struct LookupResponse {
    pub ok: bool,
    pub found: usize,
    pub not_found: usize,
    pub addresses: Vec<AddressJson>,
}

/// Options of the lookup.
#[derive(Debug, Clone, PartialEq)]
pub struct QueryParameters {
    pub fetch_names: Option<bool>,
}

impl LookupResponse {
    /// The response for a lookup of `asked` addresses that found the wallets
    /// `found`.
    pub fn new(asked: usize, found: Vec<AddressJson>) -> (r: Self)
        ensures
            r.ok,
            r.found == found.len(),
            r.not_found == if asked >= found.len() {
                asked - found.len()
            } else {
                0
            },
            r.addresses == found,
    {
        let not_found = if asked >= found.len() {
            asked - found.len()
        } else {
            0
        };
        LookupResponse { ok: true, found: found.len(), not_found, addresses: found }
    }
}

} // verus!
