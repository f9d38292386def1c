use vstd::prelude::*;

verus! {

/// The version of the wallet format that the server speaks.
pub const WALLET_VERSION: u8 = 3;

#[derive(Debug, Clone, PartialEq, PartialOrd)]
pub struct WalletVersionResponse {
    pub ok: bool,
    pub wallet_version: u8,
}

/// The money in circulation.
#[derive(Debug, Clone, PartialEq, PartialOrd)]
pub struct MoneySupplyResponse {
    pub ok: bool,
    pub money_supply: u64,
}

/// The address that a private key derives.
#[derive(Debug, Clone, PartialEq, PartialOrd)]
pub struct PrivateKeyAddressResponse {
    pub ok: bool,
    pub address: String,
}

} // verus!
