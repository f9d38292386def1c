use vstd::prelude::*;

use vstd::string::StringExecFns;

use crate::database::ledger::{money_supply, Ledger};
use crate::database::wallet::VerifyResponse;
use crate::models::krist::auth::AddressAuthenticationResponse;
use crate::models::krist::misc::{MoneySupplyResponse, WalletVersionResponse, WALLET_VERSION};
use crate::websockets::utils::make_url::{make_motd_urls, spec_insecure, spec_motd_urls};

verus! {

/// Answers a key check: the address is told only if the key is right.
pub fn login_address(result: &VerifyResponse) -> (r: AddressAuthenticationResponse)
    ensures
        r.ok,
        r.authed == result.authed,
        r.address.deep_view() == if result.authed {
            Some(result.model.address@)
        } else {
            None
        },
{
    AddressAuthenticationResponse {
        address: if result.authed {
            Some(result.model.address.clone())
        } else {
            None
        },
        authed: result.authed,
        ok: true,
    }
}

/// The addresses that the message of the day gives when the server does not
/// know its own.
pub const DEFAULT_PUBLIC_URL: &'static str = "https://kromer.reconnected.cc";

pub const DEFAULT_PUBLIC_WS_URL: &'static str = "https://kromer.reconnected.cc/api/krist/ws";

/// The two addresses that the message of the day gives, as
/// `(public_url, public_ws_url)`: the server's own, or the defaults if it does
/// not know them.
pub fn get_motd(force_insecure: Option<&str>, public_url: Option<&str>) -> (r: (String, String))
    ensures
        match public_url {
            Some(url) => {
                let urls = spec_motd_urls(spec_insecure(force_insecure), url@);
                r.0@ == urls[0] && r.1@ == urls[1]
            },
            None => r.0@ == DEFAULT_PUBLIC_URL@ && r.1@ == DEFAULT_PUBLIC_WS_URL@,
        },
{
    match make_motd_urls(force_insecure, public_url) {
        Ok(urls) => {
            assert(urls.deep_view().len() == 2);
            assert(urls@.len() == 2);
            assert(urls.deep_view()[0] == urls[0]@);
            assert(urls.deep_view()[1] == urls[1]@);
            (urls[0].clone(), urls[1].clone())
        },
        Err(_) => (String::from_str(DEFAULT_PUBLIC_URL), String::from_str(DEFAULT_PUBLIC_WS_URL)),
    }
}

/// The answer to a question for the wallet version.
pub fn get_walletversion() -> (r: WalletVersionResponse)
    ensures
        r.ok,
        r.wallet_version == WALLET_VERSION,
{
    WalletVersionResponse { ok: true, wallet_version: WALLET_VERSION }
}

/// The money in circulation, counted over the wallets of `ledger`: the sum
/// of all balances but the welfare wallet's. `None` if the sum is too large
/// to be counted.
pub fn get_kromer_supply(ledger: &Ledger) -> (r: Option<MoneySupplyResponse>)
    ensures
        match r {
            Some(response) => response.ok && response.money_supply == money_supply(
                ledger@.wallets,
            ),
            None => money_supply(ledger@.wallets) > u64::MAX,
        },
{
    match ledger.money_supply() {
        Some(supply) => Some(MoneySupplyResponse { ok: true, money_supply: supply }),
        None => None,
    }
}

} // verus!
