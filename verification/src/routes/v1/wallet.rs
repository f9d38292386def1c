use vstd::prelude::*;

use crate::database::wallet;
use crate::models::kromer::wallets::Wallet as WalletResponse;

verus! {

/// Why a question about a player's wallets was refused.
#[derive(Debug, Clone, Copy, PartialEq, Eq, Structural)]
pub enum PlayerError {
    /// No player goes by the id or the name.
    NotFound,
}

/// What the wallets of a player are shown as.
pub open spec fn shown(owned: Seq<wallet::Model>) -> Seq<wallet::WalletView> {
    owned.map_values(|w: wallet::Model| w@)
}

/// Whether a shown wallet is the wallet `w`.
pub open spec fn shows(r: WalletResponse, w: wallet::WalletView) -> bool {
    &&& r.id == w.id
    &&& r.address@ == w.address
    &&& r.balance == w.balance
    &&& r.created_at == w.created_at
    &&& r.locked == w.locked
    &&& r.total_in == w.total_in
    &&& r.total_out == w.total_out
    &&& r.names.is_none()
}

/// Answers a question for the wallets of a player, where `owned` is what the
/// store holds for the player, and `None` if it holds no such player.
pub fn wallet_get(owned: Option<Vec<wallet::Model>>) -> (r: Result<
    Vec<WalletResponse>,
    PlayerError,
>)
    ensures
        match r {
            Ok(wallets) => owned.is_some() && wallets.len() == owned.unwrap().len() && forall|
                i: int,
            |
                0 <= i < wallets.len() ==> shows(#[trigger] wallets[i], owned.unwrap()[i]@),
            Err(e) => owned.is_none() && e == PlayerError::NotFound,
        },
{
    let owned_wallets = match owned {
        Some(wallets) => wallets,
        None => {
            return Err(PlayerError::NotFound);
        },
    };
    let mut sanitized: Vec<WalletResponse> = Vec::new();
    let mut i: usize = 0;
    while i < owned_wallets.len()
        invariant
            i <= owned_wallets.len(),
            sanitized.len() == i,
            forall|j: int| 0 <= j < i ==> shows(#[trigger] sanitized[j], owned_wallets[j]@),
        decreases owned_wallets.len() - i,
    {
        sanitized.push(WalletResponse::from_model(owned_wallets[i].duplicate(), None));
        i += 1;
    }
    Ok(sanitized)
}

/// The wallets of the player with an id: see [`wallet_get`].
pub fn wallet_get_by_uuid(owned: Option<Vec<wallet::Model>>) -> (r: Result<
    Vec<WalletResponse>,
    PlayerError,
>)
    ensures
        match r {
            Ok(wallets) => owned.is_some() && wallets.len() == owned.unwrap().len() && forall|
                i: int,
            |
                0 <= i < wallets.len() ==> shows(#[trigger] wallets[i], owned.unwrap()[i]@),
            Err(e) => owned.is_none() && e == PlayerError::NotFound,
        },
{
    wallet_get(owned)
}

/// The wallets of the player with a name: see [`wallet_get`].
pub fn wallet_get_by_name(owned: Option<Vec<wallet::Model>>) -> (r: Result<
    Vec<WalletResponse>,
    PlayerError,
>)
    ensures
        match r {
            Ok(wallets) => owned.is_some() && wallets.len() == owned.unwrap().len() && forall|
                i: int,
            |
                0 <= i < wallets.len() ==> shows(#[trigger] wallets[i], owned.unwrap()[i]@),
            Err(e) => owned.is_none() && e == PlayerError::NotFound,
        },
{
    wallet_get(owned)
}

} // verus!
