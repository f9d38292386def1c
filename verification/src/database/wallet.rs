use vstd::prelude::*;

verus! {

/// A wallet row. Amounts are whole numbers of the currency's smallest unit,
/// so a balance below zero cannot be written down.
#[derive(Debug, Clone, PartialEq)]
pub struct Model {
    pub id: i32,
    pub address: String,
    pub balance: u64,
    pub created_at: i64,
    pub locked: bool,
    pub total_in: u64,
    pub total_out: u64,
}

/// Mathematical content of a wallet row.
pub ghost struct WalletView {
    pub id: i32,
    pub address: Seq<char>,
    pub balance: u64,
    pub created_at: i64,
    pub locked: bool,
    pub total_in: u64,
    pub total_out: u64,
}

impl View for Model {
    type V = WalletView;

    open spec fn view(&self) -> WalletView {
        WalletView {
            id: self.id,
            address: self.address@,
            balance: self.balance,
            created_at: self.created_at,
            locked: self.locked,
            total_in: self.total_in,
            total_out: self.total_out,
        }
    }
}

impl WalletView {
    /// The wallet after `amount` left it.
    pub open spec fn debited(self, amount: u64) -> WalletView {
        WalletView {
            balance: (self.balance - amount) as u64,
            total_out: (self.total_out + amount) as u64,
            ..self
        }
    }

    /// The wallet after `amount` reached it.
    pub open spec fn credited(self, amount: u64) -> WalletView {
        WalletView {
            balance: (self.balance + amount) as u64,
            total_in: (self.total_in + amount) as u64,
            ..self
        }
    }

    /// Whether `amount` can leave the wallet: the balance covers it and the
    /// running total still fits.
    pub open spec fn can_debit(self, amount: u64) -> bool {
        amount <= self.balance && self.total_out + amount <= u64::MAX
    }

    /// Whether `amount` can reach the wallet: balance and running total
    /// still fit.
    pub open spec fn can_credit(self, amount: u64) -> bool {
        self.balance + amount <= u64::MAX && self.total_in + amount <= u64::MAX
    }
}

impl Model {
    /// A new, empty wallet.
    pub fn new(id: i32, address: String, created_at: i64) -> (r: Self)
        ensures
            r@ == (WalletView {
                id,
                address: address@,
                balance: 0,
                created_at,
                locked: false,
                total_in: 0,
                total_out: 0,
            }),
    {
        Model { id, address, balance: 0, created_at, locked: false, total_in: 0, total_out: 0 }
    }

    /// An independent copy of the row.
    pub fn duplicate(&self) -> (r: Self)
        ensures
            r@ == self@,
    {
        Model {
            id: self.id,
            address: self.address.clone(),
            balance: self.balance,
            created_at: self.created_at,
            locked: self.locked,
            total_in: self.total_in,
            total_out: self.total_out,
        }
    }
}

/// What checking a private key against the store came to: the wallet the
/// key belongs to, and whether the key is the right one for it.
#[derive(Debug, Clone, PartialEq)]
pub struct VerifyResponse {
    pub authed: bool,
    pub model: Model,
}

} // verus!
