//! The ledger primitive: balances, and the one way money moves between them.
//!
//! A transfer debits one wallet, credits another and appends a row to the
//! transaction log, all or nothing. The embedding server runs it inside a
//! store transaction, on the rows it has locked, and writes the outcome back.

use vstd::prelude::*;

use crate::database::transaction::{
    CreateView, Model as Transaction, TransactionCreateData, TransactionView,
};
use crate::database::wallet::{Model as Wallet, WalletView};
use crate::text::str_eq;

verus! {

/// The wallet that start-up funds are paid from. It is left out when the
/// money in circulation is counted.
pub const WELFARE_ADDRESS: &'static str = "serverwelf";

/// Why a transfer did not happen.
#[derive(Debug, Clone, Copy, PartialEq, Eq, Structural)]
pub enum TransferError {
    /// No wallet has the sender's address.
    SenderNotFound,
    /// No wallet has the recipient's address.
    RecipientNotFound,
    /// The sender's balance does not cover the amount.
    InsufficientFunds,
    /// The store cannot hold the outcome: a running total or the row count
    /// would leave its range.
    StoreError,
}

/// Mathematical content of a [`Ledger`].
pub ghost struct LedgerView {
    pub wallets: Seq<WalletView>,
    /// The rows that were logged through this ledger.
    pub transactions: Seq<TransactionView>,
    /// How many rows the log held before them.
    pub logged: nat,
}

/// The position of the first wallet at or after `from` that has `address`.
pub open spec fn find_from(wallets: Seq<WalletView>, address: Seq<char>, from: int) -> Option<int>
    decreases wallets.len() - from,
{
    if from < 0 || from >= wallets.len() {
        None
    } else if wallets[from].address == address {
        Some(from)
    } else {
        find_from(wallets, address, from + 1)
    }
}

/// The sum of all balances.
pub open spec fn total_balance(wallets: Seq<WalletView>) -> int
    decreases wallets.len(),
{
    if wallets.len() == 0 {
        0
    } else {
        total_balance(wallets.drop_last()) + wallets.last().balance
    }
}

/// The money in circulation: the sum of all balances but the welfare
/// wallet's.
pub open spec fn money_supply(wallets: Seq<WalletView>) -> int
    decreases wallets.len(),
{
    if wallets.len() == 0 {
        0
    } else if wallets.last().address == WELFARE_ADDRESS@ {
        money_supply(wallets.drop_last())
    } else {
        money_supply(wallets.drop_last()) + wallets.last().balance
    }
}

impl LedgerView {
    /// No two wallets share an address, and the log's rows can be numbered.
    pub open spec fn wf(self) -> bool {
        &&& forall|i: int, j: int|
            0 <= i < self.wallets.len() && 0 <= j < self.wallets.len() && i != j
                ==> self.wallets[i].address != self.wallets[j].address
        &&& self.logged + self.transactions.len() <= i32::MAX
    }

    /// The position of the wallet with `address`.
    pub open spec fn find(self, address: Seq<char>) -> Option<int> {
        find_from(self.wallets, address, 0)
    }

    /// The number the next row of the log gets.
    pub open spec fn next_id(self) -> int {
        self.logged as int + self.transactions.len() + 1
    }

    /// The ledger after a transfer, or why there is none.
    ///
    /// Both wallets are looked up; the sender is debited and the recipient
    /// credited by the same amount; one row is appended to the log. A
    /// transfer that fails leaves no trace.
    pub open spec fn transfer(self, data: CreateView, now: i64) -> Result<
        LedgerView,
        TransferError,
    > {
        match (self.find(data.from), self.find(data.to)) {
            (None, _) => Err(TransferError::SenderNotFound),
            (Some(_), None) => Err(TransferError::RecipientNotFound),
            (Some(s), Some(r)) => {
                if data.amount > self.wallets[s].balance {
                    Err(TransferError::InsufficientFunds)
                } else {
                    let debited = self.wallets.update(s, self.wallets[s].debited(data.amount));
                    let credited = debited.update(r, debited[r].credited(data.amount));
                    if self.wallets[s].can_debit(data.amount) && debited[r].can_credit(
                        data.amount,
                    ) && self.next_id() <= i32::MAX {
                        Ok(
                            LedgerView {
                                wallets: credited,
                                transactions: self.transactions.push(
                                    data.row(self.next_id() as i32, now),
                                ),
                                logged: self.logged,
                            },
                        )
                    } else {
                        Err(TransferError::StoreError)
                    }
                }
            },
        }
    }

    /// The ledger after a row is logged without any balance changing.
    pub open spec fn record(self, data: CreateView, now: i64) -> Result<LedgerView, TransferError> {
        if self.next_id() <= i32::MAX {
            Ok(
                LedgerView {
                    wallets: self.wallets,
                    transactions: self.transactions.push(data.bare_row(self.next_id() as i32, now)),
                    logged: self.logged,
                },
            )
        } else {
            Err(TransferError::StoreError)
        }
    }

    /// The ledger after a run of transfer requests, each made at its own
    /// time; a request that fails changes nothing.
    pub open spec fn transfer_all(self, requests: Seq<(CreateView, i64)>) -> LedgerView
        decreases requests.len(),
    {
        if requests.len() == 0 {
            self
        } else {
            let before = self.transfer_all(requests.drop_last());
            match before.transfer(requests.last().0, requests.last().1) {
                Ok(after) => after,
                Err(_) => before,
            }
        }
    }
}

/// Where `find_from` looks and what it finds.
pub proof fn lemma_find_from(wallets: Seq<WalletView>, address: Seq<char>, from: int)
    requires
        0 <= from,
    ensures
        match find_from(wallets, address, from) {
            Some(i) => from <= i < wallets.len() && wallets[i].address == address && forall|j: int|
                from <= j < i ==> wallets[j].address != address,
            None => forall|j: int| from <= j < wallets.len() ==> wallets[j].address != address,
        },
    decreases wallets.len() - from,
{
    if from < wallets.len() && wallets[from].address != address {
        lemma_find_from(wallets, address, from + 1);
    }
}

/// Replacing one wallet moves the total by the difference of the balances.
pub proof fn lemma_total_update(wallets: Seq<WalletView>, i: int, w: WalletView)
    requires
        0 <= i < wallets.len(),
    ensures
        total_balance(wallets.update(i, w)) == total_balance(wallets) - wallets[i].balance
            + w.balance,
    decreases wallets.len(),
{
    let updated = wallets.update(i, w);
    if i == wallets.len() - 1 {
        assert(updated.drop_last() == wallets.drop_last());
    } else {
        assert(updated.drop_last() == wallets.drop_last().update(i, w));
        lemma_total_update(wallets.drop_last(), i, w);
    }
}

/// Replacing one wallet by one with the same address moves the money in
/// circulation by the difference of the balances, unless it is the welfare
/// wallet, which does not count.
pub proof fn lemma_supply_update(wallets: Seq<WalletView>, i: int, w: WalletView)
    requires
        0 <= i < wallets.len(),
        w.address == wallets[i].address,
    ensures
        money_supply(wallets.update(i, w)) == if w.address == WELFARE_ADDRESS@ {
            money_supply(wallets)
        } else {
            money_supply(wallets) - wallets[i].balance + w.balance
        },
    decreases wallets.len(),
{
    let updated = wallets.update(i, w);
    if i == wallets.len() - 1 {
        assert(updated.drop_last() == wallets.drop_last());
    } else {
        assert(updated.drop_last() == wallets.drop_last().update(i, w));
        lemma_supply_update(wallets.drop_last(), i, w);
    }
}

/// The money in circulation is at least what the first `k` wallets hold of it.
pub proof fn lemma_supply_grows(wallets: Seq<WalletView>, k: int)
    requires
        0 <= k <= wallets.len(),
    ensures
        money_supply(wallets) >= money_supply(wallets.take(k)) >= 0,
    decreases wallets.len(),
{
    if k == wallets.len() {
        assert(wallets.take(k) == wallets);
        if wallets.len() > 0 {
            lemma_supply_grows(wallets.drop_last(), k - 1);
            assert(wallets.drop_last().take(k - 1) == wallets.drop_last());
        }
    } else {
        assert(wallets.drop_last().take(k) == wallets.take(k));
        lemma_supply_grows(wallets.drop_last(), k);
    }
}

/// Conservation, one transfer at a time. A transfer that succeeds keeps the
/// sum of all balances; it was covered by the sender's balance, so no balance
/// passes below zero on the way; it keeps the ledger well formed; and it
/// keeps the money in circulation unless the welfare wallet is a party.
pub proof fn lemma_transfer_conserves(ledger: LedgerView, data: CreateView, now: i64)
    requires
        ledger.wf(),
    ensures
        match ledger.transfer(data, now) {
            Ok(after) => {
                &&& after.wf()
                &&& after.wallets.len() == ledger.wallets.len()
                &&& total_balance(after.wallets) == total_balance(ledger.wallets)
                &&& data.amount <= ledger.wallets[ledger.find(data.from).unwrap()].balance
                &&& forall|i: int|
                    0 <= i < after.wallets.len() ==> #[trigger] after.wallets[i].address
                        == ledger.wallets[i].address
                &&& (data.from != WELFARE_ADDRESS@ && data.to != WELFARE_ADDRESS@) ==> money_supply(
                    after.wallets,
                ) == money_supply(ledger.wallets)
            },
            Err(_) => true,
        },
{
    lemma_find_from(ledger.wallets, data.from, 0);
    lemma_find_from(ledger.wallets, data.to, 0);
    if let Ok(after) = ledger.transfer(data, now) {
        let s = ledger.find(data.from).unwrap();
        let r = ledger.find(data.to).unwrap();
        let debited = ledger.wallets.update(s, ledger.wallets[s].debited(data.amount));
        lemma_total_update(ledger.wallets, s, ledger.wallets[s].debited(data.amount));
        lemma_total_update(debited, r, debited[r].credited(data.amount));
        lemma_supply_update(ledger.wallets, s, ledger.wallets[s].debited(data.amount));
        lemma_supply_update(debited, r, debited[r].credited(data.amount));
    }
}

/// Conservation. Whatever transfers are asked for, in whatever order, the sum
/// of all balances stays what it was, and the ledger stays well formed.
pub proof fn lemma_transfers_conserve(ledger: LedgerView, requests: Seq<(CreateView, i64)>)
    requires
        ledger.wf(),
    ensures
        ledger.transfer_all(requests).wf(),
        total_balance(ledger.transfer_all(requests).wallets) == total_balance(ledger.wallets),
    decreases requests.len(),
{
    if requests.len() > 0 {
        lemma_transfers_conserve(ledger, requests.drop_last());
        lemma_transfer_conserves(
            ledger.transfer_all(requests.drop_last()),
            requests.last().0,
            requests.last().1,
        );
    }
}

/// Wallets and the log of what moved between them.
#[derive(Debug)]
pub struct Ledger {
    wallets: Vec<Wallet>,
    transactions: Vec<Transaction>,
    logged: usize,
}

impl View for Ledger {
    type V = LedgerView;

    closed spec fn view(&self) -> LedgerView {
        LedgerView {
            wallets: self.wallets@.map_values(|w: Wallet| w@),
            transactions: self.transactions@.map_values(|t: Transaction| t@),
            logged: self.logged as nat,
        }
    }
}

impl Ledger {
    /// Whether the ledger is well formed: see [`LedgerView::wf`].
    pub open spec fn wf(&self) -> bool {
        self@.wf()
    }

    /// A ledger without wallets or transactions.
    pub fn new() -> (r: Self)
        ensures
            r.wf(),
            r@.wallets.len() == 0,
            r@.transactions.len() == 0,
            r@.logged == 0,
    {
        Ledger { wallets: Vec::new(), transactions: Vec::new(), logged: 0 }
    }

    /// A ledger without wallets that continues a log whose last row has the
    /// id `last_id`: the rows logged through it are numbered from the next
    /// id on. An id below zero counts as zero.
    pub fn continuing(last_id: i32) -> (r: Self)
        ensures
            r.wf(),
            r@.wallets.len() == 0,
            r@.transactions.len() == 0,
            r@.logged == if last_id < 0 {
                0
            } else {
                last_id as int
            },
    {
        let logged: usize = if last_id < 0 {
            0
        } else {
            last_id as usize
        };
        Ledger { wallets: Vec::new(), transactions: Vec::new(), logged }
    }

    /// The position of the wallet with `address`.
    pub fn find(&self, address: &str) -> (r: Option<usize>)
        ensures
            match r {
                Some(i) => self@.find(address@) == Some(i as int) && i < self@.wallets.len(),
                None => self@.find(address@).is_none(),
            },
    {
        let mut i: usize = 0;
        while i < self.wallets.len()
            invariant
                i <= self.wallets.len(),
                self@.find(address@) == find_from(self@.wallets, address@, i as int),
            decreases self.wallets.len() - i,
        {
            if str_eq(self.wallets[i].address.as_str(), address) {
                return Some(i);
            }
            i += 1;
        }
        None
    }

    /// Adds a wallet, unless one with its address exists; the result tells
    /// whether it was added.
    pub fn insert_wallet(&mut self, wallet: Wallet) -> (added: bool)
        requires
            old(self).wf(),
        ensures
            final(self).wf(),
            added == old(self)@.find(wallet@.address).is_none(),
            added ==> final(self)@.wallets == old(self)@.wallets.push(wallet@),
            !added ==> final(self)@.wallets == old(self)@.wallets,
            final(self)@.transactions == old(self)@.transactions,
            final(self)@.logged == old(self)@.logged,
    {
        proof {
            lemma_find_from(self@.wallets, wallet@.address, 0);
        }
        match self.find(wallet.address.as_str()) {
            Some(_) => false,
            None => {
                self.wallets.push(wallet);
                assert(self@.wallets =~= old(self)@.wallets.push(wallet@));
                true
            },
        }
    }

    /// A copy of the wallet with `address`.
    pub fn wallet(&self, address: &str) -> (r: Option<Wallet>)
        ensures
            match r {
                Some(w) => self@.find(address@).is_some() && w@ == self@.wallets[self@.find(
                    address@,
                ).unwrap()],
                None => self@.find(address@).is_none(),
            },
    {
        match self.find(address) {
            Some(i) => Some(self.wallets[i].duplicate()),
            None => None,
        }
    }

    /// The balance of the wallet with `address`.
    pub fn balance_of(&self, address: &str) -> (r: Option<u64>)
        ensures
            match r {
                Some(b) => self@.find(address@).is_some() && b == self@.wallets[self@.find(
                    address@,
                ).unwrap()].balance,
                None => self@.find(address@).is_none(),
            },
    {
        match self.find(address) {
            Some(i) => Some(self.wallets[i].balance),
            None => None,
        }
    }

    /// The money in circulation: the sum of all balances but the welfare
    /// wallet's; `None` if the sum is too large to be counted.
    pub fn money_supply(&self) -> (r: Option<u64>)
        ensures
            match r {
                Some(supply) => supply == money_supply(self@.wallets),
                None => money_supply(self@.wallets) > u64::MAX,
            },
    {
        let ghost rows = self@.wallets;
        let mut sum: u64 = 0;
        let mut i: usize = 0;
        while i < self.wallets.len()
            invariant
                i <= self.wallets.len(),
                rows == self@.wallets,
                rows.len() == self.wallets.len(),
                sum == money_supply(rows.take(i as int)),
            decreases self.wallets.len() - i,
        {
            proof {
                assert(rows.take(i + 1).drop_last() == rows.take(i as int));
                assert(rows.take(i + 1).last() == self.wallets[i as int]@);
            }
            if !str_eq(self.wallets[i].address.as_str(), WELFARE_ADDRESS) {
                let balance = self.wallets[i].balance;
                if sum > u64::MAX - balance {
                    proof {
                        lemma_supply_grows(rows, i + 1);
                    }
                    return None;
                }
                sum = sum + balance;
            }
            i += 1;
        }
        assert(rows.take(self.wallets.len() as int) == rows);
        Some(sum)
    }

    /// How many rows the log holds.
    pub fn transaction_count(&self) -> (r: usize)
        ensures
            r == self@.transactions.len(),
    {
        self.transactions.len()
    }

    /// A copy of the log's row at position `index`.
    pub fn transaction(&self, index: usize) -> (r: Option<Transaction>)
        ensures
            match r {
                Some(t) => index < self@.transactions.len() && t@ == self@.transactions[index as int],
                None => index >= self@.transactions.len(),
            },
    {
        if index < self.transactions.len() {
            Some(self.transactions[index].duplicate())
        } else {
            None
        }
    }

    /// A copy of the row that was logged through this ledger under `id`.
    pub fn transaction_by_id(&self, id: i32) -> (r: Option<Transaction>)
        requires
            self.wf(),
        ensures
            match r {
                Some(t) => 1 <= id - self@.logged <= self@.transactions.len() && t@
                    == self@.transactions[id - self@.logged - 1],
                None => !(1 <= id - self@.logged <= self@.transactions.len()),
            },
    {
        if id < 1 || (id as usize) <= self.logged {
            return None;
        }
        self.transaction(id as usize - self.logged - 1)
    }

    /// Moves `data.amount` from the wallet `data.from` to the wallet
    /// `data.to` and logs the move, stamped `now`. Returns the logged row.
    ///
    /// The transfer happens as a whole or not at all: on any error the
    /// ledger is what it was.
    pub fn transfer(&mut self, data: TransactionCreateData, now: i64) -> (r: Result<
        Transaction,
        TransferError,
    >)
        requires
            old(self).wf(),
        ensures
            final(self).wf(),
            match r {
                Ok(row) => old(self)@.transfer(data@, now) == Ok::<LedgerView, TransferError>(
                    final(self)@,
                ) && row@ == final(self)@.transactions.last(),
                Err(e) => old(self)@.transfer(data@, now) == Err::<LedgerView, TransferError>(e)
                    && final(self)@ == old(self)@,
            },
    {
        proof {
            lemma_transfer_conserves(self@, data@, now);
        }
        let s = match self.find(data.from.as_str()) {
            Some(s) => s,
            None => {
                return Err(TransferError::SenderNotFound);
            },
        };
        let r = match self.find(data.to.as_str()) {
            Some(r) => r,
            None => {
                return Err(TransferError::RecipientNotFound);
            },
        };
        let amount = data.amount;
        if amount > self.wallets[s].balance {
            return Err(TransferError::InsufficientFunds);
        }
        if self.transactions.len() >= i32::MAX as usize - self.logged {
            return Err(TransferError::StoreError);
        }
        let id = (self.logged + self.transactions.len() + 1) as i32;
        let mut sender = self.wallets[s].duplicate();
        if sender.total_out > u64::MAX - amount {
            return Err(TransferError::StoreError);
        }
        sender.balance = sender.balance - amount;
        sender.total_out = sender.total_out + amount;
        let mut recipient = if r == s {
            sender.duplicate()
        } else {
            self.wallets[r].duplicate()
        };
        if recipient.balance > u64::MAX - amount || recipient.total_in > u64::MAX - amount {
            return Err(TransferError::StoreError);
        }
        recipient.balance = recipient.balance + amount;
        recipient.total_in = recipient.total_in + amount;
        let ghost debited = old(self)@.wallets.update(
            s as int,
            old(self)@.wallets[s as int].debited(amount),
        );
        assert(sender@ == old(self)@.wallets[s as int].debited(amount));
        assert(recipient@ == debited[r as int].credited(amount));
        self.wallets.set(s, sender);
        self.wallets.set(r, recipient);
        let metadata = match data.metadata {
            Some(m) => m,
            None => String::new(),
        };
        let row = Transaction {
            id,
            amount,
            from: Some(data.from),
            to: data.to,
            metadata: Some(metadata),
            name: data.name,
            sent_metaname: data.sent_metaname,
            sent_name: data.sent_name,
            transaction_type: data.transaction_type,
            date: now,
        };
        let copy = row.duplicate();
        self.transactions.push(row);
        proof {
            let expected = old(self)@.transfer(data@, now).unwrap();
            assert(self@.wallets =~= expected.wallets);
            assert(self@.transactions =~= expected.transactions);
        }
        Ok(copy)
    }

    /// Logs a transaction stamped `now` without touching any balance, for
    /// callers that keep the books themselves. Returns the logged row.
    pub fn record(&mut self, data: TransactionCreateData, now: i64) -> (r: Result<
        Transaction,
        TransferError,
    >)
        requires
            old(self).wf(),
        ensures
            final(self).wf(),
            match r {
                Ok(row) => old(self)@.record(data@, now) == Ok::<LedgerView, TransferError>(
                    final(self)@,
                ) && row@ == final(self)@.transactions.last(),
                Err(e) => old(self)@.record(data@, now) == Err::<LedgerView, TransferError>(e)
                    && final(self)@ == old(self)@,
            },
    {
        if self.transactions.len() >= i32::MAX as usize - self.logged {
            return Err(TransferError::StoreError);
        }
        let id = (self.logged + self.transactions.len() + 1) as i32;
        let metadata = match data.metadata {
            Some(m) => m,
            None => String::new(),
        };
        let row = Transaction {
            id,
            amount: data.amount,
            from: Some(data.from),
            to: data.to,
            metadata: Some(metadata),
            name: data.name,
            sent_metaname: None,
            sent_name: None,
            transaction_type: data.transaction_type,
            date: now,
        };
        let copy = row.duplicate();
        self.transactions.push(row);
        proof {
            let expected = old(self)@.record(data@, now).unwrap();
            assert(self@.wallets =~= expected.wallets);
            assert(self@.transactions =~= expected.transactions);
        }
        Ok(copy)
    }
}

} // verus!
