//! The subscription scheduler.
//!
//! Recurring contracts are advanced by one long-running task. This module
//! holds everything that task decides: how long to sleep, what a wake-up
//! means, which subscription is due, and what happens to it. The task
//! itself, with its timers and its store, belongs to the embedding server: it
//! feeds what it observed to [`advance`] and does what the answer says.
//!
//! ## Stored state
//!
//! The scheduler looks a minute ahead. If a subscription lapses within that
//! minute it sleeps until then and processes it; if none does it looks again
//! a minute later. Whenever a contract or a subscription changes, the
//! endpoint that changed it sends a signal and the scheduler looks again at
//! once.

use vstd::prelude::*;

use vstd::string::StringExecFns;

use crate::cron::{cron_next_after, next_occurrence};
use crate::database::ledger::{
    lemma_transfer_conserves, total_balance, Ledger, LedgerView, TransferError,
};
use crate::database::transaction::{CreateView, TransactionCreateData, TransactionType};
use crate::models::krist::websockets::{EventView, WebSocketEvent};
use crate::models::kromer::subs::{
    ContractInfo, ContractStatus, ContractView, SubStatus, SubscriptionInfo, SubscriptionView,
};
use crate::text::{int_text, push_int, str_eq};

verus! {

/// How many signals can wait for the scheduler at once.
pub const NOTIFY_CAPACITY: usize = 25;

/// How far ahead the scheduler looks for the next lapse, in milliseconds.
pub const FETCH_HORIZON: i64 = 60_000;

/// How long the scheduler sleeps when nothing is due, in milliseconds.
pub const SYNC_INTERVAL: u64 = 60_000;

/// How close a lapse must be for it to be processed, in milliseconds.
pub const PROCESS_HORIZON: i64 = 10_000;

/// How often a failed look at the store is tried again.
pub const FETCH_RETRIES: u32 = 5;

/// The wait before the first retry, in milliseconds.
pub const FETCH_RETRY_BASE: u64 = 10;

/// Unit signal that tells the scheduler that its backing state has changed.
#[derive(Debug, Clone, Copy, PartialEq, Eq, Structural)]
pub struct SubUpdateNofif;

/// The wait before retry number `retry` (counted from 0) of a failed look at
/// the store: 10 ms, doubled for each retry before it; `None` once the
/// retries are used up.
pub open spec fn spec_retry_delay(retry: u32) -> Option<u64> {
    if retry == 0 {
        Some(10u64)
    } else if retry == 1 {
        Some(20u64)
    } else if retry == 2 {
        Some(40u64)
    } else if retry == 3 {
        Some(80u64)
    } else if retry == 4 {
        Some(160u64)
    } else {
        None
    }
}

/// Each retry waits twice as long as the one before it.
pub proof fn lemma_retry_delay_doubles(retry: u32)
    requires
        retry + 1 < FETCH_RETRIES,
    ensures
        spec_retry_delay(retry).is_some(),
        spec_retry_delay((retry + 1) as u32) == Some((2 * spec_retry_delay(retry).unwrap()) as u64),
        spec_retry_delay(0) == Some(FETCH_RETRY_BASE),
        spec_retry_delay(FETCH_RETRIES).is_none(),
{
}

/// The wait before retry number `retry` of a failed look at the store.
pub fn retry_delay(retry: u32) -> (r: Option<u64>)
    ensures
        r == spec_retry_delay(retry),
{
    if retry >= FETCH_RETRIES {
        None
    } else {
        let mut delay: u64 = FETCH_RETRY_BASE;
        let mut i: u32 = 0;
        while i < retry
            invariant
                i <= retry,
                retry < FETCH_RETRIES,
                spec_retry_delay(i) == Some(delay),
            decreases retry - i,
        {
            delay = delay * 2;
            i += 1;
        }
        Some(delay)
    }
}

/// The signals that wait for the scheduler. There is room for
/// `NOTIFY_CAPACITY` of them; the scheduler takes all of them at once, so
/// that however many were sent, it wakes once. Once the queue is closed it
/// takes no more signals, and tells the scheduler so when nothing waits.
#[derive(Debug)]
pub struct SignalQueue {
    pending: usize,
    closed: bool,
}

/// Mathematical content of a [`SignalQueue`].
pub ghost struct QueueView {
    /// How many signals wait.
    pub pending: nat,
    /// Whether the queue was closed.
    pub closed: bool,
}

impl View for SignalQueue {
    type V = QueueView;

    closed spec fn view(&self) -> QueueView {
        QueueView { pending: self.pending as nat, closed: self.closed }
    }
}

/// What a wait on the queue comes to.
#[derive(Debug, Clone, Copy, PartialEq, Eq, Structural)]
pub enum Wake {
    /// Signals waited, and were all taken.
    Signaled,
    /// Nothing waited.
    Nothing,
    /// Nothing waited and nothing will: the queue is closed.
    Closed,
}

/// The queue after one more signal is sent: a queue that is full or closed
/// takes no more.
pub open spec fn spec_send(q: QueueView) -> QueueView {
    if !q.closed && q.pending < NOTIFY_CAPACITY {
        QueueView { pending: q.pending + 1, ..q }
    } else {
        q
    }
}

/// The queue after `n` signals are sent.
pub open spec fn spec_send_n(q: QueueView, n: nat) -> QueueView
    decreases n,
{
    if n == 0 {
        q
    } else {
        spec_send(spec_send_n(q, (n - 1) as nat))
    }
}

/// What a wait on the queue comes to, and the queue after it: a wait takes
/// everything that waits.
pub open spec fn spec_drain(q: QueueView) -> (Wake, QueueView) {
    if q.pending > 0 {
        (Wake::Signaled, QueueView { pending: 0, ..q })
    } else if q.closed {
        (Wake::Closed, q)
    } else {
        (Wake::Nothing, q)
    }
}

/// Signal coalescing. However many signals are sent to an open queue while
/// the scheduler sleeps, as long as there is at least one, the scheduler
/// wakes once: its wait finds signals and takes every one of them, and the
/// next wait finds nothing.
pub proof fn lemma_signals_coalesce(q: QueueView, n: nat)
    requires
        n >= 1,
        !q.closed,
    ensures
        !spec_send_n(q, n).closed,
        spec_send_n(q, n).pending >= 1,
        q.pending <= NOTIFY_CAPACITY ==> spec_send_n(q, n).pending <= NOTIFY_CAPACITY,
        spec_drain(spec_send_n(q, n)).0 == Wake::Signaled,
        spec_drain(spec_drain(spec_send_n(q, n)).1).0 == Wake::Nothing,
    decreases n,
{
    if n > 1 {
        lemma_signals_coalesce(q, (n - 1) as nat);
    } else {
        assert(spec_send_n(q, 0) == q);
    }
}

impl SignalQueue {
    /// An open queue in which nothing waits.
    pub fn new() -> (r: Self)
        ensures
            r@ == (QueueView { pending: 0, closed: false }),
    {
        SignalQueue { pending: 0, closed: false }
    }

    /// Sends one signal. A queue that is full or closed takes no more; the
    /// result tells whether the signal was taken. If the queue is open the
    /// scheduler will wake either way.
    pub fn send(&mut self, signal: SubUpdateNofif) -> (accepted: bool)
        ensures
            final(self)@ == spec_send(old(self)@),
            accepted == (!old(self)@.closed && old(self)@.pending < NOTIFY_CAPACITY),
    {
        if !self.closed && self.pending < NOTIFY_CAPACITY {
            self.pending = self.pending + 1;
            true
        } else {
            false
        }
    }

    /// Closes the queue: signals that wait stay, no more are taken.
    pub fn close(&mut self)
        ensures
            final(self)@ == (QueueView { closed: true, ..old(self)@ }),
    {
        self.closed = true;
    }

    /// Takes every waiting signal, and tells what was found.
    pub fn recv_drain_all(&mut self) -> (wake: Wake)
        ensures
            (wake, final(self)@) == spec_drain(old(self)@),
    {
        if self.pending > 0 {
            self.pending = 0;
            Wake::Signaled
        } else if self.closed {
            Wake::Closed
        } else {
            Wake::Nothing
        }
    }

    /// How many signals wait.
    pub fn pending(&self) -> (r: usize)
        ensures
            r == self@.pending,
    {
        self.pending
    }
}

/// Where the scheduler stands.
#[derive(Debug, Clone, Copy, PartialEq, Eq, Structural)]
pub enum ManagerState {
    /// It is looking at the store for the next lapse.
    Fetching,
    /// It sleeps; `lapse_pending` tells whether a lapse is what it waits for.
    Waiting { lapse_pending: bool },
    /// It is processing the lapsed subscription.
    Processing,
    /// Its signal channel was closed and it has stopped.
    Stopped,
}

/// What the scheduler observed.
#[derive(Debug, Clone, Copy, PartialEq, Eq, Structural)]
pub enum ManagerEvent {
    /// The look at the store came back at `now`, with the soonest lapse if
    /// there is one; a look that failed for good counts as nothing found.
    Fetched { next: Option<i64>, now: i64 },
    /// The sleep ran out.
    TimerFired,
    /// A signal arrived during the sleep.
    Signaled,
    /// The signal channel was closed.
    ChannelClosed,
    /// Processing the lapsed subscription is over, however it ended.
    Processed,
}

impl ManagerEvent {
    /// What a wait on the signal queue tells the scheduler, if anything.
    pub fn from_wake(wake: Wake) -> (r: Option<ManagerEvent>)
        ensures
            r == match wake {
                Wake::Signaled => Some(ManagerEvent::Signaled),
                Wake::Closed => Some(ManagerEvent::ChannelClosed),
                Wake::Nothing => None,
            },
    {
        match wake {
            Wake::Signaled => Some(ManagerEvent::Signaled),
            Wake::Closed => Some(ManagerEvent::ChannelClosed),
            Wake::Nothing => None,
        }
    }
}

/// What the scheduler does next.
#[derive(Debug, Clone, Copy, PartialEq, Eq, Structural)]
pub enum ManagerAction {
    /// Look at the store for the next lapse.
    Fetch,
    /// Sleep for `millis`, or until a signal arrives.
    Sleep { millis: u64 },
    /// Take every waiting signal, then look at the store.
    DrainAndFetch,
    /// Process the lapsed subscription.
    Process,
    /// Leave the loop.
    Stop,
    /// Nothing: the event does not belong to the state.
    Ignore,
}

/// How long to sleep at `now` for a lapse at `lapsed_at`: until then, and
/// not at all if it is past.
pub open spec fn spec_sleep_until(lapsed_at: i64, now: i64) -> u64 {
    if lapsed_at <= now {
        0u64
    } else {
        (lapsed_at - now) as u64
    }
}

/// The scheduler's loop as a transition function.
pub open spec fn spec_advance(state: ManagerState, event: ManagerEvent) -> (
    ManagerState,
    ManagerAction,
) {
    match (state, event) {
        (ManagerState::Stopped, _) => (ManagerState::Stopped, ManagerAction::Stop),
        (_, ManagerEvent::ChannelClosed) => (ManagerState::Stopped, ManagerAction::Stop),
        (ManagerState::Fetching, ManagerEvent::Fetched { next: Some(lapsed_at), now }) => (
            ManagerState::Waiting { lapse_pending: true },
            ManagerAction::Sleep { millis: spec_sleep_until(lapsed_at, now) },
        ),
        (ManagerState::Fetching, ManagerEvent::Fetched { next: None, now }) => (
            ManagerState::Waiting { lapse_pending: false },
            ManagerAction::Sleep { millis: SYNC_INTERVAL },
        ),
        (ManagerState::Waiting { lapse_pending }, ManagerEvent::TimerFired) => if lapse_pending {
            (ManagerState::Processing, ManagerAction::Process)
        } else {
            (ManagerState::Fetching, ManagerAction::Fetch)
        },
        (ManagerState::Waiting { .. }, ManagerEvent::Signaled) => (
            ManagerState::Fetching,
            ManagerAction::DrainAndFetch,
        ),
        (ManagerState::Processing, ManagerEvent::Processed) => (
            ManagerState::Fetching,
            ManagerAction::Fetch,
        ),
        _ => (state, ManagerAction::Ignore),
    }
}

/// A lapse is processed only when the timer that waited for it fired: a
/// signal never starts processing, it only makes the scheduler look again.
pub proof fn lemma_only_the_timer_processes(state: ManagerState, event: ManagerEvent)
    ensures
        spec_advance(state, event).1 == ManagerAction::Process <==> (state
            == ManagerState::Waiting { lapse_pending: true } && event == ManagerEvent::TimerFired),
        event == ManagerEvent::Signaled && state is Waiting ==> spec_advance(state, event)
            == (ManagerState::Fetching, ManagerAction::DrainAndFetch),
        event == ManagerEvent::ChannelClosed ==> spec_advance(state, event).0
            == ManagerState::Stopped,
{
}

/// What a scheduler starts with: the queue that its signals are sent to,
/// the state it is in, and its first action.
pub fn new_sub_manager() -> (r: (SignalQueue, ManagerState, ManagerAction))
    ensures
        r.0@ == (QueueView { pending: 0, closed: false }),
        r.1 == ManagerState::Fetching,
        r.2 == ManagerAction::Fetch,
{
    (SignalQueue::new(), ManagerState::Fetching, ManagerAction::Fetch)
}

/// One turn of the scheduler's loop: from where it stands and what it
/// observed to where it stands next and what it does.
pub fn advance(state: ManagerState, event: ManagerEvent) -> (r: (ManagerState, ManagerAction))
    ensures
        r == spec_advance(state, event),
{
    match state {
        ManagerState::Stopped => (ManagerState::Stopped, ManagerAction::Stop),
        ManagerState::Fetching => match event {
            ManagerEvent::ChannelClosed => (ManagerState::Stopped, ManagerAction::Stop),
            ManagerEvent::Fetched { next: Some(lapsed_at), now } => {
                let millis: u64 = if lapsed_at <= now {
                    0
                } else {
                    (lapsed_at as i128 - now as i128) as u64
                };
                (ManagerState::Waiting { lapse_pending: true }, ManagerAction::Sleep { millis })
            },
            ManagerEvent::Fetched { next: None, now } => (
                ManagerState::Waiting { lapse_pending: false },
                ManagerAction::Sleep { millis: SYNC_INTERVAL },
            ),
            _ => (state, ManagerAction::Ignore),
        },
        ManagerState::Waiting { lapse_pending } => match event {
            ManagerEvent::ChannelClosed => (ManagerState::Stopped, ManagerAction::Stop),
            ManagerEvent::TimerFired => if lapse_pending {
                (ManagerState::Processing, ManagerAction::Process)
            } else {
                (ManagerState::Fetching, ManagerAction::Fetch)
            },
            ManagerEvent::Signaled => (ManagerState::Fetching, ManagerAction::DrainAndFetch),
            _ => (state, ManagerAction::Ignore),
        },
        ManagerState::Processing => match event {
            ManagerEvent::ChannelClosed => (ManagerState::Stopped, ManagerAction::Stop),
            ManagerEvent::Processed => (ManagerState::Fetching, ManagerAction::Fetch),
            _ => (state, ManagerAction::Ignore),
        },
    }
}

/// Why a lapsed subscription could not be processed.
#[derive(Debug, Clone, Copy, PartialEq, Eq, Structural)]
pub enum ProcessLapsedError {
    /// There was no lapsed subscription to process.
    NoneLapsed,
    /// The store failed, or returned something that cannot be read.
    DbError,
    /// The stored state is not what the scheduler relies on.
    Desync,
    /// The allow list changed and the payer is no longer on it.
    Unauthorized,
    /// The payer did not have enough funds to renew.
    InsufficientFunds,
}

impl ProcessLapsedError {
    /// A sentence for the log.
    pub fn message(&self) -> (r: String)
        ensures
            r@ == match *self {
                ProcessLapsedError::NoneLapsed =>
                    "Attempted to call when there were no lapsed subscriptions"@,
                ProcessLapsedError::DbError => "The store could not complete the request"@,
                ProcessLapsedError::Desync => "Expected DB state did not match reality"@,
                ProcessLapsedError::Unauthorized =>
                    "Allowed users field changed, user is no longer able to subscribe to this subscription"@,
                ProcessLapsedError::InsufficientFunds =>
                    "Contractee did not have enough funds to renew subscription"@,
            },
    {
        match self {
            ProcessLapsedError::NoneLapsed => String::from_str(
                "Attempted to call when there were no lapsed subscriptions",
            ),
            ProcessLapsedError::DbError => String::from_str(
                "The store could not complete the request",
            ),
            ProcessLapsedError::Desync => String::from_str(
                "Expected DB state did not match reality",
            ),
            ProcessLapsedError::Unauthorized => String::from_str(
                "Allowed users field changed, user is no longer able to subscribe to this subscription",
            ),
            ProcessLapsedError::InsufficientFunds => String::from_str(
                "Contractee did not have enough funds to renew subscription",
            ),
        }
    }
}

/// What became of a lapsed subscription.
#[derive(Debug, Clone, Copy, PartialEq, Eq, Structural)]
pub struct LapsedRes {
    pub contract_id: i32,
    pub subscription_id: i32,
    pub status: LapsedStatus,
}

#[derive(Debug, Clone, Copy, PartialEq, Eq, Structural)]
pub enum LapsedStatus {
    Canceled,
    Renewed { next_lapsed: i64, transction_id: i32 },
}

/// What is done with a lapsed subscription.
#[derive(Debug, Clone, Copy, PartialEq, Eq, Structural)]
pub enum LapseAction {
    CancelSub,
    ContinueSub,
}

/// A lapsed subscription is renewed if it is active and its contract has not
/// been canceled, and is canceled otherwise.
pub open spec fn spec_lapse_action(contract: ContractStatus, sub: SubStatus) -> LapseAction {
    match contract {
        ContractStatus::Canceled => LapseAction::CancelSub,
        ContractStatus::Open | ContractStatus::Closed => match sub {
            SubStatus::Active => LapseAction::ContinueSub,
            SubStatus::Pending | SubStatus::Canceled => LapseAction::CancelSub,
        },
    }
}

/// Decides what is done with a lapsed subscription.
pub fn lapse_action(contract: ContractStatus, sub: SubStatus) -> (r: LapseAction)
    ensures
        r == spec_lapse_action(contract, sub),
{
    match contract {
        ContractStatus::Canceled => LapseAction::CancelSub,
        ContractStatus::Open | ContractStatus::Closed => match sub {
            SubStatus::Active => LapseAction::ContinueSub,
            SubStatus::Pending | SubStatus::Canceled => LapseAction::CancelSub,
        },
    }
}

/// The rows of a subscription table.
pub open spec fn subscriptions_view(rows: Seq<SubscriptionInfo>) -> Seq<SubscriptionView> {
    rows.map_values(|s: SubscriptionInfo| s@)
}

/// The rows of a contract table.
pub open spec fn contracts_view(rows: Seq<ContractInfo>) -> Seq<ContractView> {
    rows.map_values(|c: ContractInfo| c@)
}

/// Whether a subscription lapses less than `horizon` milliseconds after
/// `now`. A subscription with nothing scheduled never does.
pub open spec fn is_due(sub: SubscriptionView, now: i64, horizon: i64) -> bool {
    sub.lapsed_at.is_some() && sub.lapsed_at.unwrap() < now + horizon
}

/// The position of the due subscription that lapses first; among those
/// that lapse at the same time, the one that stands first in the table.
pub open spec fn soonest(subs: Seq<SubscriptionView>, now: i64, horizon: i64) -> Option<int>
    decreases subs.len(),
{
    if subs.len() == 0 {
        None
    } else {
        let last = subs.len() - 1;
        let before = soonest(subs.drop_last(), now, horizon);
        if !is_due(subs[last], now, horizon) {
            before
        } else {
            match before {
                Some(i) => if subs[i].lapsed_at.unwrap() <= subs[last].lapsed_at.unwrap() {
                    Some(i)
                } else {
                    Some(last)
                },
                None => Some(last),
            }
        }
    }
}

/// What `soonest` finds: a due subscription that no other due subscription
/// precedes, in time or, at the same time, in the table.
pub proof fn lemma_soonest(subs: Seq<SubscriptionView>, now: i64, horizon: i64)
    ensures
        match soonest(subs, now, horizon) {
            Some(i) => {
                &&& 0 <= i < subs.len()
                &&& is_due(subs[i], now, horizon)
                &&& forall|j: int|
                    0 <= j < subs.len() && is_due(#[trigger] subs[j], now, horizon)
                        ==> subs[i].lapsed_at.unwrap() <= subs[j].lapsed_at.unwrap()
                &&& forall|j: int|
                    0 <= j < i && is_due(#[trigger] subs[j], now, horizon)
                        ==> subs[i].lapsed_at.unwrap() < subs[j].lapsed_at.unwrap()
            },
            None => forall|j: int| 0 <= j < subs.len() ==> !is_due(#[trigger] subs[j], now, horizon),
        },
    decreases subs.len(),
{
    if subs.len() > 0 {
        let last = subs.len() - 1;
        lemma_soonest(subs.drop_last(), now, horizon);
        assert forall|j: int| 0 <= j < last implies subs.drop_last()[j] == subs[j] by {}
        match soonest(subs, now, horizon) {
            Some(i) => {
                assert forall|j: int|
                    0 <= j < subs.len() && is_due(
                        #[trigger] subs[j],
                        now,
                        horizon,
                    ) implies subs[i].lapsed_at.unwrap() <= subs[j].lapsed_at.unwrap() by {
                    if j < last {
                        assert(subs.drop_last()[j] == subs[j]);
                    }
                }
                assert forall|j: int|
                    0 <= j < i && is_due(
                        #[trigger] subs[j],
                        now,
                        horizon,
                    ) implies subs[i].lapsed_at.unwrap() < subs[j].lapsed_at.unwrap() by {
                    assert(subs.drop_last()[j] == subs[j]);
                }
            },
            None => {
                assert forall|j: int| 0 <= j < subs.len() implies !is_due(
                    #[trigger] subs[j],
                    now,
                    horizon,
                ) by {
                    if j < last {
                        assert(subs.drop_last()[j] == subs[j]);
                    }
                }
            },
        }
    }
}

/// The time of the soonest lapse that is less than a minute away.
pub open spec fn spec_fetch_soonest(subs: Seq<SubscriptionView>, now: i64) -> Option<i64> {
    match soonest(subs, now, FETCH_HORIZON) {
        Some(i) => subs[i].lapsed_at,
        None => None,
    }
}

/// The table once every subscription with the id `id` is canceled.
pub open spec fn cancel_rows(subs: Seq<SubscriptionView>, id: i32) -> Seq<SubscriptionView> {
    Seq::new(
        subs.len(),
        |i: int|
            if subs[i].subscription_id == id {
                subs[i].canceled()
            } else {
                subs[i]
            },
    )
}

/// How many subscriptions have the id `id`.
pub open spec fn count_rows(subs: Seq<SubscriptionView>, id: i32) -> nat
    decreases subs.len(),
{
    if subs.len() == 0 {
        0
    } else {
        count_rows(subs.drop_last(), id) + if subs.last().subscription_id == id {
            1nat
        } else {
            0nat
        }
    }
}

/// What a cancellation reports: success if it changed exactly one row.
pub open spec fn spec_cancel_result(rows: nat, contract_id: i32, subscription_id: i32) -> Result<
    LapsedRes,
    ProcessLapsedError,
> {
    if rows == 1 {
        Ok(LapsedRes { contract_id, subscription_id, status: LapsedStatus::Canceled })
    } else {
        Err(ProcessLapsedError::Desync)
    }
}

/// The position of the first contract with the id `id`, at or after `from`.
pub open spec fn find_contract_from(contracts: Seq<ContractView>, id: i32, from: int) -> Option<
    int,
>
    decreases contracts.len() - from,
{
    if from < 0 || from >= contracts.len() {
        None
    } else if contracts[from].contract_id == id {
        Some(from)
    } else {
        find_contract_from(contracts, id, from + 1)
    }
}

/// Where `find_contract_from` looks and what it finds.
pub proof fn lemma_find_contract_from(contracts: Seq<ContractView>, id: i32, from: int)
    requires
        0 <= from,
    ensures
        match find_contract_from(contracts, id, from) {
            Some(i) => from <= i < contracts.len() && contracts[i].contract_id == id,
            None => forall|j: int|
                from <= j < contracts.len() ==> (#[trigger] contracts[j]).contract_id != id,
        },
    decreases contracts.len() - from,
{
    if from < contracts.len() && contracts[from].contract_id != id {
        lemma_find_contract_from(contracts, id, from + 1);
    }
}

/// Whether a payer may renew: a contract without allow list takes anyone, one
/// with an allow list takes the addresses on it.
pub open spec fn spec_authorized(allow_list: Option<Seq<Seq<char>>>, address: Seq<char>) -> bool {
    match allow_list {
        Some(list) => list.contains(address),
        None => true,
    }
}

/// The metadata of a renewal payment: `sub_id=` and the subscription's id.
pub open spec fn spec_renewal_metadata(subscription_id: i32) -> Seq<char> {
    "sub_id="@ + int_text(subscription_id as int)
}

/// The transfer that renews `sub`: the contract's price, from the payer to
/// the contract's owner.
pub open spec fn renewal_request(sub: SubscriptionView, contract: ContractView) -> CreateView {
    CreateView {
        from: sub.address,
        to: contract.address,
        amount: contract.price as u64,
        metadata: Some(spec_renewal_metadata(sub.subscription_id)),
        name: None,
        sent_metaname: None,
        sent_name: None,
        transaction_type: TransactionType::Transfer,
    }
}

/// What the scheduler works on: the ledger and the subscription table.
pub ghost struct Books {
    pub ledger: LedgerView,
    pub subscriptions: Seq<SubscriptionView>,
}

/// Renewing the subscription at position `i`, where `next` is the next time
/// its contract's schedule matches after the lapse.
///
/// A position outside the table holds no lapsed subscription. A payer who
/// is not on the allow list is refused as `Unauthorized`, and a payer whose
/// balance does not cover the price as `InsufficientFunds`; either way
/// nothing is charged and the subscription is canceled: every row with its
/// id loses its lapse. A price that is not positive, a schedule without a
/// next time, or a next time that is not later than the lapse mean that the
/// stored state is not what the scheduler relies on, and nothing changes.
/// Otherwise the price is transferred and the lapse moves to `next`, both
/// or neither.
pub open spec fn spec_continue(
    books: Books,
    i: int,
    contract: ContractView,
    next: Option<i64>,
    now: i64,
) -> (Result<LapsedRes, ProcessLapsedError>, Books) {
    let sub = books.subscriptions[i];
    if i < 0 || i >= books.subscriptions.len() {
        (Err(ProcessLapsedError::NoneLapsed), books)
    } else if !spec_authorized(contract.allow_list, sub.address) {
        (
            Err(ProcessLapsedError::Unauthorized),
            Books {
                subscriptions: cancel_rows(books.subscriptions, sub.subscription_id),
                ..books
            },
        )
    } else if contract.price <= 0 || sub.lapsed_at.is_none() || next.is_none() || next.unwrap()
        <= sub.lapsed_at.unwrap() {
        (Err(ProcessLapsedError::Desync), books)
    } else {
        match books.ledger.transfer(renewal_request(sub, contract), now) {
            Ok(after) => (
                Ok(
                    LapsedRes {
                        contract_id: contract.contract_id,
                        subscription_id: sub.subscription_id,
                        status: LapsedStatus::Renewed {
                            next_lapsed: next.unwrap(),
                            transction_id: after.transactions.last().id,
                        },
                    },
                ),
                Books {
                    ledger: after,
                    subscriptions: books.subscriptions.update(i, sub.rescheduled(next.unwrap())),
                },
            ),
            Err(TransferError::InsufficientFunds) => (
                Err(ProcessLapsedError::InsufficientFunds),
                Books {
                    subscriptions: cancel_rows(books.subscriptions, sub.subscription_id),
                    ..books
                },
            ),
            Err(TransferError::StoreError) => (Err(ProcessLapsedError::DbError), books),
            Err(_) => (Err(ProcessLapsedError::Desync), books),
        }
    }
}

/// Whether a renewal was refused for want of authorization or of funds.
pub open spec fn refused(r: Result<LapsedRes, ProcessLapsedError>) -> bool {
    r == Err::<LapsedRes, ProcessLapsedError>(ProcessLapsedError::Unauthorized) || r == Err::<
        LapsedRes,
        ProcessLapsedError,
    >(ProcessLapsedError::InsufficientFunds)
}

/// What a refused renewal of the subscription at position `i` leaves
/// behind: the ledger is what it was, so nothing was charged and no row was
/// logged; the subscription is canceled with nothing scheduled, as is every
/// row with its id; every other row is what it was.
pub open spec fn refused_and_canceled(before: Books, after: Books, i: int) -> bool {
    &&& 0 <= i < before.subscriptions.len()
    &&& after.ledger == before.ledger
    &&& after.subscriptions == cancel_rows(
        before.subscriptions,
        before.subscriptions[i].subscription_id,
    )
    &&& after.subscriptions[i].status == SubStatus::Canceled
    &&& after.subscriptions[i].lapsed_at.is_none()
    &&& forall|j: int|
        0 <= j < before.subscriptions.len() && before.subscriptions[j].subscription_id
            != before.subscriptions[i].subscription_id ==> #[trigger] after.subscriptions[j]
            == before.subscriptions[j]
}

/// A renewal that is refused for want of authorization or of funds charges
/// nothing and cancels the subscription; a payer who is not on the allow
/// list is refused whatever the balances are, and no other payer is refused
/// as unauthorized.
pub proof fn lemma_refused_renewal_cancels(
    books: Books,
    i: int,
    contract: ContractView,
    next: Option<i64>,
    now: i64,
)
    ensures
        ({
            let (r, after) = spec_continue(books, i, contract, next, now);
            &&& refused(r) ==> refused_and_canceled(books, after, i)
            &&& r == Err::<LapsedRes, ProcessLapsedError>(ProcessLapsedError::Unauthorized) <==> 0
                <= i < books.subscriptions.len() && !spec_authorized(
                contract.allow_list,
                books.subscriptions[i].address,
            )
        }),
{
}

/// Canceling every subscription with the id `subscription_id`.
pub open spec fn spec_cancel(books: Books, contract_id: i32, subscription_id: i32) -> (
    Result<LapsedRes, ProcessLapsedError>,
    Books,
) {
    (
        spec_cancel_result(
            count_rows(books.subscriptions, subscription_id),
            contract_id,
            subscription_id,
        ),
        Books { subscriptions: cancel_rows(books.subscriptions, subscription_id), ..books },
    )
}

/// Processing the soonest lapse that is less than ten seconds away.
///
/// The subscription is looked up with its contract. If the contract is not
/// canceled and the subscription is active it is renewed; a renewal that
/// fails for want of funds or of authorization cancels it and reports why.
/// In every other case it is canceled.
pub open spec fn spec_process(books: Books, contracts: Seq<ContractView>, now: i64) -> (
    Result<LapsedRes, ProcessLapsedError>,
    Books,
) {
    match soonest(books.subscriptions, now, PROCESS_HORIZON) {
        None => (Err(ProcessLapsedError::NoneLapsed), books),
        Some(i) => {
            let sub = books.subscriptions[i];
            match find_contract_from(contracts, sub.contract_id, 0) {
                None => (Err(ProcessLapsedError::DbError), books),
                Some(c) => match spec_lapse_action(contracts[c].status, sub.status) {
                    LapseAction::CancelSub => spec_cancel(
                        books,
                        sub.contract_id,
                        sub.subscription_id,
                    ),
                    LapseAction::ContinueSub => spec_continue(
                        books,
                        i,
                        contracts[c],
                        cron_next_after(contracts[c].cron_expr, sub.lapsed_at.unwrap()),
                        now,
                    ),
                },
            }
        },
    }
}

/// Renewal is all or nothing, and happens once. Whatever processing a lapse
/// comes to, money has moved exactly when the result is a renewal; then one
/// row was logged, the sum of all balances is what it was, and the
/// subscription's lapse has moved to a strictly later time, so that
/// processing again does not renew the same lapse twice. In every other case
/// the ledger is what it was, and unless a subscription was canceled so is
/// the table. A renewal that is refused for want of funds or of
/// authorization charges nothing and cancels the subscription.
pub proof fn lemma_process_is_atomic(books: Books, contracts: Seq<ContractView>, now: i64)
    requires
        books.ledger.wf(),
    ensures
        ({
            let (r, after) = spec_process(books, contracts, now);
            match r {
                Ok(LapsedRes { status: LapsedStatus::Renewed { next_lapsed, transction_id }, subscription_id, .. }) => {
                    let i = soonest(books.subscriptions, now, PROCESS_HORIZON).unwrap();
                    &&& 0 <= i < books.subscriptions.len()
                    &&& books.subscriptions[i].subscription_id == subscription_id
                    &&& books.subscriptions[i].lapsed_at.is_some()
                    &&& next_lapsed > books.subscriptions[i].lapsed_at.unwrap()
                    &&& after.subscriptions == books.subscriptions.update(
                        i,
                        books.subscriptions[i].rescheduled(next_lapsed),
                    )
                    &&& after.ledger.wf()
                    &&& after.ledger.transactions.len() == books.ledger.transactions.len() + 1
                    &&& after.ledger.transactions.last().id == transction_id
                    &&& total_balance(after.ledger.wallets) == total_balance(books.ledger.wallets)
                },
                Ok(LapsedRes { status: LapsedStatus::Canceled, subscription_id, .. }) => {
                    &&& after.ledger == books.ledger
                    &&& after.subscriptions == cancel_rows(books.subscriptions, subscription_id)
                },
                Err(ProcessLapsedError::Unauthorized) | Err(
                    ProcessLapsedError::InsufficientFunds,
                ) => {
                    let i = soonest(books.subscriptions, now, PROCESS_HORIZON).unwrap();
                    &&& after.ledger == books.ledger
                    &&& after.subscriptions == cancel_rows(
                        books.subscriptions,
                        books.subscriptions[i].subscription_id,
                    )
                },
                Err(ProcessLapsedError::Desync) => {
                    &&& after.ledger == books.ledger
                    &&& after.subscriptions.len() == books.subscriptions.len()
                },
                Err(_) => after == books,
            }
        }),
{
    lemma_soonest(books.subscriptions, now, PROCESS_HORIZON);
    if let Some(i) = soonest(books.subscriptions, now, PROCESS_HORIZON) {
        let sub = books.subscriptions[i];
        lemma_find_contract_from(contracts, sub.contract_id, 0);
        if let Some(c) = find_contract_from(contracts, sub.contract_id, 0) {
            lemma_transfer_conserves(books.ledger, renewal_request(sub, contracts[c]), now);
        }
    }
}

/// A subscription is canceled exactly when nothing is scheduled for it, and
/// processing a lapse keeps it so for every row of the table.
pub proof fn lemma_process_keeps_consistency(
    books: Books,
    contracts: Seq<ContractView>,
    now: i64,
)
    requires
        forall|j: int|
            0 <= j < books.subscriptions.len() ==> (#[trigger] books.subscriptions[j]).consistent(),
    ensures
        ({
            let after = spec_process(books, contracts, now).1;
            &&& after.subscriptions.len() == books.subscriptions.len()
            &&& forall|j: int|
                0 <= j < after.subscriptions.len() ==> (
                #[trigger] after.subscriptions[j]).consistent()
        }),
{
    lemma_soonest(books.subscriptions, now, PROCESS_HORIZON);
}

fn is_due_exec(sub: &SubscriptionInfo, now: i64, horizon: i64) -> (r: bool)
    ensures
        r == is_due(sub@, now, horizon),
{
    match sub.lapsed_at {
        Some(t) => (t as i128) < now as i128 + horizon as i128,
        None => false,
    }
}

/// The position of the due subscription that lapses first.
pub fn soonest_lapse(subs: &Vec<SubscriptionInfo>, now: i64, horizon: i64) -> (r: Option<usize>)
    ensures
        match r {
            Some(i) => soonest(subscriptions_view(subs@), now, horizon) == Some(i as int) && i
                < subs.len() && subs[i as int].lapsed_at.is_some(),
            None => soonest(subscriptions_view(subs@), now, horizon).is_none(),
        },
{
    let ghost rows = subscriptions_view(subs@);
    let mut best: Option<usize> = None;
    let mut k: usize = 0;
    while k < subs.len()
        invariant
            k <= subs.len(),
            rows == subscriptions_view(subs@),
            match best {
                Some(i) => soonest(rows.take(k as int), now, horizon) == Some(i as int) && i < k
                    && subs[i as int].lapsed_at.is_some(),
                None => soonest(rows.take(k as int), now, horizon).is_none(),
            },
        decreases subs.len() - k,
    {
        proof {
            assert(rows.take(k + 1).drop_last() == rows.take(k as int));
            assert(rows.take(k + 1)[k as int] == subs[k as int]@);
            lemma_soonest(rows.take(k as int), now, horizon);
            if let Some(i) = best {
                assert(rows.take(k + 1)[i as int] == subs[i as int]@);
            }
        }
        if is_due_exec(&subs[k], now, horizon) {
            match best {
                Some(i) => {
                    let held = match subs[i].lapsed_at {
                        Some(t) => t,
                        None => 0,
                    };
                    let seen = match subs[k].lapsed_at {
                        Some(t) => t,
                        None => 0,
                    };
                    if !(held <= seen) {
                        best = Some(k);
                    }
                },
                None => {
                    best = Some(k);
                },
            }
        }
        k += 1;
    }
    assert(rows.take(subs.len() as int) == rows);
    best
}

/// The time of the soonest lapse that is less than a minute away from `now`,
/// if there is one.
pub fn fetch_soonest(subs: &Vec<SubscriptionInfo>, now: i64) -> (r: Option<i64>)
    ensures
        r == spec_fetch_soonest(subscriptions_view(subs@), now),
{
    match soonest_lapse(subs, now, FETCH_HORIZON) {
        Some(i) => subs[i].lapsed_at,
        None => None,
    }
}

/// Cancels the subscription `subscription_id`: nothing is scheduled for it
/// any more. Reports `Desync` unless exactly one row had that id.
pub fn cancel_sub(subs: &mut Vec<SubscriptionInfo>, contract_id: i32, subscription_id: i32) -> (r:
    Result<LapsedRes, ProcessLapsedError>)
    ensures
        subscriptions_view(final(subs)@) == cancel_rows(
            subscriptions_view(old(subs)@),
            subscription_id,
        ),
        r == spec_cancel_result(
            count_rows(subscriptions_view(old(subs)@), subscription_id),
            contract_id,
            subscription_id,
        ),
{
    let ghost rows = subscriptions_view(old(subs)@);
    let mut changed: usize = 0;
    let mut k: usize = 0;
    while k < subs.len()
        invariant
            k <= subs.len(),
            subs.len() == rows.len(),
            changed == count_rows(rows.take(k as int), subscription_id),
            changed <= k,
            forall|j: int|
                0 <= j < k ==> (#[trigger] subs[j])@ == cancel_rows(rows, subscription_id)[j],
            forall|j: int| k <= j < subs.len() ==> (#[trigger] subs[j])@ == rows[j],
        decreases subs.len() - k,
    {
        proof {
            assert(rows.take(k + 1).drop_last() == rows.take(k as int));
        }
        if subs[k].subscription_id == subscription_id {
            let row = &subs[k];
            let updated = SubscriptionInfo {
                subscription_id: row.subscription_id,
                contract_id: row.contract_id,
                address: row.address.clone(),
                status: SubStatus::Canceled,
                lapsed_at: None,
                started_at: row.started_at,
            };
            subs.set(k, updated);
            changed += 1;
        }
        k += 1;
    }
    proof {
        assert(rows.take(subs.len() as int) == rows);
        assert(subscriptions_view(subs@) =~= cancel_rows(rows, subscription_id));
    }
    if changed != 1 {
        Err(ProcessLapsedError::Desync)
    } else {
        Ok(LapsedRes { subscription_id, contract_id, status: LapsedStatus::Canceled })
    }
}

/// Whether a payer may renew under an allow list.
pub fn is_authorized(allow_list: &Option<Vec<String>>, address: &str) -> (r: bool)
    ensures
        r == spec_authorized(allow_list.deep_view(), address@),
{
    match allow_list {
        None => true,
        Some(list) => {
            let mut k: usize = 0;
            while k < list.len()
                invariant
                    k <= list.len(),
                    allow_list.deep_view() == Some(list.deep_view()),
                    forall|j: int| 0 <= j < k ==> (#[trigger] list[j])@ != address@,
                decreases list.len() - k,
            {
                if str_eq(list[k].as_str(), address) {
                    proof {
                        let texts = list.deep_view();
                        assert(0 <= k < texts.len() && texts[k as int] == address@);
                        assert(texts.contains(address@));
                    }
                    return true;
                }
                k += 1;
            }
            proof {
                if list.deep_view().contains(address@) {
                    let j = choose|j: int|
                        0 <= j < list.deep_view().len() && list.deep_view()[j] == address@;
                    assert(list[j]@ == address@);
                }
            }
            false
        },
    }
}

/// The metadata of a renewal payment.
pub fn renewal_metadata(subscription_id: i32) -> (r: String)
    ensures
        r@ == spec_renewal_metadata(subscription_id),
{
    let mut out = String::from_str("sub_id=");
    push_int(&mut out, subscription_id as i64);
    out
}

/// The ledger and the table as the scheduler sees them.
pub open spec fn books_of(ledger: &Ledger, subs: &Vec<SubscriptionInfo>) -> Books {
    Books { ledger: ledger@, subscriptions: subscriptions_view(subs@) }
}

/// Renews the subscription at position `i`, where `next` is the next time
/// its contract's schedule matches after the lapse: transfers the price
/// from the payer to the contract's owner and moves the lapse to `next`,
/// both or neither. A payer who is not on the allow list, or cannot pay, is
/// charged nothing and loses the subscription: it is canceled, and the
/// reason is returned.
pub fn continue_sub_with(
    ledger: &mut Ledger,
    subs: &mut Vec<SubscriptionInfo>,
    i: usize,
    contract: &ContractInfo,
    next: Option<i64>,
    now: i64,
) -> (r: Result<LapsedRes, ProcessLapsedError>)
    requires
        old(ledger).wf(),
    ensures
        final(ledger).wf(),
        (r, books_of(final(ledger), final(subs))) == spec_continue(
            books_of(old(ledger), old(subs)),
            i as int,
            contract@,
            next,
            now,
        ),
        r == Err::<LapsedRes, ProcessLapsedError>(ProcessLapsedError::Unauthorized) <==> i < old(
            subs,
        ).len() && !spec_authorized(contract@.allow_list, old(subs)[i as int]@.address),
        refused(r) ==> refused_and_canceled(
            books_of(old(ledger), old(subs)),
            books_of(final(ledger), final(subs)),
            i as int,
        ),
{
    if i >= subs.len() {
        return Err(ProcessLapsedError::NoneLapsed);
    }
    proof {
        lemma_refused_renewal_cancels(
            books_of(ledger, subs),
            i as int,
            contract@,
            next,
            now,
        );
    }
    let subscription_id = subs[i].subscription_id;
    if !is_authorized(&contract.allow_list, subs[i].address.as_str()) {
        let _ = cancel_sub(subs, contract.contract_id, subscription_id);
        return Err(ProcessLapsedError::Unauthorized);
    }
    let lapsed_at = match subs[i].lapsed_at {
        Some(t) => t,
        None => {
            return Err(ProcessLapsedError::Desync);
        },
    };
    let next_lapsed = match next {
        Some(t) => t,
        None => {
            return Err(ProcessLapsedError::Desync);
        },
    };
    if contract.price <= 0 || next_lapsed <= lapsed_at {
        return Err(ProcessLapsedError::Desync);
    }
    let request = TransactionCreateData {
        from: subs[i].address.clone(),
        to: contract.address.clone(),
        amount: contract.price as u64,
        metadata: Some(renewal_metadata(subs[i].subscription_id)),
        name: None,
        sent_metaname: None,
        sent_name: None,
        transaction_type: TransactionType::Transfer,
    };
    assert(request@ == renewal_request(subs[i as int]@, contract@));
    match ledger.transfer(request, now) {
        Ok(row) => {
            let sub = &subs[i];
            let res = LapsedRes {
                contract_id: contract.contract_id,
                subscription_id: sub.subscription_id,
                status: LapsedStatus::Renewed { next_lapsed, transction_id: row.id },
            };
            let updated = SubscriptionInfo {
                subscription_id: sub.subscription_id,
                contract_id: sub.contract_id,
                address: sub.address.clone(),
                status: sub.status,
                lapsed_at: Some(next_lapsed),
                started_at: sub.started_at,
            };
            subs.set(i, updated);
            assert(subscriptions_view(subs@) =~= subscriptions_view(old(subs)@).update(
                i as int,
                old(subs)[i as int]@.rescheduled(next_lapsed),
            ));
            Ok(res)
        },
        Err(TransferError::InsufficientFunds) => {
            let _ = cancel_sub(subs, contract.contract_id, subscription_id);
            Err(ProcessLapsedError::InsufficientFunds)
        },
        Err(TransferError::StoreError) => Err(ProcessLapsedError::DbError),
        Err(_) => Err(ProcessLapsedError::Desync),
    }
}

/// Renews the subscription at position `i` under its contract's schedule:
/// see [`continue_sub_with`]. A payer who is not on the allow list gets
/// `Unauthorized` whatever the balances are; nothing is charged and the
/// subscription is canceled. With no allow list, or the payer on it, the
/// result is never `Unauthorized`.
pub fn continue_sub(
    ledger: &mut Ledger,
    subs: &mut Vec<SubscriptionInfo>,
    i: usize,
    contract: &ContractInfo,
    now: i64,
) -> (r: Result<LapsedRes, ProcessLapsedError>)
    requires
        old(ledger).wf(),
    ensures
        final(ledger).wf(),
        (r, books_of(final(ledger), final(subs))) == spec_continue(
            books_of(old(ledger), old(subs)),
            i as int,
            contract@,
            cron_next_after(contract@.cron_expr, old(subs)[i as int].lapsed_at.unwrap()),
            now,
        ),
        r == Err::<LapsedRes, ProcessLapsedError>(ProcessLapsedError::Unauthorized) <==> i < old(
            subs,
        ).len() && !spec_authorized(contract@.allow_list, old(subs)[i as int]@.address),
        refused(r) ==> refused_and_canceled(
            books_of(old(ledger), old(subs)),
            books_of(final(ledger), final(subs)),
            i as int,
        ),
{
    if i >= subs.len() {
        return Err(ProcessLapsedError::NoneLapsed);
    }
    let next = match subs[i].lapsed_at {
        Some(t) => next_occurrence(contract.cron_expr.as_str(), t),
        None => None,
    };
    continue_sub_with(ledger, subs, i, contract, next, now)
}

/// The position of the contract with the id `id`.
pub fn find_contract(contracts: &Vec<ContractInfo>, id: i32) -> (r: Option<usize>)
    ensures
        match r {
            Some(c) => find_contract_from(contracts_view(contracts@), id, 0) == Some(c as int) && c
                < contracts.len(),
            None => find_contract_from(contracts_view(contracts@), id, 0).is_none(),
        },
{
    let mut k: usize = 0;
    while k < contracts.len()
        invariant
            k <= contracts.len(),
            find_contract_from(contracts_view(contracts@), id, 0) == find_contract_from(
                contracts_view(contracts@),
                id,
                k as int,
            ),
        decreases contracts.len() - k,
    {
        if contracts[k].contract_id == id {
            return Some(k);
        }
        k += 1;
    }
    None
}

/// Attempts to process the first lapsed subscription: the one whose lapse is
/// soonest among those less than ten seconds away from `now`.
pub fn try_process_lapsed(
    ledger: &mut Ledger,
    subs: &mut Vec<SubscriptionInfo>,
    contracts: &Vec<ContractInfo>,
    now: i64,
) -> (r: Result<LapsedRes, ProcessLapsedError>)
    requires
        old(ledger).wf(),
    ensures
        final(ledger).wf(),
        (r, books_of(final(ledger), final(subs))) == spec_process(
            books_of(old(ledger), old(subs)),
            contracts_view(contracts@),
            now,
        ),
{
    let i = match soonest_lapse(subs, now, PROCESS_HORIZON) {
        Some(i) => i,
        None => {
            return Err(ProcessLapsedError::NoneLapsed);
        },
    };
    let contract_id = subs[i].contract_id;
    let subscription_id = subs[i].subscription_id;
    let c = match find_contract(contracts, contract_id) {
        Some(c) => c,
        None => {
            return Err(ProcessLapsedError::DbError);
        },
    };
    match lapse_action(contracts[c].status, subs[i].status) {
        LapseAction::CancelSub => cancel_sub(subs, contract_id, subscription_id),
        LapseAction::ContinueSub => continue_sub(ledger, subs, i, &contracts[c], now),
    }
}

/// The event to broadcast for a processed lapse: the logged transaction of
/// a renewal. A cancellation has none.
pub fn lapse_event(ledger: &Ledger, res: &LapsedRes) -> (r: Option<WebSocketEvent>)
    requires
        ledger.wf(),
    ensures
        match res.status {
            LapsedStatus::Renewed { transction_id, .. } => if 1 <= transction_id - ledger@.logged
                <= ledger@.transactions.len() {
                let row = ledger@.transactions[transction_id - ledger@.logged - 1];
                r.is_some() && r.unwrap()@ == (EventView::Transaction { from: row.from, to: row.to })
            } else {
                r.is_none()
            },
            LapsedStatus::Canceled => r.is_none(),
        },
{
    match res.status {
        LapsedStatus::Renewed { transction_id, next_lapsed } => {
            match ledger.transaction_by_id(transction_id) {
                Some(row) => Some(WebSocketEvent::transaction(&row)),
                None => None,
            }
        },
        LapsedStatus::Canceled => None,
    }
}

} // verus!
