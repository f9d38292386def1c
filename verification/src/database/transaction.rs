use vstd::prelude::*;

use vstd::string::{StrSliceExecFns, StringExecFns};

use crate::database::ledger::{Ledger, LedgerView, TransferError};
use crate::database::query::{
    clamp_limit, direction_or_asc, spec_clamp_limit, spec_direction, Direction, QueryPlan,
    DEFAULT_LIMIT,
};
use crate::routes::PaginationParams;
use crate::text::{nat_text, push_nat};
use crate::text::{chars_of, clone_opt_string, str_eq};

verus! {

/// The kinds of ledger entry.
#[derive(Debug, Default, Clone, Copy, PartialEq, Eq, PartialOrd, Structural)]
pub enum TransactionType {
    #[default]
    Mined,
    Unknown,
    NamePurchase,
    NameARecord,
    NameTransfer,
    Transfer,
}

impl TransactionType {
    /// The kind that a stored label stands for; labels that are not known
    /// read as `Unknown`.
    pub open spec fn spec_from_label(label: Seq<char>) -> TransactionType {
        if label == "mined"@ {
            TransactionType::Mined
        } else if label == "name_purchase"@ {
            TransactionType::NamePurchase
        } else if label == "name_a_record"@ {
            TransactionType::NameARecord
        } else if label == "name_transfer"@ {
            TransactionType::NameTransfer
        } else if label == "transfer"@ {
            TransactionType::Transfer
        } else {
            TransactionType::Unknown
        }
    }

    /// The label a kind is stored under.
    pub open spec fn spec_label(self) -> Seq<char> {
        match self {
            TransactionType::Unknown => "unknown"@,
            TransactionType::Mined => "mined"@,
            TransactionType::NamePurchase => "name_purchase"@,
            TransactionType::NameARecord => "name_a_record"@,
            TransactionType::NameTransfer => "name_transfer"@,
            TransactionType::Transfer => "transfer"@,
        }
    }

    /// Reads a stored label.
    pub fn from_label(label: &str) -> (r: TransactionType)
        ensures
            r == Self::spec_from_label(label@),
    {
        if str_eq(label, "mined") {
            TransactionType::Mined
        } else if str_eq(label, "name_purchase") {
            TransactionType::NamePurchase
        } else if str_eq(label, "name_a_record") {
            TransactionType::NameARecord
        } else if str_eq(label, "name_transfer") {
            TransactionType::NameTransfer
        } else if str_eq(label, "transfer") {
            TransactionType::Transfer
        } else {
            TransactionType::Unknown
        }
    }

    /// The label this kind is stored under.
    pub fn as_str(&self) -> (r: &'static str)
        ensures
            r@ == self.spec_label(),
    {
        match self {
            TransactionType::Unknown => "unknown",
            TransactionType::Mined => "mined",
            TransactionType::NamePurchase => "name_purchase",
            TransactionType::NameARecord => "name_a_record",
            TransactionType::NameTransfer => "name_transfer",
            TransactionType::Transfer => "transfer",
        }
    }
}

/// Every kind reads back from its own label.
pub proof fn lemma_label_round_trip(kind: TransactionType)
    ensures
        TransactionType::spec_from_label(kind.spec_label()) == kind,
{
    reveal_strlit("unknown");
    reveal_strlit("mined");
    reveal_strlit("name_purchase");
    reveal_strlit("name_a_record");
    reveal_strlit("name_transfer");
    reveal_strlit("transfer");
    assert("unknown"@.len() == 7);
    assert("mined"@.len() == 5);
    assert("name_purchase"@.len() == 13);
    assert("name_a_record"@[5] == 'a');
    assert("name_purchase"@[5] == 'p');
    assert("name_transfer"@[5] == 't');
    assert("transfer"@.len() == 8);
}

/// A row of the append-only transaction log.
#[derive(Debug, Clone, PartialEq)]
pub struct Model {
    pub id: i32,
    pub amount: u64,
    pub from: Option<String>,
    pub to: String,
    pub metadata: Option<String>,
    pub name: Option<String>,
    pub sent_metaname: Option<String>,
    pub sent_name: Option<String>,
    pub transaction_type: TransactionType,
    pub date: i64,
}

/// Mathematical content of a transaction row.
pub ghost struct TransactionView {
    pub id: i32,
    pub amount: u64,
    pub from: Option<Seq<char>>,
    pub to: Seq<char>,
    pub metadata: Option<Seq<char>>,
    pub name: Option<Seq<char>>,
    pub sent_metaname: Option<Seq<char>>,
    pub sent_name: Option<Seq<char>>,
    pub transaction_type: TransactionType,
    pub date: i64,
}

impl View for Model {
    type V = TransactionView;

    open spec fn view(&self) -> TransactionView {
        TransactionView {
            id: self.id,
            amount: self.amount,
            from: self.from.deep_view(),
            to: self.to@,
            metadata: self.metadata.deep_view(),
            name: self.name.deep_view(),
            sent_metaname: self.sent_metaname.deep_view(),
            sent_name: self.sent_name.deep_view(),
            transaction_type: self.transaction_type,
            date: self.date,
        }
    }
}

/// What a caller supplies to have a transaction made.
#[derive(Debug, Clone, PartialEq)]
pub struct TransactionCreateData {
    pub from: String,
    pub to: String,
    pub amount: u64,
    pub metadata: Option<String>,
    pub name: Option<String>,
    pub sent_metaname: Option<String>,
    pub sent_name: Option<String>,
    pub transaction_type: TransactionType,
}

/// Mathematical content of a [`TransactionCreateData`].
pub ghost struct CreateView {
    pub from: Seq<char>,
    pub to: Seq<char>,
    pub amount: u64,
    pub metadata: Option<Seq<char>>,
    pub name: Option<Seq<char>>,
    pub sent_metaname: Option<Seq<char>>,
    pub sent_name: Option<Seq<char>>,
    pub transaction_type: TransactionType,
}

impl View for TransactionCreateData {
    type V = CreateView;

    open spec fn view(&self) -> CreateView {
        CreateView {
            from: self.from@,
            to: self.to@,
            amount: self.amount,
            metadata: self.metadata.deep_view(),
            name: self.name.deep_view(),
            sent_metaname: self.sent_metaname.deep_view(),
            sent_name: self.sent_name.deep_view(),
            transaction_type: self.transaction_type,
        }
    }
}

impl CreateView {
    /// The metadata a row is stored with: missing metadata is stored empty.
    pub open spec fn stored_metadata(self) -> Seq<char> {
        match self.metadata {
            Some(m) => m,
            None => Seq::empty(),
        }
    }

    /// The row that a full transfer writes, under `id` and stamped `now`.
    pub open spec fn row(self, id: i32, now: i64) -> TransactionView {
        TransactionView {
            id,
            amount: self.amount,
            from: Some(self.from),
            to: self.to,
            metadata: Some(self.stored_metadata()),
            name: self.name,
            sent_metaname: self.sent_metaname,
            sent_name: self.sent_name,
            transaction_type: self.transaction_type,
            date: now,
        }
    }

    /// The row that a log-only entry writes: like [`Self::row`], without
    /// the two fields that say where the payment was addressed.
    pub open spec fn bare_row(self, id: i32, now: i64) -> TransactionView {
        TransactionView { sent_metaname: None, sent_name: None, ..self.row(id, now) }
    }
}

impl Default for TransactionCreateData {
    fn default() -> (r: Self)
        ensures
            r@ == (CreateView {
                from: Seq::empty(),
                to: Seq::empty(),
                amount: 0,
                metadata: None,
                name: None,
                sent_metaname: None,
                sent_name: None,
                transaction_type: TransactionType::Mined,
            }),
    {
        TransactionCreateData {
            from: String::new(),
            to: String::new(),
            amount: 0,
            metadata: None,
            name: None,
            sent_metaname: None,
            sent_name: None,
            transaction_type: TransactionType::Mined,
        }
    }
}

impl Model {
    /// An independent copy of the row.
    pub fn duplicate(&self) -> (r: Self)
        ensures
            r@ == self@,
    {
        Model {
            id: self.id,
            amount: self.amount,
            from: clone_opt_string(&self.from),
            to: self.to.clone(),
            metadata: clone_opt_string(&self.metadata),
            name: clone_opt_string(&self.name),
            sent_metaname: clone_opt_string(&self.sent_metaname),
            sent_name: clone_opt_string(&self.sent_name),
            transaction_type: self.transaction_type,
            date: self.date,
        }
    }

    /// Moves `creation_data.amount` from one wallet to another and logs the
    /// move, all or nothing: see [`Ledger::transfer`].
    pub fn create(ledger: &mut Ledger, creation_data: TransactionCreateData, now: i64) -> (r:
        Result<Model, TransferError>)
        requires
            old(ledger).wf(),
        ensures
            final(ledger).wf(),
            match r {
                Ok(row) => old(ledger)@.transfer(creation_data@, now) == Ok::<
                    LedgerView,
                    TransferError,
                >(final(ledger)@) && row@ == final(ledger)@.transactions.last(),
                Err(e) => old(ledger)@.transfer(creation_data@, now) == Err::<
                    LedgerView,
                    TransferError,
                >(e) && final(ledger)@ == old(ledger)@,
            },
    {
        ledger.transfer(creation_data, now)
    }

    /// Logs a transaction without touching any balance: see
    /// [`Ledger::record`].
    pub fn create_no_update(
        ledger: &mut Ledger,
        creation_data: TransactionCreateData,
        now: i64,
    ) -> (r: Result<Model, TransferError>)
        requires
            old(ledger).wf(),
        ensures
            final(ledger).wf(),
            match r {
                Ok(row) => old(ledger)@.record(creation_data@, now) == Ok::<
                    LedgerView,
                    TransferError,
                >(final(ledger)@) && row@ == final(ledger)@.transactions.last(),
                Err(e) => old(ledger)@.record(creation_data@, now) == Err::<
                    LedgerView,
                    TransferError,
                >(e) && final(ledger)@ == old(ledger)@,
            },
    {
        ledger.record(creation_data, now)
    }
}

/// A page of the transaction log, and whether mined rows are left out.
#[derive(Debug, Clone, PartialEq)]
pub struct ListPlan {
    pub limit: i64,
    pub offset: i64,
    pub exclude_mined: bool,
}

/// How transactions that concern a set of addresses are looked up.
#[derive(Debug, Clone, PartialEq)]
pub struct LookupPlan {
    /// The condition that selects the rows. The addresses are bound to the
    /// parameters `$1` onwards, in their order.
    pub where_clause: String,
    pub order_by: &'static str,
    pub order: Direction,
    pub limit: i64,
    pub offset: i64,
    /// The number of the parameter that the limit is bound to.
    pub limit_param: usize,
    /// The number of the parameter that the offset is bound to.
    pub offset_param: usize,
}

/// The column that the history of a name is ordered by: the one asked for
/// if it is one of `id`, `from`, `to`, `value`, `sent_name` and
/// `sent_metaname`; `date` for `time`; `id` for anything else.
pub open spec fn spec_history_column(order_by: Seq<char>) -> Seq<char> {
    if order_by == "from"@ || order_by == "to"@ || order_by == "value"@ || order_by
        == "sent_name"@ || order_by == "sent_metaname"@ {
        order_by
    } else if order_by == "time"@ {
        "date"@
    } else {
        "id"@
    }
}

/// The column that the payments to a name are ordered by: the one asked for
/// if it is one of `id`, `amount`, `date`, `from` and `to`; `id` otherwise.
pub open spec fn spec_sent_name_column(order_by: Seq<char>) -> Seq<char> {
    if order_by == "amount"@ || order_by == "date"@ || order_by == "from"@ || order_by == "to"@ {
        order_by
    } else {
        "id"@
    }
}

/// The column that a lookup by address is ordered by: the one asked for if
/// it is one of `id`, `from`, `to`, `amount`, `date`, `sent_name` and
/// `sent_metaname`; `id` otherwise.
pub open spec fn spec_lookup_column(order_by: Seq<char>) -> Seq<char> {
    if order_by == "from"@ || order_by == "to"@ || order_by == "amount"@ || order_by == "date"@
        || order_by == "sent_name"@ || order_by == "sent_metaname"@ {
        order_by
    } else {
        "id"@
    }
}

/// The condition that the `i`-th address of a lookup is a party.
pub open spec fn spec_party_condition(i: nat) -> Seq<char> {
    "(\"from\" = $"@ + nat_text(i) + " OR \"to\" = $"@ + nat_text(i) + ")"@
}

/// The condition that one of the first `n` addresses of a lookup is a
/// party: the conditions for each, joined by ` OR `.
pub open spec fn spec_party_conditions(n: nat) -> Seq<char>
    decreases n,
{
    if n == 0 {
        Seq::empty()
    } else if n == 1 {
        spec_party_condition(1)
    } else {
        spec_party_conditions((n - 1) as nat) + " OR "@ + spec_party_condition(n)
    }
}

/// The condition that selects the rows of a lookup among `n` addresses.
pub open spec fn spec_where_clause(n: nat, include_mined: bool) -> Seq<char> {
    "("@ + spec_party_conditions(n) + ")"@ + if include_mined {
        Seq::<char>::empty()
    } else {
        " AND transaction_type != 'mined'"@
    }
}

impl Model {
    /// The page that a plain listing returns, as `(limit, offset)`.
    pub fn fetch_all(limit: i64, offset: i64) -> (r: (i64, i64))
        ensures
            r == (spec_clamp_limit(limit), offset),
    {
        (clamp_limit(limit), offset)
    }

    /// The page that a listing by date returns. Without a limit it is 50
    /// rows, without an offset it starts at the first row, and mined rows are
    /// left out only if the request says so.
    pub fn sorted_by_date(pagination: &PaginationParams) -> (r: ListPlan)
        ensures
            r.limit == spec_clamp_limit(
                match pagination.limit {
                    Some(l) => l,
                    None => DEFAULT_LIMIT,
                },
            ),
            r.offset == match pagination.offset {
                Some(o) => o,
                None => 0,
            },
            r.exclude_mined == (pagination.exclude_mined == Some(true)),
    {
        let limit = match pagination.limit {
            Some(l) => l,
            None => DEFAULT_LIMIT,
        };
        let offset = match pagination.offset {
            Some(o) => o,
            None => 0,
        };
        let exclude_mined = match pagination.exclude_mined {
            Some(true) => true,
            _ => false,
        };
        ListPlan { limit: clamp_limit(limit), offset, exclude_mined }
    }

    /// Whether a count of the log leaves mined rows out.
    pub fn total_count_no_mined(params: &PaginationParams) -> (r: bool)
        ensures
            r == (params.exclude_mined == Some(true)),
    {
        match params.exclude_mined {
            Some(true) => true,
            _ => false,
        }
    }

    /// The page that an unordered listing returns: see
    /// [`Self::sorted_by_date`].
    pub fn fetch_all_no_mined(params: &PaginationParams) -> (r: ListPlan)
        ensures
            r.limit == spec_clamp_limit(
                match params.limit {
                    Some(l) => l,
                    None => DEFAULT_LIMIT,
                },
            ),
            r.offset == match params.offset {
                Some(o) => o,
                None => 0,
            },
            r.exclude_mined == (params.exclude_mined == Some(true)),
    {
        Self::sorted_by_date(params)
    }

    /// How the history of a name is listed.
    pub fn fetch_name_history(limit: i64, offset: i64, order_by: &str, order: &str) -> (r:
        QueryPlan)
        ensures
            r.limit == spec_clamp_limit(limit),
            r.offset == offset,
            r.order_by@ == spec_history_column(order_by@),
            r.order == match spec_direction(order@) {
                Some(d) => d,
                None => Direction::Asc,
            },
    {
        let column = if str_eq(order_by, "from") {
            "from"
        } else if str_eq(order_by, "to") {
            "to"
        } else if str_eq(order_by, "value") {
            "value"
        } else if str_eq(order_by, "sent_name") {
            "sent_name"
        } else if str_eq(order_by, "sent_metaname") {
            "sent_metaname"
        } else if str_eq(order_by, "time") {
            "date"
        } else {
            "id"
        };
        QueryPlan {
            limit: clamp_limit(limit),
            offset,
            order_by: column,
            order: direction_or_asc(order),
        }
    }

    /// How the payments to a name are listed.
    pub fn fetch_by_sent_name(limit: i64, offset: i64, order_by: &str, order: &str) -> (r:
        QueryPlan)
        ensures
            r.limit == spec_clamp_limit(limit),
            r.offset == offset,
            r.order_by@ == spec_sent_name_column(order_by@),
            r.order == match spec_direction(order@) {
                Some(d) => d,
                None => Direction::Asc,
            },
    {
        let column = if str_eq(order_by, "amount") {
            "amount"
        } else if str_eq(order_by, "date") {
            "date"
        } else if str_eq(order_by, "from") {
            "from"
        } else if str_eq(order_by, "to") {
            "to"
        } else {
            "id"
        };
        QueryPlan {
            limit: clamp_limit(limit),
            offset,
            order_by: column,
            order: direction_or_asc(order),
        }
    }

    /// How the transactions that concern `address_count` addresses are
    /// looked up; `None` where no addresses were given, in which case
    /// nothing is looked up and nothing is found.
    pub fn lookup_transactions(
        address_count: Option<usize>,
        limit: i64,
        offset: i64,
        order_by: &str,
        order: &str,
        include_mined: bool,
    ) -> (r: Option<LookupPlan>)
        requires
            address_count.is_some() ==> address_count.unwrap() + 2 <= usize::MAX,
        ensures
            r.is_some() == address_count.is_some(),
            r.is_some() ==> {
                let plan = r.unwrap();
                let n = address_count.unwrap();
                &&& plan.where_clause@ == spec_where_clause(n as nat, include_mined)
                &&& plan.order_by@ == spec_lookup_column(order_by@)
                &&& plan.order == match spec_direction(order@) {
                    Some(d) => d,
                    None => Direction::Asc,
                }
                &&& plan.limit == spec_clamp_limit(limit)
                &&& plan.offset == offset
                &&& plan.limit_param == n + 1
                &&& plan.offset_param == n + 2
            },
    {
        let n = match address_count {
            Some(n) => n,
            None => {
                return None;
            },
        };
        let column = if str_eq(order_by, "from") {
            "from"
        } else if str_eq(order_by, "to") {
            "to"
        } else if str_eq(order_by, "amount") {
            "amount"
        } else if str_eq(order_by, "date") {
            "date"
        } else if str_eq(order_by, "sent_name") {
            "sent_name"
        } else if str_eq(order_by, "sent_metaname") {
            "sent_metaname"
        } else {
            "id"
        };
        let mut clause = String::from_str("(");
        let mut i: usize = 0;
        while i < n
            invariant
                i <= n,
                clause@ == "("@ + spec_party_conditions(i as nat),
            decreases n - i,
        {
            let ghost before = clause@;
            if i > 0 {
                clause.append(" OR ");
            }
            clause.append("(\"from\" = $");
            push_nat(&mut clause, (i + 1) as u64);
            clause.append(" OR \"to\" = $");
            push_nat(&mut clause, (i + 1) as u64);
            clause.append(")");
            assert(clause@ =~= "("@ + spec_party_conditions((i + 1) as nat));
            i += 1;
        }
        clause.append(")");
        if !include_mined {
            clause.append(" AND transaction_type != 'mined'");
        }
        assert(clause@ =~= spec_where_clause(n as nat, include_mined));
        Some(
            LookupPlan {
                where_clause: clause,
                order_by: column,
                order: direction_or_asc(order),
                limit: clamp_limit(limit),
                offset,
                limit_param: n + 1,
                offset_param: n + 2,
            },
        )
    }
}

/// The name a payment was addressed to, as written in its metadata:
/// `name.kro`, or `metaname@name.kro`.
#[derive(Debug, Clone, PartialEq, PartialOrd)]
pub struct TransactionNameData {
    pub name: Option<String>,
    pub metaname: Option<String>,
}

/// Mathematical content of a [`TransactionNameData`].
pub ghost struct NameDataView {
    pub name: Option<Seq<char>>,
    pub metaname: Option<Seq<char>>,
}

impl View for TransactionNameData {
    type V = NameDataView;

    open spec fn view(&self) -> NameDataView {
        NameDataView { name: self.name.deep_view(), metaname: self.metaname.deep_view() }
    }
}

/// The characters a name is made of: lower-case letters and digits.
pub open spec fn is_name_char(c: char) -> bool {
    ('a' <= c && c <= 'z') || ('0' <= c && c <= '9')
}

/// The characters a metaname is made of: those of a name, `-` and `_`.
pub open spec fn is_metaname_char(c: char) -> bool {
    is_name_char(c) || c == '-' || c == '_'
}

/// How many name characters stand in a row in `s` from position `from`.
pub open spec fn name_run(s: Seq<char>, from: int) -> int
    decreases s.len() - from,
{
    if 0 <= from < s.len() && is_name_char(s[from]) {
        1 + name_run(s, from + 1)
    } else {
        0
    }
}

/// How many metaname characters stand in a row at the start of `s` from
/// position `from`.
pub open spec fn metaname_run(s: Seq<char>, from: int) -> int
    decreases s.len() - from,
{
    if 0 <= from < s.len() && is_metaname_char(s[from]) {
        1 + metaname_run(s, from + 1)
    } else {
        0
    }
}

/// Whether the four characters `.kro` stand in `s` at position `at`.
pub open spec fn has_suffix_at(s: Seq<char>, at: int) -> bool {
    &&& 0 <= at
    &&& at + 4 <= s.len()
    &&& s[at] == '.'
    &&& s[at + 1] == 'k'
    &&& s[at + 2] == 'r'
    &&& s[at + 3] == 'o'
}

/// The length of the name that starts at `from`, if one does: between 1
/// and 64 name characters, followed at once by `.kro`.
pub open spec fn name_at(s: Seq<char>, from: int) -> Option<int> {
    let n = name_run(s, from);
    if 1 <= n <= 64 && has_suffix_at(s, from + n) {
        Some(n)
    } else {
        None
    }
}

/// The length of the metaname that `s` starts with, if it starts with one:
/// between 1 and 32 metaname characters, followed at once by `@`.
pub open spec fn metaname_at_start(s: Seq<char>) -> Option<int> {
    let m = metaname_run(s, 0);
    if 1 <= m <= 32 && m < s.len() && s[m] == '@' {
        Some(m)
    } else {
        None
    }
}

/// What a piece of metadata names. The text must start with the name, with
/// or without a metaname before it; what follows `.kro` is not looked at.
/// Text that names nothing gives the empty value.
pub open spec fn spec_parse(s: Seq<char>) -> NameDataView {
    match metaname_at_start(s) {
        Some(m) => match name_at(s, m + 1) {
            Some(n) => NameDataView {
                name: Some(s.subrange(m + 1, m + 1 + n)),
                metaname: Some(s.subrange(0, m)),
            },
            None => NameDataView { name: None, metaname: None },
        },
        None => match name_at(s, 0) {
            Some(n) => NameDataView { name: Some(s.subrange(0, n)), metaname: None },
            None => NameDataView { name: None, metaname: None },
        },
    }
}

fn is_name_char_exec(c: char) -> (r: bool)
    ensures
        r == is_name_char(c),
{
    ('a' <= c && c <= 'z') || ('0' <= c && c <= '9')
}

fn is_metaname_char_exec(c: char) -> (r: bool)
    ensures
        r == is_metaname_char(c),
{
    is_name_char_exec(c) || c == '-' || c == '_'
}

fn in_class(c: char, meta: bool) -> (r: bool)
    ensures
        r == if meta {
            is_metaname_char(c)
        } else {
            is_name_char(c)
        },
{
    if meta {
        is_metaname_char_exec(c)
    } else {
        is_name_char_exec(c)
    }
}

/// Counts the name characters (or, with `meta`, the metaname characters)
/// that stand in a row from `from`, looking at no more than `limit + 1`.
fn run_up_to(chars: &Vec<char>, from: usize, limit: usize, meta: bool) -> (n: usize)
    requires
        from <= chars.len(),
        limit < 1000,
    ensures
        n <= limit + 1,
        from + n <= chars.len(),
        ({
            let full = if meta {
                metaname_run(chars@, from as int)
            } else {
                name_run(chars@, from as int)
            };
            if full <= limit {
                n == full
            } else {
                n == limit + 1
            }
        }),
{
    let mut n: usize = 0;
    while n <= limit && from + n < chars.len() && in_class(chars[from + n], meta)
        invariant
            n <= limit + 1,
            limit < 1000,
            from + n <= chars.len(),
            meta ==> metaname_run(chars@, from as int) == n + metaname_run(chars@, from + n),
            !meta ==> name_run(chars@, from as int) == n + name_run(chars@, from + n),
        decreases limit + 1 - n,
    {
        n += 1;
    }
    proof {
        lemma_runs_nonnegative(chars@, from + n);
    }
    n
}

proof fn lemma_runs_nonnegative(s: Seq<char>, from: int)
    ensures
        name_run(s, from) >= 0,
        metaname_run(s, from) >= 0,
    decreases s.len() - from,
{
    if 0 <= from < s.len() {
        lemma_runs_nonnegative(s, from + 1);
    }
}

fn has_suffix_at_exec(chars: &Vec<char>, at: usize) -> (r: bool)
    requires
        at <= chars.len(),
    ensures
        r == has_suffix_at(chars@, at as int),
{
    chars.len() - at >= 4 && chars[at] == '.' && chars[at + 1] == 'k' && chars[at + 2] == 'r'
        && chars[at + 3] == 'o'
}

fn name_at_exec(chars: &Vec<char>, from: usize) -> (r: Option<usize>)
    requires
        from <= chars.len(),
    ensures
        r.is_some() == name_at(chars@, from as int).is_some(),
        r.is_some() ==> r.unwrap() == name_at(chars@, from as int).unwrap() && from + r.unwrap()
            <= chars.len(),
{
    let n = run_up_to(chars, from, 64, false);
    if 1 <= n && n <= 64 && has_suffix_at_exec(chars, from + n) {
        Some(n)
    } else {
        None
    }
}

impl TransactionNameData {
    /// The value that names nothing.
    pub fn empty() -> (r: Self)
        ensures
            r@ == (NameDataView { name: None, metaname: None }),
    {
        TransactionNameData { name: None, metaname: None }
    }

    /// Reads the name a payment was addressed to from its metadata, which
    /// has the form `metaname@name.kro` or `name.kro`.
    ///
    /// Empty input, and input of any other form, gives the empty value.
    pub fn parse(input: &str) -> (r: Self)
        ensures
            r@ == spec_parse(input@),
    {
        let chars = chars_of(input);
        let m = run_up_to(&chars, 0, 32, true);
        if 1 <= m && m <= 32 && m < chars.len() && chars[m] == '@' {
            match name_at_exec(&chars, m + 1) {
                Some(n) => {
                    let metaname = String::from_str(input.substring_char(0, m));
                    let name = String::from_str(input.substring_char(m + 1, m + 1 + n));
                    TransactionNameData { name: Some(name), metaname: Some(metaname) }
                },
                None => Self::empty(),
            }
        } else {
            match name_at_exec(&chars, 0) {
                Some(n) => {
                    let name = String::from_str(input.substring_char(0, n));
                    TransactionNameData { name: Some(name), metaname: None }
                },
                None => Self::empty(),
            }
        }
    }

    /// Like [`Self::parse`], for metadata that may be missing: no metadata
    /// names nothing.
    pub fn parse_opt(input: Option<&str>) -> (r: Self)
        ensures
            r@ == match input {
                Some(s) => spec_parse(s@),
                None => NameDataView { name: None, metaname: None },
            },
    {
        match input {
            Some(s) => Self::parse(s),
            None => Self::empty(),
        }
    }

    /// Like [`Self::parse_opt`], for metadata held by reference.
    pub fn parse_opt_ref(input: &Option<String>) -> (r: Self)
        ensures
            r@ == match input {
                Some(s) => spec_parse(s@),
                None => NameDataView { name: None, metaname: None },
            },
    {
        match input {
            Some(s) => Self::parse(s.as_str()),
            None => Self::empty(),
        }
    }

    /// Return the name as a string slice.
    pub fn name(&self) -> (r: Option<&str>)
        ensures
            r.is_some() == self.name.is_some(),
            r.is_some() ==> r.unwrap()@ == self.name.unwrap()@,
    {
        match &self.name {
            Some(s) => Some(s.as_str()),
            None => None,
        }
    }

    /// Return the metaname as a string slice.
    pub fn metaname(&self) -> (r: Option<&str>)
        ensures
            r.is_some() == self.metaname.is_some(),
            r.is_some() ==> r.unwrap()@ == self.metaname.unwrap()@,
    {
        match &self.metaname {
            Some(s) => Some(s.as_str()),
            None => None,
        }
    }
}

impl Default for TransactionNameData {
    fn default() -> (r: Self)
        ensures
            r@ == (NameDataView { name: None, metaname: None }),
    {
        TransactionNameData { name: None, metaname: None }
    }
}

} // verus!
