use vstd::prelude::*;

use crate::database::ledger::{Ledger, LedgerView, TransferError};
use crate::database::query::{
    clamp_limit, direction, spec_clamp_limit, spec_direction, Direction, DEFAULT_LIMIT,
};
use crate::database::transaction::{
    is_name_char, CreateView, TransactionCreateData, TransactionType,
};
use crate::database::wallet::{Model as Wallet, VerifyResponse};
use crate::models::krist::names::NameDataUpdateBody;
use crate::models::krist::websockets::{EventView, WebSocketEvent};
use crate::routes::PaginationParams;
use crate::text::{chars_of, clone_opt_string, opt_str_eq, str_eq};

verus! {

/// A registered name.
#[derive(Debug, Clone, PartialEq)]
pub struct Model {
    pub id: i32,
    pub last_transfered: Option<i64>,
    pub last_updated: Option<i64>,
    pub name: String,
    pub owner: String,
    pub original_owner: String,
    pub time_registered: i64,
    pub unpaid: u64,
    pub metadata: Option<String>,
}

/// Mathematical content of a name row.
pub ghost struct NameView {
    pub id: i32,
    pub last_transfered: Option<i64>,
    pub last_updated: Option<i64>,
    pub name: Seq<char>,
    pub owner: Seq<char>,
    pub original_owner: Seq<char>,
    pub time_registered: i64,
    pub unpaid: u64,
    pub metadata: Option<Seq<char>>,
}

impl View for Model {
    type V = NameView;

    open spec fn view(&self) -> NameView {
        NameView {
            id: self.id,
            last_transfered: self.last_transfered,
            last_updated: self.last_updated,
            name: self.name@,
            owner: self.owner@,
            original_owner: self.original_owner@,
            time_registered: self.time_registered,
            unpaid: self.unpaid,
            metadata: self.metadata.deep_view(),
        }
    }
}

/// Why a request about names was refused.
#[derive(Debug, Clone, Copy, PartialEq, Eq, Structural)]
pub enum NameError {
    /// The request's `name` is missing or is not a name.
    InvalidName,
    /// The request's record is not one.
    InvalidRecord,
    /// The private key is not the right one.
    AuthFailed,
    NameNotFound,
    NotNameOwner,
    /// The listing asks for a column that names cannot be ordered by.
    InvalidOrderBy,
    /// The listing asks for a direction that is neither `ASC` nor `DESC`.
    InvalidOrder,
}

/// The form of a name: between 1 and 64 lower-case letters and digits.
pub open spec fn spec_valid_name(s: Seq<char>) -> bool {
    1 <= s.len() <= 64 && forall|i: int| 0 <= i < s.len() ==> is_name_char(#[trigger] s[i])
}

/// Whether `name` has the form of a name.
pub fn is_valid_name(name: &str) -> (r: bool)
    ensures
        r == spec_valid_name(name@),
{
    let chars = chars_of(name);
    if chars.len() < 1 || chars.len() > 64 {
        return false;
    }
    let mut i: usize = 0;
    while i < chars.len()
        invariant
            i <= chars.len(),
            chars@ == name@,
            forall|j: int| 0 <= j < i ==> is_name_char(#[trigger] chars@[j]),
        decreases chars.len() - i,
    {
        let c = chars[i];
        if !(('a' <= c && c <= 'z') || ('0' <= c && c <= '9')) {
            return false;
        }
        i += 1;
    }
    true
}

/// What is to be done about a request to change a name's record.
#[derive(Debug, PartialEq)]
pub enum MetadataUpdate {
    /// The record is what was asked for already: the name is returned as
    /// it is.
    Unchanged(Model),
    /// The name, with its new record, is to be stored.
    Changed(Model),
}

/// The columns that names can be ordered by, and what stands for each in
/// the text of a query.
pub open spec fn spec_names_order_column(order_by: Seq<char>) -> Option<Seq<char>> {
    if order_by == "transferredOrRegistered"@ {
        Some("COALESCE(last_transfered, time_registered)"@)
    } else if order_by == "registered"@ {
        Some("time_registered"@)
    } else if order_by == "transferred"@ {
        Some("last_transfered"@)
    } else if order_by == "name"@ {
        Some("name"@)
    } else if order_by == "owner"@ {
        Some("owner"@)
    } else {
        None
    }
}

/// How names are listed.
#[derive(Debug, Clone, PartialEq)]
pub struct NamesPlan {
    /// What the listing is ordered by, as it stands in the text of the query.
    pub order_by: &'static str,
    pub order: Direction,
    pub limit: i64,
    pub offset: i64,
}

impl Model {
    /// An independent copy of the row.
    pub fn duplicate(&self) -> (r: Self)
        ensures
            r@ == self@,
    {
        Model {
            id: self.id,
            last_transfered: self.last_transfered,
            last_updated: self.last_updated,
            name: self.name.clone(),
            owner: self.owner.clone(),
            original_owner: self.original_owner.clone(),
            time_registered: self.time_registered,
            unpaid: self.unpaid,
            metadata: clone_opt_string(&self.metadata),
        }
    }

    /// The page that a plain listing returns, as `(limit, offset)`.
    pub fn fetch_all(limit: i64, offset: i64) -> (r: (i64, i64))
        ensures
            r == (spec_clamp_limit(limit), offset),
    {
        (clamp_limit(limit), offset)
    }

    /// The page that the listing of unpaid names returns, as
    /// `(limit, offset)`.
    pub fn all_unpaid(pagination: &PaginationParams) -> (r: (i64, i64))
        ensures
            r.0 == spec_clamp_limit(
                match pagination.limit {
                    Some(l) => l,
                    None => DEFAULT_LIMIT,
                },
            ),
            r.1 == match pagination.offset {
                Some(o) => o,
                None => 0,
            },
    {
        let limit = match pagination.limit {
            Some(l) => l,
            None => DEFAULT_LIMIT,
        };
        let offset = match pagination.offset {
            Some(o) => o,
            None => 0,
        };
        (clamp_limit(limit), offset)
    }

    /// The row of a name that `owner` registers at `now` under the id `id`.
    pub fn create(id: i32, name: String, owner: String, now: i64) -> (r: Self)
        ensures
            r@ == (NameView {
                id,
                last_transfered: None,
                last_updated: None,
                name: name@,
                owner: owner@,
                original_owner: owner@,
                time_registered: now,
                unpaid: 0,
                metadata: None,
            }),
    {
        Model {
            id,
            last_transfered: None,
            last_updated: None,
            name,
            original_owner: owner.clone(),
            owner,
            time_registered: now,
            unpaid: 0,
            metadata: None,
        }
    }

    /// The name with a new record.
    pub fn update_metadata(self, metadata: String) -> (r: Self)
        ensures
            r@ == (NameView { metadata: Some(metadata@), ..self@ }),
    {
        Model {
            id: self.id,
            last_transfered: self.last_transfered,
            last_updated: self.last_updated,
            name: self.name,
            owner: self.owner,
            original_owner: self.original_owner,
            time_registered: self.time_registered,
            unpaid: self.unpaid,
            metadata: Some(metadata),
        }
    }

    /// Decides a request to change the record of the name `name`.
    ///
    /// `record_valid` tells whether the record in `body` has the form of a
    /// record, `verification` what checking the key in `body` against the
    /// store came to, and `stored` is the name as the store holds it. The
    /// checks are made in this order: the request carries a record; the name
    /// is a name; the record is a record; the key is right; the name exists;
    /// the key's wallet owns it.
    pub fn ctrl_update_metadata(
        name: &str,
        body: NameDataUpdateBody,
        record_valid: bool,
        verification: &VerifyResponse,
        stored: Option<Model>,
    ) -> (r: Result<MetadataUpdate, NameError>)
        ensures
            match r {
                Err(e) => e == if body.a.is_none() || !spec_valid_name(name@) {
                    NameError::InvalidName
                } else if !record_valid {
                    NameError::InvalidRecord
                } else if !verification.authed {
                    NameError::AuthFailed
                } else if stored.is_none() {
                    NameError::NameNotFound
                } else {
                    NameError::NotNameOwner
                } && (body.a.is_none() || !spec_valid_name(name@) || !record_valid
                    || !verification.authed || stored.is_none() || stored.unwrap().owner@
                    != verification.model.address@),
                Ok(update) => {
                    &&& body.a.is_some()
                    &&& spec_valid_name(name@)
                    &&& record_valid
                    &&& verification.authed
                    &&& stored.is_some()
                    &&& stored.unwrap().owner@ == verification.model.address@
                    &&& match update {
                        MetadataUpdate::Unchanged(model) => model == stored.unwrap()
                            && model.metadata.deep_view() == Some(body.a.unwrap()@),
                        MetadataUpdate::Changed(model) => model@ == (NameView {
                            metadata: Some(body.a.unwrap()@),
                            ..stored.unwrap()@
                        }) && stored.unwrap().metadata.deep_view() != Some(body.a.unwrap()@),
                    }
                },
            },
    {
        let metadata_record = match body.a {
            Some(record) => record,
            None => {
                return Err(NameError::InvalidName);
            },
        };
        if !is_valid_name(name) {
            return Err(NameError::InvalidName);
        }
        if !record_valid {
            return Err(NameError::InvalidRecord);
        }
        if !verification.authed {
            return Err(NameError::AuthFailed);
        }
        let model = match stored {
            Some(model) => model,
            None => {
                return Err(NameError::NameNotFound);
            },
        };
        if !str_eq(model.owner.as_str(), verification.model.address.as_str()) {
            return Err(NameError::NotNameOwner);
        }
        if opt_str_eq(&model.metadata, metadata_record.as_str()) {
            return Ok(MetadataUpdate::Unchanged(model));
        }
        Ok(MetadataUpdate::Changed(model.update_metadata(metadata_record)))
    }

    /// The wallet that owns the name, if the ledger holds it.
    pub fn owner(&self, ledger: &Ledger) -> (r: Option<Wallet>)
        ensures
            match r {
                Some(w) => ledger@.find(self.owner@).is_some() && w@ == ledger@.wallets[ledger@.find(
                    self.owner@,
                ).unwrap()],
                None => ledger@.find(self.owner@).is_none(),
            },
    {
        ledger.wallet(self.owner.as_str())
    }

    /// The transfer that logs a change of ownership: nothing is paid, from
    /// the old owner to the new one.
    pub open spec fn spec_ownership_request(name: NameView, new_owner: Seq<char>) -> CreateView {
        CreateView {
            from: name.owner,
            to: new_owner,
            amount: 0,
            metadata: None,
            name: Some(name.name),
            sent_metaname: None,
            sent_name: None,
            transaction_type: TransactionType::NameTransfer,
        }
    }

    /// Transfers the name to the wallet `new_owner_address` at `now`, and
    /// logs the transfer in the ledger. Returns the name as it is to be
    /// stored, and the event to broadcast. If the transfer cannot be logged
    /// nothing happens.
    pub fn transfer_ownership(self, ledger: &mut Ledger, new_owner_address: String, now: i64) -> (r:
        Result<(Model, WebSocketEvent), TransferError>)
        requires
            old(ledger).wf(),
        ensures
            final(ledger).wf(),
            match r {
                Ok((updated, event)) => {
                    &&& old(ledger)@.transfer(
                        Self::spec_ownership_request(self@, new_owner_address@),
                        now,
                    ) == Ok::<LedgerView, TransferError>(final(ledger)@)
                    &&& updated@ == (NameView {
                        owner: new_owner_address@,
                        last_updated: Some(now),
                        last_transfered: Some(now),
                        ..self@
                    })
                    &&& event@ == (EventView::Transaction {
                        from: Some(self.owner@),
                        to: new_owner_address@,
                    })
                },
                Err(e) => {
                    &&& old(ledger)@.transfer(
                        Self::spec_ownership_request(self@, new_owner_address@),
                        now,
                    ) == Err::<LedgerView, TransferError>(e)
                    &&& final(ledger)@ == old(ledger)@
                },
            },
    {
        let creation_data = TransactionCreateData {
            from: self.owner.clone(),
            to: new_owner_address.clone(),
            amount: 0,
            metadata: None,
            name: Some(self.name.clone()),
            sent_metaname: None,
            sent_name: None,
            transaction_type: TransactionType::NameTransfer,
        };
        let transaction = match ledger.transfer(creation_data, now) {
            Ok(row) => row,
            Err(e) => {
                return Err(e);
            },
        };
        let event = WebSocketEvent::transaction(&transaction);
        let updated = Model {
            id: self.id,
            last_transfered: Some(now),
            last_updated: Some(now),
            name: self.name,
            owner: new_owner_address,
            original_owner: self.original_owner,
            time_registered: self.time_registered,
            unpaid: self.unpaid,
            metadata: self.metadata,
        };
        Ok((updated, event))
    }

    /// How names are listed. A column that names cannot be ordered by and a
    /// direction that is neither `ASC` nor `DESC` are refused, in that order.
    pub fn lookup_names(limit: i64, offset: i64, order_by: &str, order: &str) -> (r: Result<
        NamesPlan,
        NameError,
    >)
        ensures
            match r {
                Ok(plan) => {
                    &&& spec_names_order_column(order_by@) == Some(plan.order_by@)
                    &&& spec_direction(order@) == Some(plan.order)
                    &&& plan.limit == limit
                    &&& plan.offset == offset
                },
                Err(e) => if spec_names_order_column(order_by@).is_none() {
                    e == NameError::InvalidOrderBy
                } else {
                    e == NameError::InvalidOrder && spec_direction(order@).is_none()
                },
            },
    {
        let column = if str_eq(order_by, "transferredOrRegistered") {
            "COALESCE(last_transfered, time_registered)"
        } else if str_eq(order_by, "registered") {
            "time_registered"
        } else if str_eq(order_by, "transferred") {
            "last_transfered"
        } else if str_eq(order_by, "name") {
            "name"
        } else if str_eq(order_by, "owner") {
            "owner"
        } else {
            return Err(NameError::InvalidOrderBy);
        };
        let order = match direction(order) {
            Some(d) => d,
            None => {
                return Err(NameError::InvalidOrder);
            },
        };
        Ok(NamesPlan { order_by: column, order, limit, offset })
    }
}

} // verus!
