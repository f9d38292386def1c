use vstd::prelude::*;

use crate::clock::{spec_rfc3339, spec_time_text, time_text};
use crate::database::name;

verus! {

#[derive(Debug, Clone, PartialEq, PartialOrd)]
pub struct NameListResponse {
    pub ok: bool,
    /// The count of results.
    pub count: usize,
    /// The total amount of names.
    pub total: usize,
    pub names: Vec<NameJson>,
}

#[derive(Debug, Clone, PartialEq, PartialOrd)]
pub struct NameResponse {
    pub ok: bool,
    pub name: NameJson,
}

#[derive(Debug, Clone, PartialEq, PartialOrd)]
pub struct NameCostResponse {
    pub ok: bool,
    pub name_cost: i64,
}

#[derive(Debug, Clone, PartialEq, PartialOrd)]
pub struct DetailedUnpaidResponseRow {
    pub count: i64,
    pub unpaid: i64,
}

#[derive(Debug, Clone, PartialEq)]
pub struct NameAvailablityResponse {
    pub ok: bool,
    pub available: bool,
}

#[derive(Debug, Clone, PartialEq)]
pub struct NameBonusResponse {
    pub ok: bool,
    pub name_bonus: i64,
}

#[derive(Debug, Clone, PartialEq, PartialOrd)]
pub struct RegisterNameRequest {
    pub private_key: String,
}

#[derive(Debug, Clone, PartialEq, PartialOrd)]
pub struct TransferNameRequest {
    pub address: String,
    pub private_key: String,
}

#[derive(Debug, Clone, PartialEq, PartialOrd)]
pub struct NameDataUpdateBody {
    /// The data you want to set for the name.
    pub a: Option<String>,
    pub private_key: String,
}

/// A name as the Krist-compatible endpoints show it.
#[derive(Debug, Clone, PartialEq, PartialOrd)]
pub struct NameJson {
    pub name: String,
    pub owner: String,
    pub registered: String,
    pub updated: Option<String>,
    pub transferred: Option<String>,
    pub a: Option<String>,
    pub unpaid: i64,
}

/// The text of an optional point in time.
pub open spec fn spec_opt_time_text(t: Option<i64>) -> Option<Seq<char>> {
    match t {
        Some(t) => Some(spec_time_text(spec_rfc3339(t))),
        None => None,
    }
}

fn opt_time_text(t: Option<i64>) -> (r: Option<String>)
    ensures
        r.deep_view() == spec_opt_time_text(t),
{
    match t {
        Some(t) => Some(time_text(t)),
        None => None,
    }
}

impl NameJson {
    /// Shows a name. An unpaid amount too large to show is shown as 0.
    pub fn from_model(name: name::Model) -> (r: Self)
        ensures
            r.name@ == name.name@,
            r.owner@ == name.owner@,
            r.registered@ == spec_time_text(spec_rfc3339(name.time_registered)),
            r.updated.deep_view() == spec_opt_time_text(name.last_updated),
            r.transferred.deep_view() == spec_opt_time_text(name.last_transfered),
            r.a.deep_view() == name.metadata.deep_view(),
            r.unpaid == if name.unpaid <= i64::MAX {
                name.unpaid as i64
            } else {
                0i64
            },
    {
        NameJson {
            registered: time_text(name.time_registered),
            updated: opt_time_text(name.last_updated),
            transferred: opt_time_text(name.last_transfered),
            unpaid: if name.unpaid <= i64::MAX as u64 {
                name.unpaid as i64
            } else {
                0
            },
            name: name.name,
            owner: name.owner,
            a: name.metadata,
        }
    }
}

impl NameListResponse {
    /// A page of `names` out of `total`.
    pub fn new(names: Vec<NameJson>, total: usize) -> (r: Self)
        ensures
            r.ok,
            r.count == names.len(),
            r.total == total,
            r.names == names,
    {
        NameListResponse { ok: true, count: names.len(), total, names }
    }
}

} // verus!
