use vstd::prelude::*;

use crate::database::name::{spec_names_order_column, Model as Name, NameError, NamesPlan};
use crate::database::query::{spec_clamp_limit, spec_direction, Direction, QueryPlan, DEFAULT_LIMIT};
use crate::database::transaction::{
    spec_history_column, spec_sent_name_column, Model as Transaction,
};
use crate::routes::krist::lookup::{parse_addresses, spec_parse_addresses};

verus! {

/// What a lookup asks for when the request does not say: 50 rows from the
/// start, and an order that the listing names.
pub open spec fn text_or(given: Option<&str>, default: Seq<char>) -> Seq<char> {
    match given {
        Some(s) => s@,
        None => default,
    }
}

pub open spec fn number_or(given: Option<i64>, default: i64) -> i64 {
    match given {
        Some(n) => n,
        None => default,
    }
}

/// The names of a set of owners: whose names are listed, and how.
///
/// `addresses` is the path segment that lists the owners; if it lists none,
/// the names of all owners are listed. Without further word the listing has
/// 50 rows from the start, by name, ascending.
pub fn names_lookup(
    addresses: &str,
    limit: Option<i64>,
    offset: Option<i64>,
    order_by: Option<&str>,
    order: Option<&str>,
) -> (r: Result<(Option<Vec<String>>, NamesPlan), NameError>)
    ensures
        match r {
            Ok((owners, plan)) => {
                &&& owners.deep_view() == if spec_parse_addresses(addresses@).len() == 0 {
                    None
                } else {
                    Some(spec_parse_addresses(addresses@))
                }
                &&& spec_names_order_column(text_or(order_by, "name"@)) == Some(plan.order_by@)
                &&& spec_direction(text_or(order, "ASC"@)) == Some(plan.order)
                &&& plan.limit == number_or(limit, DEFAULT_LIMIT)
                &&& plan.offset == number_or(offset, 0)
            },
            Err(e) => if spec_names_order_column(text_or(order_by, "name"@)).is_none() {
                e == NameError::InvalidOrderBy
            } else {
                e == NameError::InvalidOrder && spec_direction(text_or(order, "ASC"@)).is_none()
            },
        },
{
    let owners = parse_addresses(addresses);
    let limit = match limit {
        Some(l) => l,
        None => DEFAULT_LIMIT,
    };
    let offset = match offset {
        Some(o) => o,
        None => 0,
    };
    let order_by = match order_by {
        Some(c) => c,
        None => "name",
    };
    let order = match order {
        Some(o) => o,
        None => "ASC",
    };
    let address_list = if owners.len() == 0 {
        None
    } else {
        Some(owners)
    };
    match Name::lookup_names(limit, offset, order_by, order) {
        Ok(plan) => Ok((address_list, plan)),
        Err(e) => Err(e),
    }
}

/// How the history of a name is listed: without further word 50 rows from
/// the start, by id, ascending.
pub fn name_history(
    limit: Option<i64>,
    offset: Option<i64>,
    order_by: Option<&str>,
    order: Option<&str>,
) -> (r: QueryPlan)
    ensures
        r.limit == spec_clamp_limit(number_or(limit, DEFAULT_LIMIT)),
        r.offset == number_or(offset, 0),
        r.order_by@ == spec_history_column(text_or(order_by, "id"@)),
        r.order == match spec_direction(text_or(order, "ASC"@)) {
            Some(d) => d,
            None => Direction::Asc,
        },
{
    let limit = match limit {
        Some(l) => l,
        None => DEFAULT_LIMIT,
    };
    let offset = match offset {
        Some(o) => o,
        None => 0,
    };
    let order_by = match order_by {
        Some(c) => c,
        None => "id",
    };
    let order = match order {
        Some(o) => o,
        None => "ASC",
    };
    Transaction::fetch_name_history(limit, offset, order_by, order)
}

/// How the payments to a name are listed: without further word 50 rows from
/// the start, by id, descending.
pub fn name_transactions(
    limit: Option<i64>,
    offset: Option<i64>,
    order_by: Option<&str>,
    order: Option<&str>,
) -> (r: QueryPlan)
    ensures
        r.limit == spec_clamp_limit(number_or(limit, DEFAULT_LIMIT)),
        r.offset == number_or(offset, 0),
        r.order_by@ == spec_sent_name_column(text_or(order_by, "id"@)),
        r.order == match spec_direction(text_or(order, "DESC"@)) {
            Some(d) => d,
            None => Direction::Asc,
        },
{
    let limit = match limit {
        Some(l) => l,
        None => DEFAULT_LIMIT,
    };
    let offset = match offset {
        Some(o) => o,
        None => 0,
    };
    let order_by = match order_by {
        Some(c) => c,
        None => "id",
    };
    let order = match order {
        Some(o) => o,
        None => "DESC",
    };
    Transaction::fetch_by_sent_name(limit, offset, order_by, order)
}

} // verus!
