use vstd::prelude::*;

use crate::database::query::{spec_clamp_limit, spec_direction, Direction, DEFAULT_LIMIT};
use crate::database::transaction::{
    spec_lookup_column, spec_where_clause, LookupPlan, Model as Transaction,
};
use crate::routes::krist::lookup::names::{number_or, text_or};
use crate::routes::krist::lookup::{parse_addresses, spec_parse_addresses};

verus! {

/// The transactions of a set of addresses: whose transactions are looked
/// up, and how; `None` where `addresses` lists no address (or more than
/// can be numbered), in which case nothing is looked up and nothing is
/// found.
///
/// Without further word the listing has 50 rows from the start, by id,
/// descending. Mined rows are left out unless `include_mined` is given,
/// whatever it is given as.
pub fn transactions_lookup(
    addresses: &str,
    limit: Option<i64>,
    offset: Option<i64>,
    order_by: Option<&str>,
    order: Option<&str>,
    include_mined: Option<bool>,
) -> (r: Option<(Vec<String>, LookupPlan)>)
    ensures
        r.is_some() == (0 < spec_parse_addresses(addresses@).len() <= usize::MAX - 2),
        r.is_some() ==> {
            let (parties, plan) = r.unwrap();
            &&& parties.deep_view() == spec_parse_addresses(addresses@)
            &&& plan.where_clause@ == spec_where_clause(
                parties.len() as nat,
                include_mined.is_some(),
            )
            &&& plan.order_by@ == spec_lookup_column(text_or(order_by, "id"@))
            &&& plan.order == match spec_direction(text_or(order, "DESC"@)) {
                Some(d) => d,
                None => Direction::Asc,
            }
            &&& plan.limit == spec_clamp_limit(number_or(limit, DEFAULT_LIMIT))
            &&& plan.offset == number_or(offset, 0)
            &&& plan.limit_param == parties.len() + 1
            &&& plan.offset_param == parties.len() + 2
        },
{
    let parties = parse_addresses(addresses);
    if parties.len() == 0 || parties.len() > usize::MAX - 2 {
        return None;
    }
    let limit = match limit {
        Some(l) => l,
        None => DEFAULT_LIMIT,
    };
    let offset = match offset {
        Some(o) => o,
        None => 0,
    };
    let order_by = match order_by {
        Some(c) => c,
        None => "id",
    };
    let order = match order {
        Some(o) => o,
        None => "DESC",
    };
    match Transaction::lookup_transactions(
        Some(parties.len()),
        limit,
        offset,
        order_by,
        order,
        include_mined.is_some(),
    ) {
        Some(plan) => Some((parties, plan)),
        None => None,
    }
}

} // verus!
