//! The parts of a listing that are decided before the store is asked: how
//! many rows, in what order.
//!
//! Column names and directions end up in the text of a query, so nothing
//! that a request supplies is passed through: each is matched against the
//! names that are allowed, and the name that goes into the text is one of
//! this module's own.

use vstd::prelude::*;

use crate::text::{spec_uppercase, str_eq, to_uppercase};

verus! {

/// The fewest and the most rows a listing returns.
pub const MIN_LIMIT: i64 = 1;

pub const MAX_LIMIT: i64 = 1000;

/// How many rows a listing returns when the request does not say.
pub const DEFAULT_LIMIT: i64 = 50;

/// The number of rows a listing returns for a requested `limit`: the limit,
/// but no fewer than 1 and no more than 1000.
pub open spec fn spec_clamp_limit(limit: i64) -> i64 {
    if limit < MIN_LIMIT {
        MIN_LIMIT
    } else if limit > MAX_LIMIT {
        MAX_LIMIT
    } else {
        limit
    }
}

/// The number of rows a listing returns for a requested `limit`.
pub fn clamp_limit(limit: i64) -> (r: i64)
    ensures
        r == spec_clamp_limit(limit),
{
    if limit < MIN_LIMIT {
        MIN_LIMIT
    } else if limit > MAX_LIMIT {
        MAX_LIMIT
    } else {
        limit
    }
}

/// The direction of a listing.
#[derive(Debug, Clone, Copy, PartialEq, Eq, Structural)]
pub enum Direction {
    Asc,
    Desc,
}

impl Direction {
    /// The keyword that asks the store for this direction.
    pub fn as_str(&self) -> (r: &'static str)
        ensures
            r@ == match *self {
                Direction::Asc => "ASC"@,
                Direction::Desc => "DESC"@,
            },
    {
        match self {
            Direction::Asc => "ASC",
            Direction::Desc => "DESC",
        }
    }
}

/// The direction that `order` asks for, read without regard to case: `ASC`
/// or `DESC`; anything else asks for none.
pub open spec fn spec_direction(order: Seq<char>) -> Option<Direction> {
    if spec_uppercase(order) == "ASC"@ {
        Some(Direction::Asc)
    } else if spec_uppercase(order) == "DESC"@ {
        Some(Direction::Desc)
    } else {
        None
    }
}

/// What the upper-case form of a requested direction stands for.
pub open spec fn spec_direction_of_upper(upper: Seq<char>) -> Option<Direction> {
    if upper == "ASC"@ {
        Some(Direction::Asc)
    } else if upper == "DESC"@ {
        Some(Direction::Desc)
    } else {
        None
    }
}

/// Reads a direction from the upper-case form of what was requested.
pub fn direction_of_upper(upper: &str) -> (r: Option<Direction>)
    ensures
        r == spec_direction_of_upper(upper@),
{
    if str_eq(upper, "ASC") {
        Some(Direction::Asc)
    } else if str_eq(upper, "DESC") {
        Some(Direction::Desc)
    } else {
        None
    }
}

/// Reads the direction that `order` asks for.
pub fn direction(order: &str) -> (r: Option<Direction>)
    ensures
        r == spec_direction(order@),
{
    let upper = to_uppercase(order);
    direction_of_upper(upper.as_str())
}

/// Reads the direction that `order` asks for; ascending if it asks for none.
pub fn direction_or_asc(order: &str) -> (r: Direction)
    ensures
        r == match spec_direction(order@) {
            Some(d) => d,
            None => Direction::Asc,
        },
{
    match direction(order) {
        Some(d) => d,
        None => Direction::Asc,
    }
}

/// What is settled about a listing before the store is asked.
#[derive(Debug, Clone, PartialEq)]
pub struct QueryPlan {
    /// How many rows to return at most.
    pub limit: i64,
    /// How many rows to skip.
    pub offset: i64,
    /// The column to order by.
    pub order_by: &'static str,
    /// The direction to order in.
    pub order: Direction,
}

} // verus!
