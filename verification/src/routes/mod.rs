pub mod krist;
pub mod v1;

use vstd::prelude::*;

verus! {

/// How a listing is paged.
#[derive(Debug, Clone, PartialEq)]
pub struct PaginationParams {
    /// Only looked at where transactions are listed.
    pub exclude_mined: Option<bool>,
    pub limit: Option<i64>,
    pub offset: Option<i64>,
}

impl Default for PaginationParams {
    fn default() -> (r: Self)
        ensures
            r.exclude_mined.is_none(),
            r.limit == Some(50i64),
            r.offset == Some(0i64),
    {
        PaginationParams { exclude_mined: None, limit: Some(50), offset: Some(0) }
    }
}

} // verus!
