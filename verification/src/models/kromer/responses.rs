use vstd::prelude::*;

verus! {

/// The envelope of every answer of the native API.
#[derive(Debug, Clone, PartialEq)]
pub struct ApiResponse<'a, T> {
    pub data: Option<T>,
    pub meta: Option<ResponseMeta>,
    pub error: Option<ApiError<'a>>,
    pub message: Option<&'a str>,
}

/// A struct with nothing, for answers that carry no data.
#[derive(Debug, Clone, PartialEq)]
pub struct Nothing {}

#[derive(Debug, Clone, PartialEq)]
pub struct ResponseMeta {
    pub limit: i32,
    pub total: i32,
}

#[derive(Debug, Clone, PartialEq)]
pub struct ApiError<'a> {
    pub code: &'a str,
    pub message: &'a str,
    pub details: &'a [ErrorDetail<'a>],
}

#[derive(Debug, Clone, PartialEq)]
pub struct ErrorDetail<'a> {
    pub field: &'a str,
    pub message: &'a str,
}

impl<'a, T> Default for ApiResponse<'a, T> {
    fn default() -> (r: Self)
        ensures
            r.data.is_none(),
            r.meta.is_none(),
            r.error.is_none(),
            r.message.is_none(),
    {
        ApiResponse { data: None, meta: None, error: None, message: None }
    }
}

impl<'a, T> ApiResponse<'a, T> {
    /// An answer that carries `data` and nothing else.
    pub fn with_data(data: T) -> (r: Self)
        ensures
            r.data == Some(data),
            r.meta.is_none(),
            r.error.is_none(),
            r.message.is_none(),
    {
        ApiResponse { data: Some(data), meta: None, error: None, message: None }
    }
}

/// A response from an endpoint that takes paginated parameters.
#[derive(Debug, Clone, PartialEq)]
pub struct PaginatedResponse<T> {
    /// The number of entries returned in `items`.
    pub count: usize,
    /// The number of entries remaining after the final entry in `items`. If additional
    /// filters were passed to the endpoint, they are taken into account.
    pub remaining: u64,
    pub items: Vec<T>,
}

impl<T> PaginatedResponse<T> {
    /// A page of `items`, after which `remaining` entries are left.
    pub fn new(items: Vec<T>, remaining: u64) -> (r: Self)
        ensures
            r.count == items.len(),
            r.remaining == remaining,
            r.items == items,
    {
        PaginatedResponse { count: items.len(), remaining, items }
    }
}

} // verus!
