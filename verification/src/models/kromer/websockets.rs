use vstd::prelude::*;

verus! {

/// Response containing the count of active sessions.
#[derive(Debug, Clone)]
pub struct SessionCountResponse {
    pub count: usize,
}

} // verus!
