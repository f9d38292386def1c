use vstd::prelude::*;

use vstd::string::StringExecFns;

use crate::text::{int_text, nat_text, push_int, push_nat};

verus! {

/// Why a request about contracts was refused.
#[derive(Debug, Clone, Copy, PartialEq, Eq, Structural)]
pub enum SubsError {
    InvalidCronExpr,
    /// The address at this position of the allow list is not an address.
    InvalidAllowList(usize),
    InvalidPrice,
    InvalidMaxSubscribers,
    InvalidId(i32),
    ContractNotFound(i32),
    EmptyContractUpdate,
    TitleLength,
    InvalidNull,
    InvalidDescription,
}

impl SubsError {
    /// The HTTP status that reports the error: 404 for a contract that does
    /// not exist, 400 for everything else.
    pub open spec fn spec_status_code(self) -> u16 {
        match self {
            SubsError::ContractNotFound(_) => 404,
            _ => 400,
        }
    }

    /// The sentence that reports the error.
    pub open spec fn spec_message(self) -> Seq<char> {
        match self {
            SubsError::InvalidCronExpr =>
                "Got bad cron expression. See https://docs.gitlab.com/topics/cron/"@,
            SubsError::InvalidAllowList(i) => "Got bad address in allow list at position "@
                + nat_text(i as nat),
            SubsError::InvalidPrice => "Contract price must be positive"@,
            SubsError::InvalidMaxSubscribers => "Max subscriber count must be non-negative"@,
            SubsError::InvalidId(id) => "'"@ + int_text(id as int) + " is not a valid ID"@,
            SubsError::ContractNotFound(id) => "Could not find contract with ID '"@ + int_text(
                id as int,
            ) + "'"@,
            SubsError::EmptyContractUpdate => "Received empty contract update request"@,
            SubsError::TitleLength =>
                "Title had invalid length, must be between 1 and 64 characters"@,
            SubsError::InvalidNull =>
                "Cannot set a provided field to null, omit the field if you don't want to update it"@,
            SubsError::InvalidDescription =>
                "Descriptions can be null, or a string between 0 and 500 characters"@,
        }
    }

    /// The HTTP status that reports the error.
    pub fn status_code(&self) -> (r: u16)
        ensures
            r == self.spec_status_code(),
    {
        match self {
            SubsError::ContractNotFound(_) => 404,
            _ => 400,
        }
    }

    /// The sentence that reports the error.
    pub fn message(&self) -> (r: String)
        ensures
            r@ == self.spec_message(),
    {
        match self {
            SubsError::InvalidCronExpr => String::from_str(
                "Got bad cron expression. See https://docs.gitlab.com/topics/cron/",
            ),
            SubsError::InvalidAllowList(i) => {
                let mut out = String::from_str("Got bad address in allow list at position ");
                push_nat(&mut out, *i as u64);
                out
            },
            SubsError::InvalidPrice => String::from_str("Contract price must be positive"),
            SubsError::InvalidMaxSubscribers => String::from_str(
                "Max subscriber count must be non-negative",
            ),
            SubsError::InvalidId(id) => {
                let mut out = String::from_str("'");
                push_int(&mut out, *id as i64);
                out.append(" is not a valid ID");
                out
            },
            SubsError::ContractNotFound(id) => {
                let mut out = String::from_str("Could not find contract with ID '");
                push_int(&mut out, *id as i64);
                out.append("'");
                out
            },
            SubsError::EmptyContractUpdate => String::from_str(
                "Received empty contract update request",
            ),
            SubsError::TitleLength => String::from_str(
                "Title had invalid length, must be between 1 and 64 characters",
            ),
            SubsError::InvalidNull => String::from_str(
                "Cannot set a provided field to null, omit the field if you don't want to update it",
            ),
            SubsError::InvalidDescription => String::from_str(
                "Descriptions can be null, or a string between 0 and 500 characters",
            ),
        }
    }
}

} // verus!
