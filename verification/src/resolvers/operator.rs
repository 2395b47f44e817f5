//! Resolvers of the operator service (operator users and roles).
use vstd::prelude::*;

verus! {

/// The resolvers of the operator service's queries.
pub struct QueryRoot;

impl QueryRoot {
    /// Page size of `operatorUsers` (1 to 500).
    pub fn operator_users_page_size(limit: u64) -> (n: u64)
        ensures
            n == if limit < 1 {
                1
            } else if limit > 500 {
                500
            } else {
                limit
            },
    {
        crate::scope::clamp_limit(limit, 500)
    }

    /// Page size of `operatorRoles` (1 to 100).
    pub fn operator_roles_page_size(limit: u64) -> (n: u64)
        ensures
            n == if limit < 1 {
                1
            } else if limit > 100 {
                100
            } else {
                limit
            },
    {
        crate::scope::clamp_limit(limit, 100)
    }
}

} // verus!
