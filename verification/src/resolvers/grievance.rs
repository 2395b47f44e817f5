//! Resolvers of the grievance service.
use vstd::prelude::*;

use crate::error::{is_validation, KabiPayError};
use crate::ids::{parse_id_arg, uuid_parse};

verus! {

/// The resolvers of the grievance service's mutations.
pub struct MutationRoot;

impl MutationRoot {
    /// `submitGrievanceCase`: the category id.
    pub fn submit_grievance_case(grievance_category_id: &str) -> (r: Result<u128, KabiPayError>)
        ensures
            uuid_parse(grievance_category_id@) matches Ok(v) ==> r == Ok::<u128, KabiPayError>(v),
            uuid_parse(grievance_category_id@) matches Err(e) ==> is_validation(
                r,
                "invalid grievanceCategoryId: "@ + e,
            ),
    {
        parse_id_arg(grievance_category_id, "invalid grievanceCategoryId: ")
    }
}

/// The resolvers of the grievance service's queries.
pub struct QueryRoot;

impl QueryRoot {
    /// Page size of `grievanceCategories` (1 to 200).
    pub fn categories_page_size(limit: u64) -> (n: u64)
        ensures
            n == if limit < 1 {
                1
            } else if limit > 200 {
                200
            } else {
                limit
            },
    {
        crate::scope::clamp_limit(limit, 200)
    }

    /// Page size of `grievanceCases` (1 to 500).
    pub fn cases_page_size(limit: u64) -> (n: u64)
        ensures
            n == if limit < 1 {
                1
            } else if limit > 500 {
                500
            } else {
                limit
            },
    {
        crate::scope::clamp_limit(limit, 500)
    }
}

} // verus!
