//! Resolvers of the performance service (review cycles and goals).
use vstd::prelude::*;

verus! {

/// The resolvers of the performance service's queries: both lists are read
/// straight from the tenant's rows, with the page size asked for.
pub struct QueryRoot;

} // verus!
