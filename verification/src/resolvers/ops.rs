//! Resolvers of the operator plane (tenants, subscriptions, billing,
//! operator users).
use vstd::prelude::*;

use crate::error::{is_validation, validation_owned, KabiPayError};
use crate::ids::{parse_id_arg, parse_opt_id_arg, parse_uuid_text, uuid_parse};
use crate::ops::or_default;
use crate::text::{owned, push_str};

verus! {

/// The resolvers of the operator plane's mutations.
pub struct MutationRoot;

/// An id argument of an operator mutation: malformed ids are refused as
/// `{field}: {error}`.
pub fn mutation_id(raw: &str, field_prefix: &str) -> (r: Result<u128, KabiPayError>)
    ensures
        uuid_parse(raw@) matches Ok(v) ==> r == Ok::<u128, KabiPayError>(v),
        uuid_parse(raw@) matches Err(e) ==> is_validation(r, field_prefix@ + e),
{
    parse_id_arg(raw, field_prefix)
}

impl MutationRoot {
    /// `upsertTenantSubscription`: the tenant and module ids, then the
    /// status (default `ACTIVE`) and overage policy (default `BLOCK`).
    pub fn upsert_tenant_subscription(
        tenant_id: &str,
        module_id: &str,
        status: Option<String>,
        overage_policy: Option<String>,
    ) -> (r: Result<(u128, u128, String, String), KabiPayError>)
        ensures
            uuid_parse(tenant_id@) matches Err(e) ==> is_validation(r, "tenantId: "@ + e),
            uuid_parse(tenant_id@) is Ok ==> (uuid_parse(module_id@) matches Err(e)
                ==> is_validation(r, "moduleId: "@ + e)),
            r is Ok <==> (uuid_parse(tenant_id@) is Ok && uuid_parse(module_id@) is Ok),
            r matches Ok(x) ==> {
                &&& uuid_parse(tenant_id@) matches Ok(t) && x.0 == t
                &&& uuid_parse(module_id@) matches Ok(m) && x.1 == m
                &&& x.2@ == or_default(status, "ACTIVE"@)
                &&& x.3@ == or_default(overage_policy, "BLOCK"@)
            },
    {
        let t = parse_id_arg(tenant_id, "tenantId: ")?;
        let m = parse_id_arg(module_id, "moduleId: ")?;
        let s = match status {
            Some(s) => s,
            None => owned("ACTIVE"),
        };
        let o = match overage_policy {
            Some(o) => o,
            None => owned("BLOCK"),
        };
        Ok((t, m, s, o))
    }

    /// `createInvoice`: the tenant id, then the optional billing cycle id.
    pub fn create_invoice(tenant_id: &str, billing_cycle_id: &Option<String>) -> (r: Result<
        (u128, Option<u128>),
        KabiPayError,
    >)
        ensures
            uuid_parse(tenant_id@) matches Err(e) ==> is_validation(r, "tenantId: "@ + e),
            r is Ok <==> (uuid_parse(tenant_id@) is Ok && (billing_cycle_id matches Some(c)
                ==> uuid_parse(c@) is Ok)),
            uuid_parse(tenant_id@) is Ok ==> (billing_cycle_id matches Some(c) ==> (uuid_parse(c@) matches Err(e)
                ==> is_validation(r, "billingCycleId: "@ + e))),
            r matches Ok(x) ==> (uuid_parse(tenant_id@) matches Ok(t) && x.0 == t) && match *billing_cycle_id {
                None => x.1 is None,
                Some(c) => uuid_parse(c@) matches Ok(v) && x.1 == Some(v),
            },
    {
        let t = parse_id_arg(tenant_id, "tenantId: ")?;
        let c = parse_opt_id_arg(billing_cycle_id, "billingCycleId: ")?;
        Ok((t, c))
    }

    /// `setOperatorUserRoles`: the user id, then every role id in order.
    pub fn set_operator_user_roles(operator_user_id: &str, role_ids: &Vec<String>) -> (r: Result<
        (u128, Vec<u128>),
        KabiPayError,
    >)
        ensures
            uuid_parse(operator_user_id@) matches Err(e) ==> is_validation(
                r,
                "operatorUserId: "@ + e,
            ),
            r is Ok <==> (uuid_parse(operator_user_id@) is Ok && forall|i: int|
                0 <= i < role_ids@.len() ==> uuid_parse((#[trigger] role_ids@[i])@) is Ok),
            r matches Ok(x) ==> {
                &&& uuid_parse(operator_user_id@) matches Ok(u) && x.0 == u
                &&& x.1@.len() == role_ids@.len()
                &&& forall|i: int|
                    0 <= i < role_ids@.len() ==> (uuid_parse((#[trigger] role_ids@[i])@) matches Ok(v)
                        && x.1@[i] == v)
            },
    {
        let uid = parse_id_arg(operator_user_id, "operatorUserId: ")?;
        let mut out: Vec<u128> = Vec::new();
        let mut i: usize = 0;
        while i < role_ids.len()
            invariant
                i <= role_ids.len(),
                uuid_parse(operator_user_id@) matches Ok(u) && uid == u,
                out@.len() == i,
                forall|j: int|
                    0 <= j < i ==> (uuid_parse((#[trigger] role_ids@[j])@) matches Ok(v) && out@[j]
                        == v),
            decreases role_ids.len() - i,
        {
            match parse_id_arg(role_ids[i].as_str(), "roleId: ") {
                Ok(v) => out.push(v),
                Err(e) => {
                    assert(!(uuid_parse(role_ids@[i as int]@) is Ok));
                    return Err(e);
                },
            }
            i = i + 1;
        }
        Ok((uid, out))
    }
}

/// The resolvers of the operator plane's queries.
pub struct QueryRoot;

impl QueryRoot {
    /// An optional id filter: malformed ids are refused as
    /// `{field} is not a UUID: {error}`.
    pub fn optional_id_filter(raw: &Option<String>, field: &str) -> (r: Result<Option<u128>, KabiPayError>)
        ensures
            raw is None ==> r == Ok::<Option<u128>, KabiPayError>(None),
            raw matches Some(s) ==> (uuid_parse(s@) matches Ok(v) ==> r == Ok::<
                Option<u128>,
                KabiPayError,
            >(Some(v))),
            raw matches Some(s) ==> (uuid_parse(s@) matches Err(e) ==> is_validation(
                r,
                field@ + " is not a UUID: "@ + e,
            )),
    {
        match raw {
            None => Ok(None),
            Some(s) => match Self::required_id(s.as_str(), field) {
                Ok(v) => Ok(Some(v)),
                Err(e) => Err(e),
            },
        }
    }

    /// A required id argument, refused as `{field} is not a UUID: {error}`.
    pub fn required_id(raw: &str, field: &str) -> (r: Result<u128, KabiPayError>)
        ensures
            uuid_parse(raw@) matches Ok(v) ==> r == Ok::<u128, KabiPayError>(v),
            uuid_parse(raw@) matches Err(e) ==> is_validation(r, field@ + " is not a UUID: "@ + e),
    {
        match parse_uuid_text(raw) {
            Ok(v) => Ok(v),
            Err(e) => {
                let mut m = owned(field);
                push_str(&mut m, " is not a UUID: ");
                push_str(&mut m, e.as_str());
                Err(validation_owned(m))
            },
        }
    }

    /// Page size of the tenant, module, subscription, feature flag and
    /// operator user lists (1 to 500).
    pub fn page_size(limit: u64) -> (n: u64)
        ensures
            n == if limit < 1 {
                1
            } else if limit > 500 {
                500
            } else {
                limit
            },
    {
        crate::scope::clamp_limit(limit, 500)
    }
}

} // verus!
