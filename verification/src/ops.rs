//! Operator plane: tenant provisioning, tenant migrations, subscriptions and
//! seat caps, feature flags, tenant updates.
use vstd::prelude::*;
use std::collections::HashSet;

use crate::error::{
    conflict, is_conflict, is_not_found, is_validation, not_found, validation, validation_owned,
    KabiPayError,
};
use crate::calendar::Ymd;
use crate::ids::{uuid_text, uuid_to_string};
use crate::requests::opt_view;
use crate::text::{
    byte_len, chars_of, owned, push_str, starts_with_chars, str_byte_len, str_eq, to_lowercase,
    trim, trimmed, unicode_lowercase,
};

verus! {

// ----------------------------------------------------------------------------
// Character classes
// ----------------------------------------------------------------------------

/// `char::is_ascii_alphanumeric`.
pub open spec fn is_ascii_alnum(c: char) -> bool {
    ('0' <= c && c <= '9') || ('a' <= c && c <= 'z') || ('A' <= c && c <= 'Z')
}

fn ascii_alnum(c: char) -> (b: bool)
    ensures
        b == is_ascii_alnum(c),
{
    ('0' <= c && c <= '9') || ('a' <= c && c <= 'z') || ('A' <= c && c <= 'Z')
}

/// A character allowed anywhere in a tenant code.
pub open spec fn code_char_ok(c: char) -> bool {
    is_ascii_alnum(c) || c == '_' || c == '-'
}

/// A character allowed in a schema name after the `tenant_` prefix.
pub open spec fn schema_char_ok(c: char) -> bool {
    ('a' <= c && c <= 'z') || ('0' <= c && c <= '9') || c == '_'
}

// ----------------------------------------------------------------------------
// Tenant codes and schema names
// ----------------------------------------------------------------------------

/// The first rule a tenant code breaks, if any. The code is read trimmed and
/// its length counted in UTF-8 bytes.
pub open spec fn tenant_code_error(code: Seq<char>) -> Option<Seq<char>> {
    let c = trimmed(code);
    if byte_len(c) < 2 || byte_len(c) > 32 {
        Some("tenant code must be 2–32 characters"@)
    } else if !is_ascii_alnum(c[0]) {
        Some("tenant code must start with a letter or digit"@)
    } else if exists|i: int| 0 <= i < c.len() && !code_char_ok(#[trigger] c[i]) {
        Some("tenant code may only contain a-z, 0-9, underscore, hyphen"@)
    } else {
        None
    }
}

/// Checks a tenant code: 2 to 32 bytes once trimmed, a letter or digit
/// first, then only letters, digits, `_` and `-`.
#[verifier::loop_isolation(false)]
pub fn validate_tenant_code(code: &str) -> (r: Result<(), KabiPayError>)
    ensures
        match tenant_code_error(code@) {
            Some(m) => is_validation(r, m),
            None => r is Ok,
        },
{
    let c = trim(code);
    let n = str_byte_len(c.as_str());
    if n < 2 || n > 32 {
        return Err(validation("tenant code must be 2–32 characters"));
    }
    let v = chars_of(c.as_str());
    if v.len() == 0 {
        assert(vstd::utf8::encode_utf8(v@) =~= Seq::<u8>::empty());
        return Err(validation("tenant code is empty"));
    }
    if !ascii_alnum(v[0]) {
        return Err(validation("tenant code must start with a letter or digit"));
    }
    let mut i: usize = 0;
    while i < v.len()
        invariant
            i <= v.len(),
            v@ == trimmed(code@),
            forall|j: int| 0 <= j < i ==> code_char_ok(#[trigger] v@[j]),
        decreases v.len() - i,
    {
        let ch = v[i];
        if !(ascii_alnum(ch) || ch == '_' || ch == '-') {
            assert(!code_char_ok(trimmed(code@)[i as int]));
            return Err(validation("tenant code may only contain a-z, 0-9, underscore, hyphen"));
        }
        i = i + 1;
    }
    Ok(())
}

/// The first rule an explicit schema name breaks, if any: 8 to 50 bytes,
/// the prefix `tenant_`, then only lower-case letters, digits and `_`.
pub open spec fn schema_override_error(s: Seq<char>) -> Option<Seq<char>> {
    if byte_len(s) < 8 || byte_len(s) > 50 {
        Some("schema name length invalid"@)
    } else if !(7 <= s.len() && s.subrange(0, 7) == "tenant_"@) {
        Some("schema name must start with tenant_"@)
    } else if exists|i: int| 7 <= i < s.len() && !schema_char_ok(#[trigger] s[i]) {
        Some("schema name may only contain a-z, 0-9, underscore after tenant_"@)
    } else {
        None
    }
}

/// Checks an operator-supplied schema name.
#[verifier::loop_isolation(false)]
pub fn validate_schema_override(schema: &str) -> (r: Result<(), KabiPayError>)
    ensures
        match schema_override_error(schema@) {
            Some(m) => is_validation(r, m),
            None => r is Ok,
        },
{
    let n = str_byte_len(schema);
    if n < 8 || n > 50 {
        return Err(validation("schema name length invalid"));
    }
    let v = chars_of(schema);
    let p = chars_of("tenant_");
    proof {
        reveal_strlit("tenant_");
    }
    if !starts_with_chars(v.as_slice(), p.as_slice()) {
        return Err(validation("schema name must start with tenant_"));
    }
    let mut i: usize = 7;
    while i < v.len()
        invariant
            7 <= i <= v.len(),
            v@ == schema@,
            forall|j: int| 7 <= j < i ==> schema_char_ok(#[trigger] v@[j]),
        decreases v.len() - i,
    {
        let ch = v[i];
        if !(('a' <= ch && ch <= 'z') || ('0' <= ch && ch <= '9') || ch == '_') {
            assert(!schema_char_ok(schema@[i as int]));
            return Err(
                validation("schema name may only contain a-z, 0-9, underscore after tenant_"),
            );
        }
        i = i + 1;
    }
    Ok(())
}

// ----------------------------------------------------------------------------
// Provisioning
// ----------------------------------------------------------------------------

/// What provisioning writes for a tenant, decided before any write.
#[derive(Clone, Debug)]
pub struct ProvisionPlan {
    /// The tenant row's id, derived from the code.
    pub tenant_id: u128,
    /// The tenant database row's id, derived from the code.
    pub tenant_database_id: u128,
    /// The trimmed tenant code.
    pub code: String,
    /// The tenant's status after the rows are written: `PROVISIONING` for a
    /// new tenant; an existing one keeps its status.
    pub tenant_status: String,
    pub schema_name: String,
    pub country: String,
    pub currency: String,
    pub subdomain: String,
}

/// The value of an optional text, or `default`.
pub open spec fn or_default(s: Option<String>, default: Seq<char>) -> Seq<char> {
    match s {
        Some(x) => x@,
        None => default,
    }
}

fn unwrap_or_owned(s: Option<String>, default: &str) -> (r: String)
    ensures
        r@ == or_default(s, default@),
{
    match s {
        Some(x) => x,
        None => owned(default),
    }
}

/// Whether an existing tenant row carries the status `TERMINATED`.
pub open spec fn is_terminated(status: Option<String>) -> bool {
    status matches Some(s) && s@ == "TERMINATED"@
}

/// The decisions of tenant provisioning, in order: the code is valid; an
/// explicit schema name is valid (else `derived_schema_name`, the name
/// derived from the tenant's id, is used); an existing tenant with the same
/// code is not terminated (`existing_status` is its status, `None` when there
/// is none). Country and currency default to `IN` and `INR`; the subdomain is
/// the lower-cased code. `tenant_id` and `tenant_database_id` are the ids the
/// caller derives from the trimmed code, so one code always names the same
/// tenant and database rows.
pub fn plan_provision(
    code: &str,
    tenant_id: u128,
    tenant_database_id: u128,
    country: Option<String>,
    currency: Option<String>,
    schema_name_override: Option<String>,
    derived_schema_name: String,
    existing_status: Option<String>,
) -> (r: Result<ProvisionPlan, KabiPayError>)
    ensures
        tenant_code_error(code@) matches Some(m) ==> is_validation(r, m),
        tenant_code_error(code@) is None ==> (schema_name_override matches Some(s) ==> (
        schema_override_error(s@) matches Some(m) ==> is_validation(r, m))),
        tenant_code_error(code@) is None && !(schema_name_override matches Some(s)
            && schema_override_error(s@) is Some) && is_terminated(existing_status) ==> is_conflict(
            r,
            "tenant is terminated; restore it before re-provisioning"@,
        ),
        r is Ok <==> tenant_code_error(code@) is None && !(schema_name_override matches Some(s)
            && schema_override_error(s@) is Some) && !is_terminated(existing_status),
        r matches Ok(p) ==> {
            &&& p.tenant_id == tenant_id
            &&& p.tenant_database_id == tenant_database_id
            &&& p.tenant_status@ == or_default(existing_status, "PROVISIONING"@)
            &&& p.code@ == trimmed(code@)
            &&& p.schema_name@ == or_default(schema_name_override, derived_schema_name@)
            &&& p.country@ == or_default(country, "IN"@)
            &&& p.currency@ == or_default(currency, "INR"@)
            &&& p.subdomain@ == unicode_lowercase(trimmed(code@))
        },
{
    validate_tenant_code(code)?;
    let code_t = trim(code);
    let schema_name = match schema_name_override {
        Some(s) => {
            validate_schema_override(s.as_str())?;
            s
        },
        None => derived_schema_name,
    };
    if let Some(st) = &existing_status {
        if str_eq(st.as_str(), "TERMINATED") {
            return Err(conflict("tenant is terminated; restore it before re-provisioning"));
        }
    }
    let subdomain = to_lowercase(code_t.as_str());
    Ok(
        ProvisionPlan {
            tenant_id,
            tenant_database_id,
            tenant_status: unwrap_or_owned(existing_status, "PROVISIONING"),
            code: code_t,
            schema_name,
            country: unwrap_or_owned(country, "IN"),
            currency: unwrap_or_owned(currency, "INR"),
            subdomain,
        },
    )
}

/// Why provisioning leaves a tenant `PROVISIONING` when migrations are skipped.
pub open spec fn migrations_skipped_text() -> Seq<char> {
    "runMigrations was false; tenant remains PROVISIONING until migrations run"@
}

/// What provisioning or a migration run reports.
#[derive(Clone, Debug)]
pub struct MigrationOutcome {
    pub migrations_ran: bool,
    pub detail: Option<String>,
    /// The tenant's status afterwards.
    pub tenant_status: String,
}

/// After the rows are written, with the tenant at `status`: whether
/// migrations ran (the tenant then turns `ACTIVE`, else it keeps `status`),
/// and the detail reported. `failure` is the text of the migration run's
/// error when it was run and failed.
pub fn provision_migration_result(
    run_migrations: bool,
    failure: Option<String>,
    status: String,
) -> (r: MigrationOutcome)
    ensures
        !run_migrations ==> !r.migrations_ran && opt_view(r.detail) == Some(
            migrations_skipped_text(),
        ),
        run_migrations ==> r.migrations_ran == (failure is None) && opt_view(r.detail) == opt_view(
            failure,
        ),
        r.migrations_ran ==> r.tenant_status@ == "ACTIVE"@,
        !r.migrations_ran ==> r.tenant_status == status,
{
    if run_migrations {
        match failure {
            None => MigrationOutcome { migrations_ran: true, detail: None, tenant_status: owned("ACTIVE") },
            Some(e) => MigrationOutcome { migrations_ran: false, detail: Some(e), tenant_status: status },
        }
    } else {
        MigrationOutcome {
            migrations_ran: false,
            detail: Some(
                owned("runMigrations was false; tenant remains PROVISIONING until migrations run"),
            ),
            tenant_status: status,
        }
    }
}

/// Where a migration run goes: the schema, and what is reported once the
/// run succeeds.
#[derive(Clone, Debug)]
pub struct MigrationTarget {
    pub schema_name: String,
    pub on_success: MigrationOutcome,
}

/// The checks before re-running migrations for a tenant, in order: the tenant
/// exists (`tenant_status` is its status), it is not terminated, and it has
/// an active database row (`active_schema` is that row's schema). Gives the
/// schema to migrate, and the outcome of a successful run: migrations ran,
/// no detail, the tenant `ACTIVE`.
pub fn migration_target(
    tenant_id: u128,
    tenant_status: Option<String>,
    active_schema: Option<String>,
) -> (r: Result<MigrationTarget, KabiPayError>)
    ensures
        tenant_status is None ==> is_not_found(r, "tenant"@, uuid_text(tenant_id)),
        is_terminated(tenant_status) ==> is_conflict(
            r,
            "terminated tenant cannot run migrations"@,
        ),
        tenant_status is Some && !is_terminated(tenant_status) && active_schema is None
            ==> is_not_found(r, "tenant_database"@, uuid_text(tenant_id)),
        r is Ok <==> tenant_status is Some && !is_terminated(tenant_status) && active_schema is Some,
        r matches Ok(t) ==> {
            &&& Some(t.schema_name@) == opt_view(active_schema)
            &&& t.on_success.migrations_ran
            &&& t.on_success.detail is None
            &&& t.on_success.tenant_status@ == "ACTIVE"@
        },
{
    match tenant_status {
        None => Err(not_found("tenant", uuid_to_string(tenant_id))),
        Some(st) => {
            if str_eq(st.as_str(), "TERMINATED") {
                return Err(conflict("terminated tenant cannot run migrations"));
            }
            match active_schema {
                None => Err(not_found("tenant_database", uuid_to_string(tenant_id))),
                Some(s) => Ok(
                    MigrationTarget {
                        schema_name: s,
                        on_success: provision_migration_result(true, None, st),
                    },
                ),
            }
        },
    }
}

// ----------------------------------------------------------------------------
// Liquibase run configuration
// ----------------------------------------------------------------------------

/// The database repository directory from `KABIPAY_DATABASE_DIR` (`None` when
/// unset): it must be set and not empty.
pub fn liquibase_database_dir(raw: Option<String>) -> (r: Result<String, KabiPayError>)
    ensures
        raw is None ==> is_validation(
            r,
            "KABIPAY_DATABASE_DIR must point at the kabipay-database repo to run Liquibase"@,
        ),
        raw matches Some(d) && d@.len() == 0 ==> is_validation(
            r,
            "KABIPAY_DATABASE_DIR is empty"@,
        ),
        r is Ok <==> (raw matches Some(d) && d@.len() > 0),
        r matches Ok(d) ==> Some(d@) == opt_view(raw),
{
    match raw {
        None => Err(
            validation(
                "KABIPAY_DATABASE_DIR must point at the kabipay-database repo to run Liquibase",
            ),
        ),
        Some(d) => {
            if d.as_str().is_empty() {
                Err(validation("KABIPAY_DATABASE_DIR is empty"))
            } else {
                Ok(d)
            }
        },
    }
}

/// `jdbc:postgresql://{host}:{port}/{db}`, with `sslmode=require` added as a
/// query parameter when the SSL mode is `require`.
pub open spec fn jdbc_url_text(host: Seq<char>, port: Seq<char>, db: Seq<char>, ssl: Seq<char>) -> Seq<
    char,
> {
    let base = "jdbc:postgresql://"@ + host + ":"@ + port + "/"@ + db;
    if ssl == "require"@ {
        if base.contains('?') {
            base + "&sslmode=require"@
        } else {
            base + "?sslmode=require"@
        }
    } else {
        base
    }
}

/// The JDBC URL handed to Liquibase.
pub fn liquibase_jdbc_url(host: &str, port: &str, db: &str, sslmode: &str) -> (r: String)
    ensures
        r@ == jdbc_url_text(host@, port@, db@, sslmode@),
{
    let mut s = owned("jdbc:postgresql://");
    push_str(&mut s, host);
    push_str(&mut s, ":");
    push_str(&mut s, port);
    push_str(&mut s, "/");
    push_str(&mut s, db);
    if str_eq(sslmode, "require") {
        let v = chars_of(s.as_str());
        if crate::text::contains_char(v.as_slice(), '?') {
            push_str(&mut s, "&sslmode=require");
        } else {
            push_str(&mut s, "?sslmode=require");
        }
    }
    s
}

/// Name of the properties file written for one schema's run.
pub open spec fn props_file_name_text(schema: Seq<char>) -> Seq<char> {
    ".generated-tenant-"@ + schema + ".properties"@
}

/// `.generated-tenant-{schema}.properties`.
pub fn liquibase_props_file_name(schema: &str) -> (r: String)
    ensures
        r@ == props_file_name_text(schema@),
{
    let mut s = owned(".generated-tenant-");
    push_str(&mut s, schema);
    push_str(&mut s, ".properties");
    s
}

/// The Liquibase properties for one tenant schema; the change log table is
/// `{schema}_databasechangelog`.
pub open spec fn liquibase_props_text(
    schema: Seq<char>,
    jdbc: Seq<char>,
    user: Seq<char>,
    pass: Seq<char>,
) -> Seq<char> {
    "changeLogFile=changelog/tenant.changelog-master.xml\nurl="@ + jdbc + "\nusername="@ + user
        + "\npassword="@ + pass + "\ndriver=org.postgresql.Driver\nlogLevel=INFO\ndefaultSchemaName="@
        + schema + "\ndatabaseChangeLogTableName="@ + schema + "_databasechangelog"@
        + "\nparameter.schema="@ + schema + "\nliquibase.hub.mode=off\n"@
}

/// The body of the properties file.
pub fn liquibase_properties(schema: &str, jdbc: &str, user: &str, pass: &str) -> (r: String)
    ensures
        r@ == liquibase_props_text(schema@, jdbc@, user@, pass@),
{
    let mut s = owned("changeLogFile=changelog/tenant.changelog-master.xml\nurl=");
    push_str(&mut s, jdbc);
    push_str(&mut s, "\nusername=");
    push_str(&mut s, user);
    push_str(&mut s, "\npassword=");
    push_str(&mut s, pass);
    push_str(&mut s, "\ndriver=org.postgresql.Driver\nlogLevel=INFO\ndefaultSchemaName=");
    push_str(&mut s, schema);
    push_str(&mut s, "\ndatabaseChangeLogTableName=");
    push_str(&mut s, schema);
    push_str(&mut s, "_databasechangelog");
    push_str(&mut s, "\nparameter.schema=");
    push_str(&mut s, schema);
    push_str(&mut s, "\nliquibase.hub.mode=off\n");
    s
}

/// The error of a Liquibase run that exited unsuccessfully; `exit` is the
/// process status as displayed.
pub fn liquibase_failed(exit: &str) -> (e: KabiPayError)
    ensures
        e matches KabiPayError::Internal(m) && m@ == "Liquibase tenant update failed (exit "@
            + exit@ + "). Check node, kabipay-database npm install, and DB connectivity."@,
{
    let mut s = owned("Liquibase tenant update failed (exit ");
    push_str(&mut s, exit);
    push_str(&mut s, "). Check node, kabipay-database npm install, and DB connectivity.");
    KabiPayError::Internal(s)
}


// ----------------------------------------------------------------------------
// Rows that must exist
// ----------------------------------------------------------------------------

/// The row a lookup found, or the not-found error for `entity` and `id`.
pub fn require_found<T>(row: Option<T>, entity: &str, id: u128) -> (r: Result<T, KabiPayError>)
    ensures
        row is None ==> is_not_found(r, entity@, uuid_text(id)),
        row matches Some(x) ==> r == Ok::<T, KabiPayError>(x),
{
    match row {
        Some(x) => Ok(x),
        None => Err(not_found(entity, uuid_to_string(id))),
    }
}

// ----------------------------------------------------------------------------
// Subscriptions
// ----------------------------------------------------------------------------

/// A tenant's subscription to a module.
#[derive(Clone, Debug)]
pub struct Subscription {
    pub id: u128,
    pub tenant_id: u128,
    pub module_id: u128,
    pub status: String,
    pub contracted_seats: i32,
    pub current_seat_usage: i32,
    pub overage_policy: String,
    pub activated_at: Option<Ymd>,
    pub expires_at: Option<Ymd>,
    pub approved_by: Option<u128>,
    pub is_deleted: bool,
    pub deleted_by: Option<u128>,
}

/// The subscription statuses an operator may set.
pub open spec fn is_subscription_status(s: Seq<char>) -> bool {
    s == "PENDING"@ || s == "ACTIVE"@ || s == "SUSPENDED"@ || s == "CANCELLED"@ || s
        == "EXPIRED"@
}

/// The overage policies.
pub open spec fn is_overage_policy(s: Seq<char>) -> bool {
    s == "BLOCK"@ || s == "ALLOW"@ || s == "NOTIFY"@
}

fn subscription_status_ok(s: &str) -> (b: bool)
    ensures
        b == is_subscription_status(s@),
{
    str_eq(s, "PENDING") || str_eq(s, "ACTIVE") || str_eq(s, "SUSPENDED") || str_eq(s, "CANCELLED")
        || str_eq(s, "EXPIRED")
}

fn overage_policy_ok(s: &str) -> (b: bool)
    ensures
        b == is_overage_policy(s@),
{
    str_eq(s, "BLOCK") || str_eq(s, "ALLOW") || str_eq(s, "NOTIFY")
}

/// `{prefix}{value}` as a validation error.
fn validation_with(prefix: &str, value: &str) -> (e: KabiPayError)
    ensures
        e matches KabiPayError::Validation(m) && m@ == prefix@ + value@,
{
    let mut m = owned(prefix);
    push_str(&mut m, value);
    validation_owned(m)
}

/// The terms of a subscription, in order: a known status, a known overage
/// policy, a seat count that is not negative.
pub fn validate_subscription_terms(status: &str, contracted_seats: i32, overage_policy: &str) -> (r:
    Result<(), KabiPayError>)
    ensures
        !is_subscription_status(status@) ==> is_validation(
            r,
            "invalid subscription status "@ + status@,
        ),
        is_subscription_status(status@) && !is_overage_policy(overage_policy@) ==> is_validation(
            r,
            "invalid overage_policy "@ + overage_policy@,
        ),
        is_subscription_status(status@) && is_overage_policy(overage_policy@) && contracted_seats
            < 0 ==> is_validation(r, "contracted_seats must be non-negative"@),
        r is Ok <==> is_subscription_status(status@) && is_overage_policy(overage_policy@)
            && contracted_seats >= 0,
{
    if !subscription_status_ok(status) {
        return Err(validation_with("invalid subscription status ", status));
    }
    if !overage_policy_ok(overage_policy) {
        return Err(validation_with("invalid overage_policy ", overage_policy));
    }
    if contracted_seats < 0 {
        return Err(validation("contracted_seats must be non-negative"));
    }
    Ok(())
}

/// The row an upsert writes: the live subscription of the tenant to the
/// module with new terms and activation and expiry dates (its seat usage
/// kept), or a new one with no seats used.
pub open spec fn upserted_subscription(
    existing: Option<Subscription>,
    new_id: u128,
    operator_user_id: u128,
    tenant_id: u128,
    module_id: u128,
    status: String,
    contracted_seats: i32,
    overage_policy: String,
    activated_at: Option<Ymd>,
    expires_at: Option<Ymd>,
) -> Subscription {
    match existing {
        Some(e) => Subscription {
            status,
            contracted_seats,
            overage_policy,
            activated_at,
            expires_at,
            approved_by: Some(operator_user_id),
            ..e
        },
        None => Subscription {
            id: new_id,
            tenant_id,
            module_id,
            status,
            contracted_seats,
            current_seat_usage: 0,
            overage_policy,
            activated_at,
            expires_at,
            approved_by: Some(operator_user_id),
            is_deleted: false,
            deleted_by: None,
        },
    }
}

/// The decisions of a subscription upsert, in order: the terms, the tenant
/// exists, the module exists. `existing` is the tenant's live subscription
/// to the module; `new_id` the id a new row gets. The caller writes the row
/// and then applies [`enforce_seat_cap`] to it.
pub fn plan_subscription_upsert(
    existing: Option<Subscription>,
    new_id: u128,
    operator_user_id: u128,
    tenant_id: u128,
    module_id: u128,
    status: String,
    contracted_seats: i32,
    overage_policy: String,
    activated_at: Option<Ymd>,
    expires_at: Option<Ymd>,
    tenant_found: bool,
    module_found: bool,
) -> (r: Result<Subscription, KabiPayError>)
    ensures
        !is_subscription_status(status@) ==> is_validation(
            r,
            "invalid subscription status "@ + status@,
        ),
        is_subscription_status(status@) && !is_overage_policy(overage_policy@) ==> is_validation(
            r,
            "invalid overage_policy "@ + overage_policy@,
        ),
        is_subscription_status(status@) && is_overage_policy(overage_policy@) && contracted_seats
            < 0 ==> is_validation(r, "contracted_seats must be non-negative"@),
        is_subscription_status(status@) && is_overage_policy(overage_policy@) && contracted_seats
            >= 0 && !tenant_found ==> is_not_found(r, "tenant"@, uuid_text(tenant_id)),
        is_subscription_status(status@) && is_overage_policy(overage_policy@) && contracted_seats
            >= 0 && tenant_found && !module_found ==> is_not_found(
            r,
            "module"@,
            uuid_text(module_id),
        ),
        r is Ok <==> is_subscription_status(status@) && is_overage_policy(overage_policy@)
            && contracted_seats >= 0 && tenant_found && module_found,
        r matches Ok(row) ==> row == upserted_subscription(
            existing,
            new_id,
            operator_user_id,
            tenant_id,
            module_id,
            status,
            contracted_seats,
            overage_policy,
            activated_at,
            expires_at,
        ),
{
    validate_subscription_terms(status.as_str(), contracted_seats, overage_policy.as_str())?;
    if !tenant_found {
        return Err(not_found("tenant", uuid_to_string(tenant_id)));
    }
    if !module_found {
        return Err(not_found("module", uuid_to_string(module_id)));
    }
    match existing {
        Some(e) => Ok(
            Subscription {
                status,
                contracted_seats,
                overage_policy,
                activated_at,
                expires_at,
                approved_by: Some(operator_user_id),
                ..e
            },
        ),
        None => Ok(
            Subscription {
                id: new_id,
                tenant_id,
                module_id,
                status,
                contracted_seats,
                current_seat_usage: 0,
                overage_policy,
                activated_at,
                expires_at,
                approved_by: Some(operator_user_id),
                is_deleted: false,
                deleted_by: None,
            },
        ),
    }
}

/// Whether a subscription is within its seat cap: usage above the contract
/// is refused only under the `BLOCK` policy.
pub open spec fn within_seat_cap(m: Subscription) -> bool {
    !(m.current_seat_usage > m.contracted_seats && m.overage_policy@ == "BLOCK"@)
}

/// Refuses a subscription whose seat usage exceeds its contract under the
/// `BLOCK` policy.
pub fn enforce_seat_cap(m: &Subscription) -> (r: Result<(), KabiPayError>)
    ensures
        r is Ok <==> within_seat_cap(*m),
        r matches Err(e) ==> e matches KabiPayError::SeatLimitReached {
            module_code,
            contracted,
            current,
        } && module_code@ == uuid_text(m.module_id) && contracted == m.contracted_seats && current
            == m.current_seat_usage,
{
    if m.current_seat_usage > m.contracted_seats && str_eq(m.overage_policy.as_str(), "BLOCK") {
        return Err(
            KabiPayError::SeatLimitReached {
                module_code: uuid_to_string(m.module_id),
                contracted: m.contracted_seats,
                current: m.current_seat_usage,
            },
        );
    }
    Ok(())
}

/// A new subscription with valid terms never exceeds its seat cap, whatever
/// its overage policy, and an update keeps the stored seat usage.
pub proof fn law_upserted_subscription_seats(
    existing: Option<Subscription>,
    new_id: u128,
    operator_user_id: u128,
    tenant_id: u128,
    module_id: u128,
    status: String,
    contracted_seats: i32,
    overage_policy: String,
    activated_at: Option<Ymd>,
    expires_at: Option<Ymd>,
)
    requires
        contracted_seats >= 0,
    ensures
        existing is None ==> within_seat_cap(
            upserted_subscription(
                existing,
                new_id,
                operator_user_id,
                tenant_id,
                module_id,
                status,
                contracted_seats,
                overage_policy,
                activated_at,
                expires_at,
            ),
        ),
        existing matches Some(e) ==> upserted_subscription(
            existing,
            new_id,
            operator_user_id,
            tenant_id,
            module_id,
            status,
            contracted_seats,
            overage_policy,
            activated_at,
            expires_at,
        ).current_seat_usage == e.current_seat_usage,
{
}

/// An upsert writes the requested terms: the status, seat count, overage
/// policy, activation and expiry dates given, approved by the operator; a
/// live subscription keeps its id, tenant, module and seat usage, a new one
/// gets `new_id` for the tenant and module, no seats used and is live.
pub proof fn law_upsert_writes_terms(
    existing: Option<Subscription>,
    new_id: u128,
    operator_user_id: u128,
    tenant_id: u128,
    module_id: u128,
    status: String,
    contracted_seats: i32,
    overage_policy: String,
    activated_at: Option<Ymd>,
    expires_at: Option<Ymd>,
)
    ensures
        ({
            let s = upserted_subscription(
                existing,
                new_id,
                operator_user_id,
                tenant_id,
                module_id,
                status,
                contracted_seats,
                overage_policy,
                activated_at,
                expires_at,
            );
            &&& s.status == status
            &&& s.contracted_seats == contracted_seats
            &&& s.overage_policy == overage_policy
            &&& s.activated_at == activated_at
            &&& s.expires_at == expires_at
            &&& s.approved_by == Some(operator_user_id)
            &&& (existing matches Some(e) ==> s.id == e.id && s.tenant_id == e.tenant_id
                && s.module_id == e.module_id && s.current_seat_usage == e.current_seat_usage
                && s.is_deleted == e.is_deleted && s.deleted_by == e.deleted_by)
            &&& (existing is None ==> s.id == new_id && s.tenant_id == tenant_id && s.module_id
                == module_id && s.current_seat_usage == 0 && !s.is_deleted && s.deleted_by is None)
        }),
{
}

/// A subscription after removal: deleted by the operator, with the status
/// `cancelled` (the text `CANCELLED`).
pub open spec fn removed_subscription(row: Subscription, operator_user_id: u128, cancelled: String) -> Subscription {
    Subscription {
        is_deleted: true,
        deleted_by: Some(operator_user_id),
        status: cancelled,
        ..row
    }
}

/// Removing a subscription soft-deletes it: it is marked deleted by the
/// operator with the given status, and every other column stays.
pub proof fn law_removal_soft_deletes(row: Subscription, operator_user_id: u128, cancelled: String)
    ensures
        removed_subscription(row, operator_user_id, cancelled).is_deleted,
        removed_subscription(row, operator_user_id, cancelled).deleted_by == Some(operator_user_id),
        removed_subscription(row, operator_user_id, cancelled).status == cancelled,
        removed_subscription(row, operator_user_id, cancelled).id == row.id,
        removed_subscription(row, operator_user_id, cancelled).tenant_id == row.tenant_id,
        removed_subscription(row, operator_user_id, cancelled).module_id == row.module_id,
        removed_subscription(row, operator_user_id, cancelled).contracted_seats == row.contracted_seats,
        removed_subscription(row, operator_user_id, cancelled).current_seat_usage
            == row.current_seat_usage,
{
}

/// Removal of a subscription: not found is an error; one already deleted is
/// left as it is (`Ok(None)`, reported as `false`); otherwise the row to
/// write is returned, marked deleted by the operator and with the status
/// `CANCELLED`.
pub fn remove_subscription(row: Option<Subscription>, subscription_id: u128, operator_user_id: u128) -> (r:
    Result<Option<Subscription>, KabiPayError>)
    ensures
        row is None ==> is_not_found(r, "tenant_subscription"@, uuid_text(subscription_id)),
        row matches Some(x) ==> (x.is_deleted ==> r == Ok::<Option<Subscription>, KabiPayError>(
            None,
        )),
        row matches Some(x) ==> (!x.is_deleted ==> (r matches Ok(Some(y)) && y.status@
            == "CANCELLED"@ && y == removed_subscription(x, operator_user_id, y.status))),
{
    match row {
        None => Err(not_found("tenant_subscription", uuid_to_string(subscription_id))),
        Some(x) => {
            if x.is_deleted {
                Ok(None)
            } else {
                Ok(
                    Some(
                        Subscription {
                            is_deleted: true,
                            deleted_by: Some(operator_user_id),
                            status: owned("CANCELLED"),
                            ..x
                        },
                    ),
                )
            }
        },
    }
}

// ----------------------------------------------------------------------------
// Feature flags
// ----------------------------------------------------------------------------

/// A feature flag name: trimmed, 1 to 255 bytes.
pub fn feature_flag_name(name: &str) -> (r: Result<String, KabiPayError>)
    ensures
        r is Ok <==> 1 <= byte_len(trimmed(name@)) <= 255,
        r is Err ==> is_validation(r, "feature_name must be 1–255 characters"@),
        r matches Ok(n) ==> n@ == trimmed(name@),
{
    let t = trim(name);
    let n = str_byte_len(t.as_str());
    if n == 0 || n > 255 {
        return Err(validation("feature_name must be 1–255 characters"));
    }
    Ok(t)
}

/// A tenant's feature flag.
#[derive(Clone, Debug)]
pub struct FeatureFlag {
    pub id: u128,
    pub tenant_id: u128,
    pub feature_name: String,
    pub is_enabled: bool,
}

/// The decisions of a feature flag upsert, in order: the name, the tenant
/// exists. `existing` is the tenant's flag of that (trimmed) name; it is
/// switched, or a new flag with `new_id` is made.
pub fn plan_feature_flag(
    existing: Option<FeatureFlag>,
    new_id: u128,
    tenant_id: u128,
    feature_name: &str,
    is_enabled: bool,
    tenant_found: bool,
) -> (r: Result<FeatureFlag, KabiPayError>)
    ensures
        !(1 <= byte_len(trimmed(feature_name@)) <= 255) ==> is_validation(
            r,
            "feature_name must be 1–255 characters"@,
        ),
        1 <= byte_len(trimmed(feature_name@)) <= 255 && !tenant_found ==> is_not_found(
            r,
            "tenant"@,
            uuid_text(tenant_id),
        ),
        r is Ok <==> 1 <= byte_len(trimmed(feature_name@)) <= 255 && tenant_found,
        r matches Ok(f) ==> f.is_enabled == is_enabled && match existing {
            Some(e) => f == (FeatureFlag { is_enabled, ..e }),
            None => f.id == new_id && f.tenant_id == tenant_id && f.feature_name@ == trimmed(
                feature_name@,
            ),
        },
{
    let name = feature_flag_name(feature_name)?;
    if !tenant_found {
        return Err(not_found("tenant", uuid_to_string(tenant_id)));
    }
    match existing {
        Some(e) => Ok(FeatureFlag { is_enabled, ..e }),
        None => Ok(FeatureFlag { id: new_id, tenant_id, feature_name: name, is_enabled }),
    }
}

// ----------------------------------------------------------------------------
// Tenant updates
// ----------------------------------------------------------------------------

/// The tenant columns an operator may update.
#[derive(Clone, Debug)]
pub struct TenantFields {
    pub name: String,
    pub status: String,
    pub plan: Option<String>,
}

/// The tenant statuses.
pub open spec fn is_tenant_status(s: Seq<char>) -> bool {
    s == "PROVISIONING"@ || s == "ACTIVE"@ || s == "SUSPENDED"@ || s == "TERMINATED"@
}

/// The decisions of a tenant update, in order: a given status is known, the
/// tenant exists (`current`), a given name is not blank. Each given field
/// replaces the stored one; the name is stored as given.
pub fn plan_tenant_update(
    current: Option<TenantFields>,
    tenant_id: u128,
    name: Option<String>,
    status: Option<String>,
    plan: Option<String>,
) -> (r: Result<TenantFields, KabiPayError>)
    ensures
        (status matches Some(s) && !is_tenant_status(s@)) ==> is_validation(
            r,
            "invalid tenant status "@ + status->0@,
        ),
        !(status matches Some(s) && !is_tenant_status(s@)) && current is None ==> is_not_found(
            r,
            "tenant"@,
            uuid_text(tenant_id),
        ),
        !(status matches Some(s) && !is_tenant_status(s@)) && current is Some && (name matches Some(
            n,
        ) && trimmed(n@).len() == 0) ==> is_validation(r, "name must not be empty"@),
        r is Ok <==> !(status matches Some(s) && !is_tenant_status(s@)) && current is Some && !(
        name matches Some(n) && trimmed(n@).len() == 0),
        r matches Ok(t) ==> {
            &&& t.name@ == or_default(name, current->0.name@)
            &&& t.status@ == or_default(status, current->0.status@)
            &&& opt_view(t.plan) == match plan {
                Some(p) => Some(p@),
                None => opt_view(current->0.plan),
            }
        },
{
    if let Some(s) = &status {
        if !(str_eq(s.as_str(), "PROVISIONING") || str_eq(s.as_str(), "ACTIVE") || str_eq(
            s.as_str(),
            "SUSPENDED",
        ) || str_eq(s.as_str(), "TERMINATED")) {
            return Err(validation_with("invalid tenant status ", s.as_str()));
        }
    }
    let cur = match current {
        Some(c) => c,
        None => {
            return Err(not_found("tenant", uuid_to_string(tenant_id)));
        },
    };
    let mut out = cur;
    if let Some(n) = name {
        let t = trim(n.as_str());
        if t.as_str().is_empty() {
            return Err(validation("name must not be empty"));
        }
        out.name = n;
    }
    if let Some(s) = status {
        out.status = s;
    }
    if let Some(p) = plan {
        out.plan = Some(p);
    }
    Ok(out)
}


// ----------------------------------------------------------------------------
// Operator users and roles
// ----------------------------------------------------------------------------

/// A new operator user's stored identity.
#[derive(Clone, Debug)]
pub struct NewOperatorUser {
    pub email: String,
    pub full_name: String,
}

/// The stored form of an operator's e-mail: trimmed and lower-cased.
pub open spec fn operator_email(e: Seq<char>) -> Seq<char> {
    unicode_lowercase(trimmed(e))
}

/// Checks a new operator user, in order: an e-mail that is not empty and has
/// an `@` (once trimmed and lower-cased), a password of at least 8 bytes, a
/// full name that is not blank (stored trimmed).
pub fn prepare_operator_user(email: &str, password: &str, full_name: &str) -> (r: Result<
    NewOperatorUser,
    KabiPayError,
>)
    ensures
        ({
            let e = operator_email(email@);
            &&& (e.len() == 0 || !e.contains('@')) ==> is_validation(r, "email is invalid"@)
            &&& !(e.len() == 0 || !e.contains('@')) && byte_len(password@) < 8 ==> is_validation(
                r,
                "password must be at least 8 characters"@,
            )
            &&& !(e.len() == 0 || !e.contains('@')) && byte_len(password@) >= 8 && trimmed(
                full_name@,
            ).len() == 0 ==> is_validation(r, "full_name must not be empty"@)
            &&& r is Ok <==> (e.len() > 0 && e.contains('@') && byte_len(password@) >= 8
                && trimmed(full_name@).len() > 0)
            &&& r matches Ok(u) ==> u.email@ == e && u.full_name@ == trimmed(full_name@)
        }),
{
    let t = trim(email);
    let e = to_lowercase(t.as_str());
    let v = chars_of(e.as_str());
    if v.len() == 0 || !crate::text::contains_char(v.as_slice(), '@') {
        return Err(validation("email is invalid"));
    }
    if str_byte_len(password) < 8 {
        return Err(validation("password must be at least 8 characters"));
    }
    let n = trim(full_name);
    if n.as_str().is_empty() {
        return Err(validation("full_name must not be empty"));
    }
    Ok(NewOperatorUser { email: e, full_name: n })
}

/// Refuses an e-mail that another operator user already has.
pub fn check_operator_email_free(email: &str, taken: bool) -> (r: Result<(), KabiPayError>)
    ensures
        taken ==> is_conflict(r, "operator user with email "@ + email@ + " already exists"@),
        !taken ==> r is Ok,
{
    if taken {
        let mut m = owned("operator user with email ");
        push_str(&mut m, email);
        push_str(&mut m, " already exists");
        return Err(crate::error::conflict_owned(m));
    }
    Ok(())
}

/// The head of a PHC string made by `Argon2::default()`: algorithm
/// Argon2id, version 19 (0x13), and the default costs m=19456 KiB, t=2,
/// p=1; the random salt and the hash follow it.
pub open spec fn argon2_default_phc_head() -> Seq<char> {
    "$argon2id$v=19$m=19456,t=2,p=1$"@
}

/// Whether `s` begins with `head`.
pub open spec fn has_prefix(s: Seq<char>, head: Seq<char>) -> bool {
    s.len() >= head.len() && s.subrange(0, head.len() as int) == head
}

/// What `Argon2::default().hash_password(password, salt)` gives, as text,
/// for a password and the salt whose bytes are `salt` (B64-encoded by
/// `SaltString::encode_b64`): the PHC string, or the text of the crate's
/// error.
pub uninterp spec fn argon2_phc(password: Seq<char>, salt: Seq<u8>) -> Result<Seq<char>, Seq<char>>;

/// `RngCore::fill_bytes` of the operating system's random source
/// (`OsRng`) into `Salt::RECOMMENDED_LENGTH` (16) bytes, as
/// `SaltString::generate` draws a salt. The bytes are random: only their
/// number is stated.
#[verifier::external_body]
fn random_salt() -> (r: Vec<u8>)
    ensures
        r@.len() == 16,
{
    let mut bytes = vec![0u8; argon2::password_hash::Salt::RECOMMENDED_LENGTH];
    argon2::password_hash::rand_core::RngCore::fill_bytes(
        &mut argon2::password_hash::rand_core::OsRng,
        &mut bytes,
    );
    bytes
}

/// `Argon2::default().hash_password(password, SaltString::encode_b64(salt))`:
/// the PHC string, or the text of the crate's error; named by
/// [`argon2_phc`]. The crate's source also shows that the string starts with
/// the default head ([`argon2_default_phc_head`]), and that hashing cannot
/// fail for a salt of 8 to 48 bytes (it encodes within the 64-character
/// limit, and decodes back to at least the 8-byte minimum) and a password of
/// at most `0xFFFFFFFF` bytes.
#[verifier::external_body]
fn argon2_hash(password: &str, salt: &[u8]) -> (r: Result<String, String>)
    ensures
        r matches Ok(h) ==> (argon2_phc(password@, salt@) matches Ok(x) && x == h@),
        r matches Err(e) ==> (argon2_phc(password@, salt@) matches Err(x) && x == e@),
        r matches Ok(h) ==> has_prefix(h@, argon2_default_phc_head()),
        byte_len(password@) <= 0xFFFF_FFFF && 8 <= salt@.len() <= 48 ==> r is Ok,
{
    let salt = argon2::password_hash::SaltString::encode_b64(salt).map_err(|e| e.to_string())?;
    let hasher = argon2::Argon2::default();
    match argon2::password_hash::PasswordHasher::hash_password(&hasher, password.as_bytes(), &salt) {
        Ok(h) => Ok(h.to_string()),
        Err(e) => Err(e.to_string()),
    }
}

/// Hashes an operator's password with Argon2id at the default costs into a
/// PHC string under a fresh random 16-byte salt; a failure of the hasher,
/// which happens only for a password longer than `0xFFFFFFFF` bytes, is an
/// internal error `argon2 hash failed: {error}`.
pub fn hash_operator_password(password: &str) -> (r: Result<String, KabiPayError>)
    ensures
        r matches Ok(h) ==> exists|salt: Seq<u8>|
            salt.len() == 16 && #[trigger] argon2_phc(password@, salt) == Ok::<
                Seq<char>,
                Seq<char>,
            >(h@),
        r matches Ok(h) ==> has_prefix(h@, argon2_default_phc_head()),
        byte_len(password@) <= 0xFFFF_FFFF ==> r is Ok,
        r matches Err(e) ==> (e matches KabiPayError::Internal(m) && m@.len() >= 20 && m@.subrange(
            0,
            20,
        ) == "argon2 hash failed: "@),
{
    let salt = random_salt();
    match argon2_hash(password, salt.as_slice()) {
        Ok(h) => {
            assert(argon2_phc(password@, salt@) == Ok::<Seq<char>, Seq<char>>(h@));
            Ok(h)
        },
        Err(t) => {
            let mut m = owned("argon2 hash failed: ");
            proof {
                reveal_strlit("argon2 hash failed: ");
            }
            let ghost p = m@;
            push_str(&mut m, t.as_str());
            assert(m@.subrange(0, 20) =~= p);
            Err(KabiPayError::Internal(m))
        },
    }
}

/// The operator user whose roles are replaced must exist and not be deleted
/// (`is_deleted` is its flag, `None` when not found).
pub fn check_operator_user(user_id: u128, is_deleted: Option<bool>) -> (r: Result<(), KabiPayError>)
    ensures
        is_deleted == Some(false) ==> r is Ok,
        is_deleted != Some(false) ==> is_not_found(r, "operator_user"@, uuid_text(user_id)),
{
    match is_deleted {
        Some(false) => Ok(()),
        _ => Err(not_found("operator_user", uuid_to_string(user_id))),
    }
}

/// The ids of `s` without repeats, each kept at its first place.
pub open spec fn first_occurrences(s: Seq<u128>) -> Seq<u128>
    decreases s.len(),
{
    if s.len() == 0 {
        Seq::empty()
    } else {
        let d = first_occurrences(s.drop_last());
        if d.contains(s.last()) {
            d
        } else {
            d.push(s.last())
        }
    }
}

proof fn lemma_first_occurrences(s: Seq<u128>)
    ensures
        first_occurrences(s).no_duplicates(),
        forall|x: u128| first_occurrences(s).contains(x) <==> s.contains(x),
    decreases s.len(),
{
    if s.len() > 0 {
        let p = s.drop_last();
        lemma_first_occurrences(p);
        let d = first_occurrences(p);
        assert forall|x: u128| s.contains(x) <==> (p.contains(x) || x == s.last()) by {
            if s.contains(x) {
                let k = choose|k: int| 0 <= k < s.len() && s[k] == x;
                if k < s.len() - 1 {
                    assert(p[k] == x);
                }
            }
            if p.contains(x) {
                let k = choose|k: int| 0 <= k < p.len() && p[k] == x;
                assert(s[k] == x);
            }
            if x == s.last() {
                assert(s[s.len() - 1] == x);
            }
        }
        if !d.contains(s.last()) {
            let e = d.push(s.last());
            assert forall|x: u128| e.contains(x) <==> (d.contains(x) || x == s.last()) by {
                if e.contains(x) {
                    let k = choose|k: int| 0 <= k < e.len() && e[k] == x;
                    if k < d.len() {
                        assert(d[k] == x);
                    }
                }
                if d.contains(x) {
                    let k = choose|k: int| 0 <= k < d.len() && d[k] == x;
                    assert(e[k] == x);
                }
                if x == s.last() {
                    assert(e[d.len() as int] == x);
                }
            }
            assert forall|i: int, j: int| 0 <= i < e.len() && 0 <= j < e.len() && i != j implies e[i]
                != e[j] by {
                if i < d.len() && j < d.len() {
                } else if i < d.len() {
                    assert(d.contains(e[i]));
                } else if j < d.len() {
                    assert(d.contains(e[j]));
                }
            }
        }
    }
}

proof fn lemma_first_occurrences_distinct(s: Seq<u128>)
    requires
        s.no_duplicates(),
    ensures
        first_occurrences(s) == s,
    decreases s.len(),
{
    if s.len() > 0 {
        let p = s.drop_last();
        assert(p.no_duplicates());
        lemma_first_occurrences_distinct(p);
        lemma_first_occurrences(p);
        assert(!p.contains(s.last())) by {
            if p.contains(s.last()) {
                let k = choose|k: int| 0 <= k < p.len() && p[k] == s.last();
                assert(s[k] == s[s.len() - 1]);
            }
        }
        assert(p.push(s.last()) =~= s);
    }
}

/// Setting an operator's roles is idempotent: the roles written for a list
/// of ids, set again, are the same roles in the same order.
pub proof fn law_role_ids_idempotent(ids: Seq<u128>)
    ensures
        first_occurrences(first_occurrences(ids)) == first_occurrences(ids),
{
    lemma_first_occurrences(ids);
    lemma_first_occurrences_distinct(first_occurrences(ids));
}

/// The requested role ids without repeats, each kept at its first place
/// (a set of the ids seen so far decides).
pub fn unique_role_ids(ids: &Vec<u128>) -> (r: Vec<u128>)
    ensures
        r@ == first_occurrences(ids@),
        r@.no_duplicates(),
        r@.to_set() == ids@.to_set(),
        forall|x: u128| r@.contains(x) <==> ids@.contains(x),
{
    broadcast use vstd::std_specs::hash::group_hash_axioms;

    let mut r: Vec<u128> = Vec::new();
    let mut seen: HashSet<u128> = HashSet::new();
    let mut i: usize = 0;
    while i < ids.len()
        invariant
            i <= ids.len(),
            r@ == first_occurrences(ids@.take(i as int)),
            forall|x: u128| seen@.contains(x) <==> r@.contains(x),
        decreases ids.len() - i,
    {
        let x = ids[i];
        let ghost pre = ids@.take(i as int);
        assert(ids@.take((i + 1) as int).drop_last() == pre);
        assert(ids@.take((i + 1) as int).last() == x);
        if !seen.contains(&x) {
            let ghost old_r = r@;
            r.push(x);
            seen.insert(x);
            assert forall|y: u128| seen@.contains(y) <==> r@.contains(y) by {
                if old_r.contains(y) {
                    let k = choose|k: int| 0 <= k < old_r.len() && old_r[k] == y;
                    assert(r@[k] == y);
                }
                if r@.contains(y) {
                    let k = choose|k: int| 0 <= k < r@.len() && r@[k] == y;
                    if k < old_r.len() {
                        assert(old_r[k] == y);
                    }
                }
                if y == x {
                    assert(r@[old_r.len() as int] == x);
                }
            }
        }
        i = i + 1;
    }
    assert(ids@.take(ids.len() as int) == ids@);
    proof {
        lemma_first_occurrences(ids@);
    }
    assert(r@.to_set() =~= ids@.to_set());
    r
}

/// Every role to assign must exist: `exists[i]` says whether `roles[i]` was
/// found. The first missing one is reported.
pub fn check_roles_exist(roles: &Vec<u128>, exists: &Vec<bool>) -> (r: Result<(), KabiPayError>)
    requires
        roles.len() == exists.len(),
    ensures
        r is Ok <==> forall|i: int| 0 <= i < exists.len() ==> exists@[i],
        r is Err ==> exists|i: int|
            0 <= i < exists.len() && !exists@[i] && (forall|j: int| 0 <= j < i ==> exists@[j])
                && is_not_found(r, "operator_role"@, uuid_text(roles@[i])),
{
    let mut i: usize = 0;
    while i < roles.len()
        invariant
            i <= roles.len(),
            roles.len() == exists.len(),
            forall|j: int| 0 <= j < i ==> exists@[j],
        decreases roles.len() - i,
    {
        if !exists[i] {
            let e = not_found("operator_role", uuid_to_string(roles[i]));
            return Err(e);
        }
        i = i + 1;
    }
    Ok(())
}

} // verus!
