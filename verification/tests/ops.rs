use kabipay::calendar::Ymd;
use kabipay::error::KabiPayError;
use kabipay::ops::{
    check_operator_email_free, check_operator_user, check_roles_exist, enforce_seat_cap,
    feature_flag_name, hash_operator_password, liquibase_database_dir, liquibase_failed,
    liquibase_jdbc_url, liquibase_properties, liquibase_props_file_name, migration_target,
    plan_feature_flag, plan_provision, plan_subscription_upsert, plan_tenant_update,
    prepare_operator_user, provision_migration_result, remove_subscription, require_found,
    unique_role_ids, validate_schema_override, validate_subscription_terms, validate_tenant_code,
    FeatureFlag, Subscription, TenantFields,
};

fn validation_text<T>(r: Result<T, KabiPayError>) -> String {
    match r {
        Err(KabiPayError::Validation(m)) => m,
        Err(e) => panic!("expected a validation error, got {:?}", e),
        Ok(_) => panic!("expected a validation error, got Ok"),
    }
}

const TENANT: u128 = 0x0123_4567_89ab_cdef_0123_4567_89ab_cdef;
const TENANT_TEXT: &str = "01234567-89ab-cdef-0123-456789abcdef";

#[test]
fn tenant_codes() {
    assert!(validate_tenant_code("acme").is_ok());
    assert!(validate_tenant_code("  acme_co-1  ").is_ok());
    assert_eq!(validation_text(validate_tenant_code("a")), "tenant code must be 2–32 characters");
    assert_eq!(
        validation_text(validate_tenant_code(&"x".repeat(33))),
        "tenant code must be 2–32 characters"
    );
    assert_eq!(
        validation_text(validate_tenant_code("_acme")),
        "tenant code must start with a letter or digit"
    );
    assert_eq!(
        validation_text(validate_tenant_code("ac me")),
        "tenant code may only contain a-z, 0-9, underscore, hyphen"
    );
    // Lengths are counted in bytes: one two-byte letter passes the length rule.
    assert_eq!(
        validation_text(validate_tenant_code("é")),
        "tenant code must start with a letter or digit"
    );
}

#[test]
fn schema_overrides() {
    assert!(validate_schema_override("tenant_acme").is_ok());
    assert_eq!(validation_text(validate_schema_override("tenant_")), "schema name length invalid");
    assert_eq!(
        validation_text(validate_schema_override("schema_acme")),
        "schema name must start with tenant_"
    );
    assert_eq!(
        validation_text(validate_schema_override("tenant_Acme")),
        "schema name may only contain a-z, 0-9, underscore after tenant_"
    );
}

#[test]
fn provisioning_defaults_and_subdomain() {
    let p = plan_provision("  AcMe ", 1, 2, None, None, None, "tenant_derived".to_string(), None).unwrap();
    assert_eq!(p.code, "AcMe");
    assert_eq!(p.schema_name, "tenant_derived");
    assert_eq!(p.country, "IN");
    assert_eq!(p.currency, "INR");
    assert_eq!(p.subdomain, "acme");
    assert_eq!((p.tenant_id, p.tenant_database_id, p.tenant_status.as_str()), (1, 2, "PROVISIONING"));
    let q = plan_provision(
        "acme",
        1,
        2,
        Some("US".to_string()),
        Some("USD".to_string()),
        Some("tenant_custom".to_string()),
        "tenant_derived".to_string(),
        Some("ACTIVE".to_string()),
    )
    .unwrap();
    assert_eq!(q.schema_name, "tenant_custom");
    assert_eq!(q.country, "US");
    assert_eq!(q.currency, "USD");
    assert_eq!(q.tenant_status, "ACTIVE");
}

#[test]
fn provisioning_refusals() {
    let r = plan_provision("acme", 1, 2, None, None, None, "tenant_x".to_string(), Some("TERMINATED".to_string()));
    assert!(matches!(r, Err(KabiPayError::Conflict(m)) if m == "tenant is terminated; restore it before re-provisioning"));
    let r = plan_provision("acme", 1, 2, None, None, Some("bad".to_string()), "tenant_x".to_string(), None);
    assert_eq!(validation_text(r), "schema name length invalid");
    let r = plan_provision("!", 1, 2, None, None, None, "tenant_x".to_string(), None);
    assert_eq!(validation_text(r), "tenant code must be 2–32 characters");
}

#[test]
fn migration_results() {
    let r = provision_migration_result(false, None, "PROVISIONING".to_string());
    assert!(!r.migrations_ran);
    assert_eq!(
        r.detail.unwrap(),
        "runMigrations was false; tenant remains PROVISIONING until migrations run"
    );
    assert_eq!(r.tenant_status, "PROVISIONING");
    let r = provision_migration_result(true, None, "PROVISIONING".to_string());
    assert_eq!((r.migrations_ran, r.detail, r.tenant_status.as_str()), (true, None, "ACTIVE"));
    let r = provision_migration_result(true, Some("boom".to_string()), "PROVISIONING".to_string());
    assert_eq!((r.migrations_ran, r.detail.as_deref(), r.tenant_status.as_str()), (false, Some("boom"), "PROVISIONING"));
}

#[test]
fn migration_targets() {
    let r = migration_target(TENANT, None, None);
    assert!(matches!(r, Err(KabiPayError::NotFound { entity, id }) if entity == "tenant" && id == TENANT_TEXT));
    let r = migration_target(TENANT, Some("TERMINATED".to_string()), Some("tenant_a".to_string()));
    assert!(matches!(r, Err(KabiPayError::Conflict(m)) if m == "terminated tenant cannot run migrations"));
    let r = migration_target(TENANT, Some("ACTIVE".to_string()), None);
    assert!(matches!(r, Err(KabiPayError::NotFound { entity, .. }) if entity == "tenant_database"));
    let t = migration_target(TENANT, Some("PROVISIONING".to_string()), Some("tenant_a".to_string())).unwrap();
    assert_eq!(t.schema_name, "tenant_a");
    assert_eq!((t.on_success.migrations_ran, t.on_success.detail, t.on_success.tenant_status.as_str()), (true, None, "ACTIVE"));
}

#[test]
fn liquibase_configuration() {
    assert_eq!(
        validation_text(liquibase_database_dir(None)),
        "KABIPAY_DATABASE_DIR must point at the kabipay-database repo to run Liquibase"
    );
    assert_eq!(
        validation_text(liquibase_database_dir(Some(String::new()))),
        "KABIPAY_DATABASE_DIR is empty"
    );
    assert_eq!(liquibase_database_dir(Some("/db".to_string())).unwrap(), "/db");
    assert_eq!(
        liquibase_jdbc_url("localhost", "5432", "kabipay_dev", ""),
        "jdbc:postgresql://localhost:5432/kabipay_dev"
    );
    assert_eq!(
        liquibase_jdbc_url("h", "1", "db", "require"),
        "jdbc:postgresql://h:1/db?sslmode=require"
    );
    assert_eq!(
        liquibase_jdbc_url("h", "1", "db?x=1", "require"),
        "jdbc:postgresql://h:1/db?x=1&sslmode=require"
    );
    assert_eq!(
        liquibase_props_file_name("tenant_a"),
        ".generated-tenant-tenant_a.properties"
    );
    assert_eq!(
        liquibase_properties("tenant_a", "jdbc:x", "u", "p"),
        "changeLogFile=changelog/tenant.changelog-master.xml\nurl=jdbc:x\nusername=u\npassword=p\ndriver=org.postgresql.Driver\nlogLevel=INFO\ndefaultSchemaName=tenant_a\ndatabaseChangeLogTableName=tenant_a_databasechangelog\nparameter.schema=tenant_a\nliquibase.hub.mode=off\n"
    );
    assert!(matches!(liquibase_failed("exit status: 1"), KabiPayError::Internal(m) if m == "Liquibase tenant update failed (exit exit status: 1). Check node, kabipay-database npm install, and DB connectivity."));
}

#[test]
fn required_rows() {
    assert_eq!(require_found(Some(5u8), "module", TENANT).unwrap(), 5);
    assert!(matches!(require_found::<u8>(None, "module", TENANT), Err(KabiPayError::NotFound { entity, id }) if entity == "module" && id == TENANT_TEXT));
}

fn sub(usage: i32, seats: i32, policy: &str) -> Subscription {
    Subscription {
        id: 1,
        tenant_id: 2,
        module_id: TENANT,
        status: "ACTIVE".to_string(),
        contracted_seats: seats,
        current_seat_usage: usage,
        overage_policy: policy.to_string(),
        activated_at: Some(Ymd { year: 2024, month: 1, day: 1 }),
        expires_at: None,
        approved_by: None,
        is_deleted: false,
        deleted_by: None,
    }
}

#[test]
fn subscription_terms() {
    assert!(validate_subscription_terms("ACTIVE", 0, "BLOCK").is_ok());
    assert_eq!(
        validation_text(validate_subscription_terms("LIVE", 1, "BLOCK")),
        "invalid subscription status LIVE"
    );
    assert_eq!(
        validation_text(validate_subscription_terms("ACTIVE", 1, "DENY")),
        "invalid overage_policy DENY"
    );
    assert_eq!(
        validation_text(validate_subscription_terms("ACTIVE", -1, "ALLOW")),
        "contracted_seats must be non-negative"
    );
}

#[test]
fn seat_cap() {
    assert!(enforce_seat_cap(&sub(5, 5, "BLOCK")).is_ok());
    assert!(enforce_seat_cap(&sub(6, 5, "ALLOW")).is_ok());
    let r = enforce_seat_cap(&sub(6, 5, "BLOCK"));
    assert!(matches!(r, Err(KabiPayError::SeatLimitReached { module_code, contracted: 5, current: 6 }) if module_code == TENANT_TEXT));
}

#[test]
fn subscription_upserts_keep_usage_and_start_new_rows_empty() {
    let new = plan_subscription_upsert(None, 9, 7, 2, 3, "ACTIVE".to_string(), 10, "BLOCK".to_string(), None, None, true, true).unwrap();
    assert_eq!((new.id, new.current_seat_usage, new.approved_by), (9, 0, Some(7)));
    assert!(enforce_seat_cap(&new).is_ok());
    let upd = plan_subscription_upsert(Some(sub(8, 10, "ALLOW")), 9, 7, 2, 3, "SUSPENDED".to_string(), 4, "BLOCK".to_string(), None, Some(Ymd { year: 2025, month: 3, day: 31 }), true, true).unwrap();
    assert_eq!((upd.activated_at, upd.expires_at), (None, Some(Ymd { year: 2025, month: 3, day: 31 })));
    assert_eq!((upd.id, upd.current_seat_usage, upd.contracted_seats), (1, 8, 4));
    assert_eq!(upd.status, "SUSPENDED");
    assert!(enforce_seat_cap(&upd).is_err());
    let r = plan_subscription_upsert(None, 9, 7, 2, 3, "ACTIVE".to_string(), 1, "BLOCK".to_string(), None, None, false, true);
    assert!(matches!(r, Err(KabiPayError::NotFound { entity, .. }) if entity == "tenant"));
    let r = plan_subscription_upsert(None, 9, 7, 2, 3, "ACTIVE".to_string(), 1, "BLOCK".to_string(), None, None, true, false);
    assert!(matches!(r, Err(KabiPayError::NotFound { entity, .. }) if entity == "module"));
}

#[test]
fn removing_a_subscription_twice() {
    let first = remove_subscription(Some(sub(0, 1, "BLOCK")), 1, 42).unwrap().unwrap();
    assert!(first.is_deleted);
    assert_eq!(first.deleted_by, Some(42));
    assert_eq!(first.status, "CANCELLED");
    assert!(remove_subscription(Some(first), 1, 42).unwrap().is_none());
    assert!(matches!(remove_subscription(None, TENANT, 1), Err(KabiPayError::NotFound { entity, .. }) if entity == "tenant_subscription"));
}

#[test]
fn feature_flags() {
    assert_eq!(feature_flag_name("  beta  ").unwrap(), "beta");
    assert_eq!(validation_text(feature_flag_name("   ")), "feature_name must be 1–255 characters");
    assert_eq!(validation_text(feature_flag_name(&"f".repeat(256))), "feature_name must be 1–255 characters");
    let f = plan_feature_flag(None, 5, 2, " beta ", true, true).unwrap();
    assert_eq!((f.id, f.tenant_id, f.feature_name.as_str(), f.is_enabled), (5, 2, "beta", true));
    let existing = FeatureFlag { id: 1, tenant_id: 2, feature_name: "beta".to_string(), is_enabled: true };
    let g = plan_feature_flag(Some(existing), 5, 2, "beta", false, true).unwrap();
    assert_eq!((g.id, g.is_enabled), (1, false));
    assert!(matches!(plan_feature_flag(None, 5, 2, "beta", true, false), Err(KabiPayError::NotFound { entity, .. }) if entity == "tenant"));
}

#[test]
fn tenant_updates() {
    let cur = TenantFields { name: "Acme".to_string(), status: "ACTIVE".to_string(), plan: None };
    let t = plan_tenant_update(Some(cur.clone()), 1, Some("Acme 2".to_string()), Some("SUSPENDED".to_string()), Some("pro".to_string())).unwrap();
    assert_eq!((t.name.as_str(), t.status.as_str(), t.plan.as_deref()), ("Acme 2", "SUSPENDED", Some("pro")));
    let same = plan_tenant_update(Some(cur.clone()), 1, None, None, None).unwrap();
    assert_eq!((same.name.as_str(), same.status.as_str(), same.plan), ("Acme", "ACTIVE", None));
    assert_eq!(validation_text(plan_tenant_update(Some(cur.clone()), 1, None, Some("GONE".to_string()), None)), "invalid tenant status GONE");
    assert_eq!(validation_text(plan_tenant_update(Some(cur), 1, Some("  ".to_string()), None, None)), "name must not be empty");
    assert!(matches!(plan_tenant_update(None, 1, None, None, None), Err(KabiPayError::NotFound { entity, .. }) if entity == "tenant"));
}

#[test]
fn operator_users() {
    let u = prepare_operator_user("  Ops@Example.COM ", "longenough", "  Jane Doe ").unwrap();
    assert_eq!(u.email, "ops@example.com");
    assert_eq!(u.full_name, "Jane Doe");
    assert_eq!(validation_text(prepare_operator_user("nobody", "longenough", "J")), "email is invalid");
    assert_eq!(validation_text(prepare_operator_user("a@b", "short", "J")), "password must be at least 8 characters");
    assert_eq!(validation_text(prepare_operator_user("a@b", "longenough", "  ")), "full_name must not be empty");
    assert!(check_operator_email_free("a@b", false).is_ok());
    assert!(matches!(check_operator_email_free("a@b", true), Err(KabiPayError::Conflict(m)) if m == "operator user with email a@b already exists"));
    let h = hash_operator_password("longenough").unwrap();
    assert!(h.starts_with("$argon2id$v=19$m=19456,t=2,p=1$"));
    assert_ne!(h, hash_operator_password("longenough").unwrap());
}

#[test]
fn operator_roles() {
    assert!(check_operator_user(TENANT, Some(false)).is_ok());
    assert!(matches!(check_operator_user(TENANT, Some(true)), Err(KabiPayError::NotFound { entity, .. }) if entity == "operator_user"));
    assert!(matches!(check_operator_user(TENANT, None), Err(KabiPayError::NotFound { entity, .. }) if entity == "operator_user"));
    let ids = vec![3u128, 1, 3, 2, 1];
    let u = unique_role_ids(&ids);
    assert_eq!(u, vec![3, 1, 2]);
    assert!(check_roles_exist(&u, &vec![true, true, true]).is_ok());
    let r = check_roles_exist(&vec![1, TENANT, 5], &vec![true, false, false]);
    assert!(matches!(r, Err(KabiPayError::NotFound { entity, id }) if entity == "operator_role" && id == TENANT_TEXT));
}

#[test]
fn setting_roles_twice_gives_the_same_roles() {
    let once = unique_role_ids(&vec![3, 1, 3, 2, 1]);
    assert_eq!(once, vec![3, 1, 2]);
    assert_eq!(unique_role_ids(&once), once);
}
