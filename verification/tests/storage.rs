use kabipay::error::KabiPayError;
use kabipay::storage::{
    blob_target, check_upload_size, local_file_root, stored_file_row, tenant_bucket_name,
    upload_content_type,
    FileStorageMode, S3CompatSettings, S3Env,
};

fn validation_text<T>(r: Result<T, KabiPayError>) -> String {
    match r {
        Err(KabiPayError::Validation(m)) => m,
        Err(e) => panic!("expected a validation error, got {:?}", e),
        Ok(_) => panic!("expected a validation error, got Ok"),
    }
}

fn env() -> S3Env {
    S3Env {
        endpoint: Some(" https://acct.r2.cloudflarestorage.com ".into()),
        access_key_id: Some("AK".into()),
        secret_access_key: Some("SK".into()),
        region: None,
        bucket_prefix: None,
        per_tenant_bucket: None,
        default_bucket: None,
        path_style: None,
    }
}

#[test]
fn storage_modes() {
    assert_eq!(FileStorageMode::from_setting(&None), FileStorageMode::Local);
    assert_eq!(FileStorageMode::from_setting(&Some(" S3 ".into())), FileStorageMode::S3Compat);
    assert_eq!(FileStorageMode::from_setting(&Some("minio".into())), FileStorageMode::S3Compat);
    assert_eq!(FileStorageMode::from_setting(&Some("AzBlob".into())), FileStorageMode::AzureBlob);
    assert_eq!(FileStorageMode::from_setting(&Some("disk".into())), FileStorageMode::Local);
    assert_eq!(FileStorageMode::from_setting(&Some("gcs".into())), FileStorageMode::Local);
}

#[test]
fn s3_settings() {
    let s = S3CompatSettings::from_values(&env()).unwrap();
    assert_eq!(s.endpoint, "https://acct.r2.cloudflarestorage.com");
    assert_eq!((s.region.as_str(), s.bucket_prefix.as_str()), ("auto", "kabipay"));
    assert!(s.per_tenant_bucket);
    assert!(s.path_style);
    let mut e = env();
    e.endpoint = Some("https://s3.amazonaws.com".into());
    e.path_style = Some("NO".into());
    e.per_tenant_bucket = Some("False".into());
    e.default_bucket = Some(" shared ".into());
    let s = S3CompatSettings::from_values(&e).unwrap();
    assert!(!s.path_style);
    assert!(!s.per_tenant_bucket);
    assert_eq!(s.default_bucket.as_deref(), Some("shared"));
}

#[test]
fn s3_setting_errors() {
    let mut e = env();
    e.endpoint = None;
    assert_eq!(validation_text(S3CompatSettings::from_values(&e)), "KABIPAY_S3_ENDPOINT is required for s3_compat");
    let mut e = env();
    e.endpoint = Some("  ".into());
    assert_eq!(validation_text(S3CompatSettings::from_values(&e)), "KABIPAY_S3_ENDPOINT is empty");
    let mut e = env();
    e.endpoint = Some("ftp://x".into());
    assert_eq!(validation_text(S3CompatSettings::from_values(&e)), "KABIPAY_S3_ENDPOINT must be a full https:// or http:// URL");
    let mut e = env();
    e.secret_access_key = Some(String::new());
    assert_eq!(validation_text(S3CompatSettings::from_values(&e)), "KABIPAY_S3_SECRET_ACCESS_KEY is empty");
    let mut e = env();
    e.bucket_prefix = Some(String::new());
    assert_eq!(validation_text(S3CompatSettings::from_values(&e)), "KABIPAY_S3_BUCKET_PREFIX is empty");
    let mut e = env();
    e.per_tenant_bucket = Some("0".into());
    assert_eq!(validation_text(S3CompatSettings::from_values(&e)), "KABIPAY_S3_DEFAULT_BUCKET is required when KABIPAY_S3_PER_TENANT_BUCKET=0");
}

#[test]
fn blob_targets_and_rows() {
    let s = S3CompatSettings::from_values(&env()).unwrap();
    let local = blob_target(FileStorageMode::Local, &s, 1, 2).unwrap();
    assert_eq!((local.bucket, local.storage_path.as_str()), (None, "00000000-0000-0000-0000-000000000001/00000000-0000-0000-0000-000000000002"));
    let own = blob_target(FileStorageMode::S3Compat, &s, 1, 2).unwrap();
    assert_eq!((own.bucket.as_deref(), own.storage_path.as_str()), (Some("kabipay-00000000-0000-0000-0000-000000000001"), "00000000-0000-0000-0000-000000000002"));
    assert_eq!(validation_text(blob_target(FileStorageMode::AzureBlob, &s, 1, 2)), "KABIPAY_FILE_STORAGE_MODE=azure is not implemented yet.");
    let row = stored_file_row(2, 1, None, "a.png".into(), Some("image/png".into()), own, 42);
    assert_eq!((row.provider.as_str(), row.file_size_bytes, row.is_public), ("S3_COMPAT", Some(42), false));
    assert!(check_upload_size(1).is_ok());
    assert_eq!(upload_content_type(&Some(String::new())), None);
    assert_eq!(upload_content_type(&Some("text/plain".into())).as_deref(), Some("text/plain"));
    assert_eq!(local_file_root(None), "data/tenant_files");
}

#[test]
fn per_tenant_bucket_names() {
    assert_eq!(tenant_bucket_name("kabipay", 1), "kabipay-00000000-0000-0000-0000-000000000001");
}
