//! File storage: the configured backend, S3-compatible settings, upload
//! limits and where a stored file goes.
use vstd::prelude::*;

use crate::error::{is_validation, validation, KabiPayError};
use crate::ids::{uuid_text, uuid_to_string};
use crate::requests::opt_view;
use crate::text::{
    ascii_lower, chars_of, lower_seq, owned, push_str, starts_with_chars, str_eq, string_from_chars,
    to_ascii_lower, trim, trimmed,
};

verus! {

// ----------------------------------------------------------------------------
// Text helpers
// ----------------------------------------------------------------------------

/// Whether `p` occurs in `s`.
pub open spec fn contains_seq(s: Seq<char>, p: Seq<char>) -> bool {
    exists|i: int| 0 <= i && i + p.len() <= s.len() && #[trigger] s.subrange(i, i + p.len()) == p
}

/// `str::contains` over characters.
fn contains_text(s: &[char], p: &[char]) -> (r: bool)
    ensures
        r == contains_seq(s@, p@),
{
    if p.len() > s.len() {
        return false;
    }
    let mut i: usize = 0;
    let last = s.len() - p.len();
    while i <= last
        invariant
            last == s.len() - p.len(),
            p.len() <= s.len(),
            i <= s.len() - p.len() + 1,
            forall|j: int| 0 <= j < i ==> #[trigger] s@.subrange(j, j + p@.len()) != p@,
        decreases s.len() - i,
    {
        let mut k: usize = 0;
        let mut same = true;
        while k < p.len()
            invariant
                i + p.len() <= s.len(),
                k <= p.len(),
                same <==> forall|m: int| 0 <= m < k ==> s@[i + m] == p@[m],
            decreases p.len() - k,
        {
            if s[i + k] != p[k] {
                same = false;
            }
            k = k + 1;
        }
        if same {
            assert(s@.subrange(i as int, i + p@.len()) =~= p@);
            return true;
        }
        assert(s@.subrange(i as int, i + p@.len()) != p@) by {
            let m = choose|m: int| 0 <= m < p.len() && s@[i + m] != p@[m];
            assert(s@.subrange(i as int, i + p@.len())[m] != p@[m]);
        }
        i = i + 1;
    }
    assert forall|j: int| 0 <= j && j + p@.len() <= s@.len() implies #[trigger] s@.subrange(
        j,
        j + p@.len(),
    ) != p@ by {
        assert(j < i);
    }
    false
}

/// The ASCII-lower-cased text of a string.
fn ascii_lowercase(s: &str) -> (r: Vec<char>)
    ensures
        r@ == lower_seq(s@),
{
    let v = chars_of(s);
    to_ascii_lower(v.as_slice())
}

fn is_one_of(v: &Vec<char>, options: &[&str]) -> (b: bool)
    ensures
        b == exists|i: int| 0 <= i < options@.len() && v@ == options@[i]@,
{
    let mut i: usize = 0;
    while i < options.len()
        invariant
            i <= options.len(),
            forall|j: int| 0 <= j < i ==> v@ != options@[j]@,
        decreases options.len() - i,
    {
        let o = chars_of(options[i]);
        if crate::text::chars_eq(v.as_slice(), o.as_slice()) {
            return true;
        }
        i = i + 1;
    }
    false
}

// ----------------------------------------------------------------------------
// Backend
// ----------------------------------------------------------------------------

/// Top-level file storage mode.
#[derive(Clone, Copy, Debug, PartialEq, Eq, Structural)]
pub enum FileStorageMode {
    Local,
    /// Any S3 API-compatible object store.
    S3Compat,
    /// Azure Blob Storage (not implemented).
    AzureBlob,
}

/// The mode a setting selects, read trimmed and ASCII-lower-cased; unset or
/// unknown means local.
pub open spec fn storage_mode_of(raw: Option<Seq<char>>) -> FileStorageMode {
    let s = match raw {
        Some(r) => lower_seq(trimmed(r)),
        None => "local"@,
    };
    if s == "s3_compat"@ || s == "s3"@ || s == "r2"@ || s == "minio"@ {
        FileStorageMode::S3Compat
    } else if s == "azure"@ || s == "azure_blob"@ || s == "azblob"@ {
        FileStorageMode::AzureBlob
    } else {
        FileStorageMode::Local
    }
}

impl FileStorageMode {
    /// The mode for the value of `KABIPAY_FILE_STORAGE_MODE` (`None` when
    /// unset).
    pub fn from_setting(raw: &Option<String>) -> (m: FileStorageMode)
        ensures
            m == storage_mode_of(opt_view(*raw)),
    {
        let s: Vec<char> = match raw {
            Some(r) => {
                let t = trim(r.as_str());
                ascii_lowercase(t.as_str())
            },
            None => chars_of("local"),
        };
        if is_one_of(&s, &["s3_compat", "s3", "r2", "minio"]) {
            FileStorageMode::S3Compat
        } else if is_one_of(&s, &["azure", "azure_blob", "azblob"]) {
            FileStorageMode::AzureBlob
        } else {
            FileStorageMode::Local
        }
    }
}

// ----------------------------------------------------------------------------
// S3-compatible settings
// ----------------------------------------------------------------------------

/// Shared settings for S3-compatible APIs.
#[derive(Clone, Debug)]
pub struct S3CompatSettings {
    pub endpoint: String,
    /// Region, or `auto`.
    pub region: String,
    pub access_key_id: String,
    pub secret_access_key: String,
    /// Path-style addressing (`https://host/bucket/key`).
    pub path_style: bool,
    /// Prefix of per-tenant bucket names.
    pub bucket_prefix: String,
    /// One bucket per tenant.
    pub per_tenant_bucket: bool,
    /// The shared bucket, required without per-tenant buckets.
    pub default_bucket: Option<String>,
}

impl S3CompatSettings {
    /// Without per-tenant buckets a shared bucket is set.
    pub open spec fn wf(self) -> bool {
        !self.per_tenant_bucket ==> self.default_bucket is Some
    }
}

/// The raw values of the `KABIPAY_S3_*` settings (`None` when unset).
#[derive(Clone, Debug)]
pub struct S3Env {
    pub endpoint: Option<String>,
    pub access_key_id: Option<String>,
    pub secret_access_key: Option<String>,
    pub region: Option<String>,
    pub bucket_prefix: Option<String>,
    pub per_tenant_bucket: Option<String>,
    pub default_bucket: Option<String>,
    pub path_style: Option<String>,
}

/// A required setting, trimmed: unset and empty are refused with the given
/// texts.
fn required_setting(raw: &Option<String>, missing: &str, empty: &str) -> (r: Result<String, KabiPayError>)
    ensures
        raw is None ==> is_validation(r, missing@),
        raw matches Some(v) ==> (trimmed(v@).len() == 0 ==> is_validation(r, empty@)),
        raw matches Some(v) ==> (trimmed(v@).len() > 0 ==> (r matches Ok(t) && t@ == trimmed(v@))),
{
    match raw {
        None => Err(validation(missing)),
        Some(v) => {
            let t = trim(v.as_str());
            if t.as_str().is_empty() {
                Err(validation(empty))
            } else {
                Ok(t)
            }
        },
    }
}

/// Whether a per-tenant-bucket setting (default `1`) keeps per-tenant
/// buckets: only `0`, `false` and `no` (any ASCII case) turn them off.
pub open spec fn per_tenant_of(raw: Option<Seq<char>>) -> bool {
    let s = match raw {
        Some(r) => lower_seq(r),
        None => "1"@,
    };
    !(s == "0"@ || s == "false"@ || s == "no"@)
}

/// Path-style addressing: an explicit `1`, `true`, `yes` or `path` (any
/// ASCII case) turns it on; when unset, it is on for Cloudflare R2 account
/// endpoints.
pub open spec fn path_style_of(raw: Option<Seq<char>>, endpoint: Seq<char>) -> bool {
    match raw {
        None => contains_seq(lower_seq(endpoint), "r2.cloudflarestorage.com"@),
        Some(v) => {
            let l = lower_seq(v);
            l == "1"@ || l == "true"@ || l == "yes"@ || l == "path"@
        },
    }
}

/// A setting read trimmed; absent when unset or blank.
pub open spec fn trimmed_setting(raw: Option<Seq<char>>) -> Option<Seq<char>> {
    match raw {
        Some(r) => if trimmed(r).len() > 0 {
            Some(trimmed(r))
        } else {
            None
        },
        None => None,
    }
}

/// An endpoint must be a full `https://` or `http://` URL.
pub open spec fn is_http_url(e: Seq<char>) -> bool {
    (e.len() >= 8 && e.subrange(0, 8) == "https://"@) || (e.len() >= 7 && e.subrange(0, 7)
        == "http://"@)
}

/// Why a required setting is refused: unset, or blank once trimmed.
pub open spec fn required_setting_error(raw: Option<Seq<char>>, missing: Seq<char>, empty: Seq<char>) -> Option<
    Seq<char>,
> {
    match raw {
        None => Some(missing),
        Some(v) => if trimmed(v).len() == 0 {
            Some(empty)
        } else {
            None
        },
    }
}

/// The first reason the S3 settings are refused, if any, in the order they
/// are checked.
pub open spec fn s3_settings_error(env: S3Env) -> Option<Seq<char>> {
    let endpoint = required_setting_error(
        opt_view(env.endpoint),
        "KABIPAY_S3_ENDPOINT is required for s3_compat"@,
        "KABIPAY_S3_ENDPOINT is empty"@,
    );
    let access = required_setting_error(
        opt_view(env.access_key_id),
        "KABIPAY_S3_ACCESS_KEY_ID is required for s3_compat"@,
        "KABIPAY_S3_ACCESS_KEY_ID is empty"@,
    );
    let secret = required_setting_error(
        opt_view(env.secret_access_key),
        "KABIPAY_S3_SECRET_ACCESS_KEY is required for s3_compat"@,
        "KABIPAY_S3_SECRET_ACCESS_KEY is empty"@,
    );
    if endpoint is Some {
        endpoint
    } else if !is_http_url(trimmed(opt_view(env.endpoint)->0)) {
        Some("KABIPAY_S3_ENDPOINT must be a full https:// or http:// URL"@)
    } else if access is Some {
        access
    } else if secret is Some {
        secret
    } else if crate::ops::or_default(env.bucket_prefix, "kabipay"@).len() == 0 {
        Some("KABIPAY_S3_BUCKET_PREFIX is empty"@)
    } else if !per_tenant_of(opt_view(env.per_tenant_bucket)) && trimmed_setting(
        opt_view(env.default_bucket),
    ) is None {
        Some("KABIPAY_S3_DEFAULT_BUCKET is required when KABIPAY_S3_PER_TENANT_BUCKET=0"@)
    } else {
        None
    }
}

impl S3CompatSettings {
    /// Builds the settings from raw values, in order: the endpoint (set, not
    /// empty, an http(s) URL), the access key id, the secret key (each set and
    /// not empty, all three trimmed), a bucket prefix that is not empty
    /// (default `kabipay`), and a shared bucket when per-tenant buckets are
    /// off. The region defaults to `auto`.
    pub fn from_values(env: &S3Env) -> (r: Result<S3CompatSettings, KabiPayError>)
        ensures
            env.endpoint is None ==> is_validation(r, "KABIPAY_S3_ENDPOINT is required for s3_compat"@),
            r matches Err(e) ==> e is Validation,
            match s3_settings_error(*env) {
                Some(m) => is_validation(r, m),
                None => r is Ok,
            },
            r matches Ok(s) ==> {
                &&& s.wf()
                &&& Some(s.endpoint@) == trimmed_setting(opt_view(env.endpoint))
                &&& is_http_url(s.endpoint@)
                &&& Some(s.access_key_id@) == trimmed_setting(opt_view(env.access_key_id))
                &&& Some(s.secret_access_key@) == trimmed_setting(opt_view(env.secret_access_key))
                &&& s.region@ == crate::ops::or_default(env.region, "auto"@)
                &&& s.bucket_prefix@ == crate::ops::or_default(env.bucket_prefix, "kabipay"@)
                &&& s.bucket_prefix@.len() > 0
                &&& s.per_tenant_bucket == per_tenant_of(opt_view(env.per_tenant_bucket))
                &&& opt_view(s.default_bucket) == trimmed_setting(opt_view(env.default_bucket))
                &&& s.path_style == path_style_of(opt_view(env.path_style), s.endpoint@)
            },
            r is Ok <==> ({
                &&& trimmed_setting(opt_view(env.endpoint)) matches Some(e) && is_http_url(e)
                &&& trimmed_setting(opt_view(env.access_key_id)) is Some
                &&& trimmed_setting(opt_view(env.secret_access_key)) is Some
                &&& crate::ops::or_default(env.bucket_prefix, "kabipay"@).len() > 0
                &&& (per_tenant_of(opt_view(env.per_tenant_bucket)) || trimmed_setting(
                    opt_view(env.default_bucket),
                ) is Some)
            }),
    {
        let endpoint = required_setting(
            &env.endpoint,
            "KABIPAY_S3_ENDPOINT is required for s3_compat",
            "KABIPAY_S3_ENDPOINT is empty",
        )?;
        let ev = chars_of(endpoint.as_str());
        let https = chars_of("https://");
        let http = chars_of("http://");
        proof {
            reveal_strlit("https://");
            reveal_strlit("http://");
        }
        if !starts_with_chars(ev.as_slice(), https.as_slice()) && !starts_with_chars(
            ev.as_slice(),
            http.as_slice(),
        ) {
            return Err(validation("KABIPAY_S3_ENDPOINT must be a full https:// or http:// URL"));
        }
        let access_key_id = required_setting(
            &env.access_key_id,
            "KABIPAY_S3_ACCESS_KEY_ID is required for s3_compat",
            "KABIPAY_S3_ACCESS_KEY_ID is empty",
        )?;
        let secret_access_key = required_setting(
            &env.secret_access_key,
            "KABIPAY_S3_SECRET_ACCESS_KEY is required for s3_compat",
            "KABIPAY_S3_SECRET_ACCESS_KEY is empty",
        )?;
        let region = match &env.region {
            Some(v) => owned(v.as_str()),
            None => owned("auto"),
        };
        let bucket_prefix = match &env.bucket_prefix {
            Some(v) => owned(v.as_str()),
            None => owned("kabipay"),
        };
        if bucket_prefix.as_str().is_empty() {
            return Err(validation("KABIPAY_S3_BUCKET_PREFIX is empty"));
        }
        let pt: Vec<char> = match &env.per_tenant_bucket {
            Some(v) => ascii_lowercase(v.as_str()),
            None => chars_of("1"),
        };
        let per_tenant_bucket = !is_one_of(&pt, &["0", "false", "no"]);
        let default_bucket = match &env.default_bucket {
            Some(v) => {
                let t = trim(v.as_str());
                if t.as_str().is_empty() {
                    None
                } else {
                    Some(t)
                }
            },
            None => None,
        };
        if !per_tenant_bucket && default_bucket.is_none() {
            return Err(
                validation(
                    "KABIPAY_S3_DEFAULT_BUCKET is required when KABIPAY_S3_PER_TENANT_BUCKET=0",
                ),
            );
        }
        let path_style = match &env.path_style {
            None => {
                let l = ascii_lowercase(endpoint.as_str());
                let r2 = chars_of("r2.cloudflarestorage.com");
                contains_text(l.as_slice(), r2.as_slice())
            },
            Some(v) => {
                let l = ascii_lowercase(v.as_str());
                is_one_of(&l, &["1", "true", "yes", "path"])
            },
        };
        Ok(
            S3CompatSettings {
                endpoint,
                region,
                access_key_id,
                secret_access_key,
                path_style,
                bucket_prefix,
                per_tenant_bucket,
                default_bucket,
            },
        )
    }
}

// ----------------------------------------------------------------------------
// Uploads
// ----------------------------------------------------------------------------

/// Largest upload accepted, in bytes (6 MiB).
pub open spec fn max_upload_bytes() -> int {
    6291456
}

/// An upload must not be empty nor larger than 6 MiB.
pub fn check_upload_size(len: usize) -> (r: Result<(), KabiPayError>)
    ensures
        len == 0 ==> is_validation(r, "upload file content must not be empty"@),
        len > max_upload_bytes() ==> is_validation(r, "file exceeds max size of 6291456 bytes"@),
        r is Ok <==> 0 < len <= max_upload_bytes(),
{
    if len == 0 {
        return Err(validation("upload file content must not be empty"));
    }
    if len > 6291456 {
        return Err(validation("file exceeds max size of 6291456 bytes"));
    }
    Ok(())
}

/// `{tenant_id}/{file_id}`.
pub open spec fn tenant_file_path(tenant_id: u128, file_id: u128) -> Seq<char> {
    uuid_text(tenant_id) + "/"@ + uuid_text(file_id)
}

fn tenant_file_path_exec(tenant_id: u128, file_id: u128) -> (r: String)
    ensures
        r@ == tenant_file_path(tenant_id, file_id),
{
    let mut s = uuid_to_string(tenant_id);
    push_str(&mut s, "/");
    push_str(&mut s, uuid_to_string(file_id).as_str());
    s
}

/// Where a stored file goes: an optional bucket and a path.
/// The per-tenant bucket name: `{prefix}-{tenant uuid}`.
pub open spec fn tenant_bucket_text(prefix: Seq<char>, tenant_id: u128) -> Seq<char> {
    prefix + "-"@ + uuid_text(tenant_id)
}

/// The bucket of a tenant when each tenant has its own bucket.
pub fn tenant_bucket_name(bucket_prefix: &str, tenant_id: u128) -> (r: String)
    ensures
        r@ == tenant_bucket_text(bucket_prefix@, tenant_id),
{
    let mut s = owned(bucket_prefix);
    push_str(&mut s, "-");
    push_str(&mut s, uuid_to_string(tenant_id).as_str());
    s
}

#[derive(Clone, Debug)]
pub struct BlobTarget {
    pub bucket: Option<String>,
    pub storage_path: String,
}

/// Where a new file goes. Local disk: under `{tenant}/{file}` with no
/// bucket. S3-compatible: in the tenant's own bucket (`tenant_bucket`, the
/// name derived from the prefix) under the file id, or in the shared bucket
/// under `{tenant}/{file}`. Azure is refused.
pub fn blob_target(
    mode: FileStorageMode,
    settings: &S3CompatSettings,
    tenant_id: u128,
    file_id: u128,
) -> (r: Result<BlobTarget, KabiPayError>)
    requires
        settings.wf(),
    ensures
        mode == FileStorageMode::Local ==> (r matches Ok(t) && t.bucket is None && t.storage_path@
            == tenant_file_path(tenant_id, file_id)),
        mode == FileStorageMode::S3Compat && settings.per_tenant_bucket ==> (r matches Ok(t)
            && opt_view(t.bucket) == Some(tenant_bucket_text(settings.bucket_prefix@, tenant_id))
            && t.storage_path@ == uuid_text(file_id)),
        mode == FileStorageMode::S3Compat && !settings.per_tenant_bucket ==> (r matches Ok(t)
            && opt_view(t.bucket) == opt_view(settings.default_bucket) && t.storage_path@
            == tenant_file_path(tenant_id, file_id)),
        mode == FileStorageMode::AzureBlob ==> is_validation(
            r,
            "KABIPAY_FILE_STORAGE_MODE=azure is not implemented yet."@,
        ),
{
    match mode {
        FileStorageMode::Local => Ok(
            BlobTarget { bucket: None, storage_path: tenant_file_path_exec(tenant_id, file_id) },
        ),
        FileStorageMode::S3Compat => {
            if settings.per_tenant_bucket {
                Ok(
                    BlobTarget {
                        bucket: Some(tenant_bucket_name(settings.bucket_prefix.as_str(), tenant_id)),
                        storage_path: uuid_to_string(file_id),
                    },
                )
            } else {
                let b = match &settings.default_bucket {
                    Some(b) => owned(b.as_str()),
                    None => owned(""),
                };
                Ok(
                    BlobTarget {
                        bucket: Some(b),
                        storage_path: tenant_file_path_exec(tenant_id, file_id),
                    },
                )
            }
        },
        FileStorageMode::AzureBlob => Err(
            validation("KABIPAY_FILE_STORAGE_MODE=azure is not implemented yet."),
        ),
    }
}

/// The content type handed to the object store: the MIME type when it is
/// not empty.
pub fn upload_content_type(mime_type: &Option<String>) -> (r: Option<String>)
    ensures
        opt_view(r) == crate::requests::non_empty(*mime_type),
{
    match mime_type {
        Some(m) => if m.as_str().is_empty() {
            None
        } else {
            Some(owned(m.as_str()))
        },
        None => None,
    }
}

/// A `file_storage` row.
#[derive(Clone, Debug)]
pub struct StoredFile {
    pub id: u128,
    pub tenant_id: u128,
    pub provider: String,
    pub bucket: Option<String>,
    pub storage_path: String,
    pub original_filename: Option<String>,
    pub mime_type: Option<String>,
    pub file_size_bytes: Option<i64>,
    pub is_public: bool,
    pub uploaded_by: Option<u128>,
}

/// The row recorded for a stored file: provider `S3_COMPAT` when it went to
/// a bucket, else `LOCAL`; private; with the uploader, name, type and size.
pub fn stored_file_row(
    file_id: u128,
    tenant_id: u128,
    uploaded_by: Option<u128>,
    original_filename: String,
    mime_type: Option<String>,
    target: BlobTarget,
    size: usize,
) -> (f: StoredFile)
    requires
        size <= max_upload_bytes(),
    ensures
        f.id == file_id,
        f.tenant_id == tenant_id,
        f.provider@ == if target.bucket is Some {
            "S3_COMPAT"@
        } else {
            "LOCAL"@
        },
        f.bucket == target.bucket,
        f.storage_path == target.storage_path,
        f.original_filename == Some(original_filename),
        f.mime_type == mime_type,
        f.file_size_bytes == Some(size as i64),
        !f.is_public,
        f.uploaded_by == uploaded_by,
{
    let provider = if target.bucket.is_some() {
        owned("S3_COMPAT")
    } else {
        owned("LOCAL")
    };
    StoredFile {
        id: file_id,
        tenant_id,
        provider,
        bucket: target.bucket,
        storage_path: target.storage_path,
        original_filename: Some(original_filename),
        mime_type,
        file_size_bytes: Some(size as i64),
        is_public: false,
        uploaded_by,
    }
}

/// The local file root from `KABIPAY_LOCAL_FILE_ROOT` (default
/// `data/tenant_files`).
pub fn local_file_root(raw: Option<String>) -> (r: String)
    ensures
        r@ == crate::ops::or_default(raw, "data/tenant_files"@),
{
    match raw {
        Some(v) => v,
        None => owned("data/tenant_files"),
    }
}

} // verus!
