use kabipay::token::{
    claims_live, download_claims, public_download_url, read_url_ttl, sign_download_token,
    verify_download_token,
};

#[test]
fn signed_tokens_verify_to_their_claims() {
    let json = r#"{"tenant_id":"t","file_storage_id":"f","exp":100,"mime_type":null}"#;
    let t = sign_download_token(json, b"secret");
    assert_eq!(t.matches('.').count(), 1);
    assert_eq!(verify_download_token(&t, b"secret").as_deref(), Some(json));
    assert_eq!(verify_download_token(&t, b"other"), None);
}

#[test]
fn tampered_tokens_are_refused() {
    let t = sign_download_token("{\"exp\":1}", b"k");
    let (p, s) = t.split_once('.').unwrap();
    let forged = format!("{}.{}", sign_download_token("{\"exp\":2}", b"k").split_once('.').unwrap().0, s);
    assert_eq!(verify_download_token(&forged, b"k"), None);
    assert_eq!(verify_download_token(p, b"k"), None);
    assert_eq!(verify_download_token("not base64!.x", b"k"), None);
}

#[test]
fn token_encoding_is_url_safe_base64_without_padding() {
    let t = sign_download_token("ab", b"k");
    assert!(t.starts_with("YWI."));
    assert!(!t.contains('='));
}

#[test]
fn lifetimes() {
    assert_eq!(read_url_ttl(10), 60);
    assert_eq!(read_url_ttl(600), 600);
    assert_eq!(read_url_ttl(100_000), 86_400);
    let c = download_claims(1, 2, None, 600, 1_000);
    assert_eq!(c.exp, 1_600);
    assert!(claims_live(c.exp, 1_600));
    assert!(!claims_live(c.exp, 1_601));
}

#[test]
fn download_urls() {
    assert_eq!(
        public_download_url("http://127.0.0.1:4013", "abc.d-f_"),
        "http://127.0.0.1:4013/files/employee-document?token=abc.d-f_"
    );
    assert_eq!(
        public_download_url("https://x", "a b/é"),
        "https://x/files/employee-document?token=a%20b%2F%C3%A9"
    );
}
