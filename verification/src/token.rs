//! Short-lived download tokens: `base64url(claims_json).base64url(hmac)`,
//! signed with HMAC-SHA256, and the download URL that carries one.
use vstd::prelude::*;
use vstd::utf8::{decode_utf8, encode_utf8, valid_utf8};

use crate::text::{chars_of, owned, push_char, push_str, string_from_chars};

verus! {

broadcast use vstd::utf8::encode_utf8_valid_utf8, vstd::utf8::encode_utf8_decode_utf8;

// ----------------------------------------------------------------------------
// Outside primitives
// ----------------------------------------------------------------------------

/// The URL-safe base64 alphabet.
pub open spec fn b64_char(v: int) -> char {
    if v < 26 {
        (65 + v) as char
    } else if v < 52 {
        (97 + v - 26) as char
    } else if v < 62 {
        (48 + v - 52) as char
    } else if v == 62 {
        '-'
    } else {
        '_'
    }
}

/// Unpadded URL-safe base64 of `b`: each group of three bytes gives four
/// characters, a trailing group of one or two bytes gives two or three.
pub open spec fn b64url_text(b: Seq<u8>) -> Seq<char>
    decreases b.len(),
{
    if b.len() == 0 {
        seq![]
    } else if b.len() == 1 {
        seq![b64_char((b[0] / 4) as int), b64_char((b[0] % 4) * 16)]
    } else if b.len() == 2 {
        seq![
            b64_char((b[0] / 4) as int),
            b64_char((b[0] % 4) * 16 + b[1] / 16),
            b64_char((b[1] % 16) * 4),
        ]
    } else {
        seq![
            b64_char((b[0] / 4) as int),
            b64_char((b[0] % 4) * 16 + b[1] / 16),
            b64_char((b[1] % 16) * 4 + b[2] / 64),
            b64_char((b[2] % 64) as int),
        ] + b64url_text(b.subrange(3, b.len() as int))
    }
}

/// What `URL_SAFE_NO_PAD.decode` gives for a text, `None` when it refuses it.
pub uninterp spec fn b64url_decoded(t: Seq<char>) -> Option<Seq<u8>>;

/// HMAC-SHA256 of `msg` under `key`.
pub uninterp spec fn hmac_sha256(key: Seq<u8>, msg: Seq<u8>) -> Seq<u8>;

/// `base64::engine::general_purpose::URL_SAFE_NO_PAD.encode`.
#[verifier::external_body]
fn b64url_encode(b: &[u8]) -> (r: String)
    ensures
        r@ == b64url_text(b@),
{
    base64::Engine::encode(&base64::engine::general_purpose::URL_SAFE_NO_PAD, b)
}

/// `URL_SAFE_NO_PAD.decode`: the bytes, or `None` when the text is refused.
/// Decoding what the engine encoded gives the bytes back.
#[verifier::external_body]
fn b64url_decode(t: &str) -> (r: Option<Vec<u8>>)
    ensures
        r is None <==> b64url_decoded(t@) is None,
        r matches Some(v) ==> b64url_decoded(t@) == Some(v@),
        r is Some || forall|b: Seq<u8>| #[trigger] b64url_text(b) != t@,
        r matches Some(v) ==> forall|b: Seq<u8>| #[trigger] b64url_text(b) == t@ ==> v@ == b,
{
    base64::Engine::decode(&base64::engine::general_purpose::URL_SAFE_NO_PAD, t).ok()
}

/// `Hmac::<Sha256>::new_from_slice(key)` (accepts any key length), `update`,
/// `finalize`: the 32-byte tag.
#[verifier::external_body]
fn hmac_tag(key: &[u8], msg: &[u8]) -> (r: Vec<u8>)
    ensures
        r@ == hmac_sha256(key@, msg@),
{
    let mut mac = <hmac::Hmac<sha2::Sha256> as hmac::Mac>::new_from_slice(key).unwrap();
    hmac::Mac::update(&mut mac, msg);
    hmac::Mac::finalize(mac).into_bytes().to_vec()
}

/// `Mac::verify_slice`: whether `tag` is the tag of `msg` under `key`
/// (compared in constant time; a tag of another length is refused).
#[verifier::external_body]
fn hmac_verify(key: &[u8], msg: &[u8], tag: &[u8]) -> (r: bool)
    ensures
        r == (tag@ == hmac_sha256(key@, msg@)),
{
    let mut mac = <hmac::Hmac<sha2::Sha256> as hmac::Mac>::new_from_slice(key).unwrap();
    hmac::Mac::update(&mut mac, msg);
    hmac::Mac::verify_slice(mac, tag).is_ok()
}

/// `String::from_utf8`: the text when the bytes are valid UTF-8.
#[verifier::external_body]
fn utf8_text(b: Vec<u8>) -> (r: Option<String>)
    ensures
        r is Some <==> valid_utf8(b@),
        r matches Some(s) ==> s@ == decode_utf8(b@),
{
    String::from_utf8(b).ok()
}

/// Byte of an unreserved URL character (`A-Z a-z 0-9 - . _ ~`).
pub open spec fn url_unreserved(b: u8) -> bool {
    (48 <= b <= 57) || (65 <= b <= 90) || (97 <= b <= 122) || b == 45 || b == 46 || b == 95 || b
        == 126
}

/// Upper-case hexadecimal digit.
pub open spec fn hex_upper(d: int) -> char {
    if d < 10 {
        (48 + d) as char
    } else {
        (55 + d) as char
    }
}

/// Percent-encoding of bytes: unreserved bytes as they are, every other
/// byte as `%XX`.
pub open spec fn percent_encoded(b: Seq<u8>) -> Seq<char>
    decreases b.len(),
{
    if b.len() == 0 {
        seq![]
    } else {
        let rest = percent_encoded(b.drop_last());
        let x = b.last();
        if url_unreserved(x) {
            rest.push(x as char)
        } else {
            rest + seq!['%', hex_upper((x / 16) as int), hex_upper((x % 16) as int)]
        }
    }
}

/// `urlencoding::encode`: percent-encodes every byte of the UTF-8 text
/// except the unreserved ones.
#[verifier::external_body]
fn url_encode(s: &str) -> (r: String)
    ensures
        r@ == percent_encoded(encode_utf8(s@)),
{
    urlencoding::encode(s).into_owned()
}

// ----------------------------------------------------------------------------
// Tokens
// ----------------------------------------------------------------------------

/// The token for a claims text: its base64url, a dot, the base64url of its
/// HMAC under `secret`.
pub open spec fn signed_token_text(json: Seq<char>, secret: Seq<u8>) -> Seq<char> {
    b64url_text(encode_utf8(json)) + seq!['.'] + b64url_text(hmac_sha256(secret, encode_utf8(json)))
}

/// Signs a claims JSON text.
pub fn sign_download_token(claims_json: &str, secret: &[u8]) -> (r: String)
    ensures
        r@ == signed_token_text(claims_json@, secret@),
{
    let bytes = claims_json.as_bytes();
    let tag = hmac_tag(secret, bytes);
    let mut t = b64url_encode(bytes);
    push_char(&mut t, '.');
    let s = b64url_encode(tag.as_slice());
    push_str(&mut t, s.as_str());
    t
}

/// Index of the first `.` in `s`, if any.
pub open spec fn first_dot(s: Seq<char>) -> Option<int> {
    if exists|i: int| 0 <= i < s.len() && s[i] == '.' {
        Some(choose|i: int| 0 <= i < s.len() && s[i] == '.' && forall|j: int| 0 <= j < i ==> s[j] != '.')
    } else {
        None
    }
}

/// The claims text a token carries when its signature checks out under
/// `secret`: split at the first `.`, both halves base64url, the first one
/// UTF-8, the second its HMAC.
pub open spec fn token_payload(token: Seq<char>, secret: Seq<u8>) -> Option<Seq<char>> {
    match first_dot(token) {
        None => None,
        Some(k) => {
            let p = token.take(k);
            let s = token.skip(k + 1);
            match (b64url_decoded(p), b64url_decoded(s)) {
                (Some(pb), Some(tag)) => if valid_utf8(pb) && tag == hmac_sha256(secret, pb) {
                    Some(decode_utf8(pb))
                } else {
                    None
                },
                _ => None,
            }
        },
    }
}

proof fn lemma_b64_char_not_dot(v: int)
    requires
        0 <= v < 64,
    ensures
        b64_char(v) != '.',
{
    if v < 26 {
        assert((65 + v) as char != '.');
    } else if v < 52 {
        assert((97 + v - 26) as char != '.');
    } else if v < 62 {
        assert((48 + v - 52) as char != '.');
    }
}

proof fn lemma_b64_no_dot(b: Seq<u8>)
    ensures
        forall|i: int| 0 <= i < b64url_text(b).len() ==> #[trigger] b64url_text(b)[i] != '.',
    decreases b.len(),
{
    if b.len() > 0 {
        lemma_b64_char_not_dot((b[0] / 4) as int);
    }
    if b.len() == 1 {
        lemma_b64_char_not_dot(((b[0] % 4) * 16) as int);
    } else if b.len() == 2 {
        lemma_b64_char_not_dot((b[0] % 4) * 16 + b[1] / 16);
        lemma_b64_char_not_dot((b[1] % 16) * 4);
    } else if b.len() > 2 {
        lemma_b64_char_not_dot((b[0] % 4) * 16 + b[1] / 16);
        lemma_b64_char_not_dot((b[1] % 16) * 4 + b[2] / 64);
        lemma_b64_char_not_dot((b[2] % 64) as int);
        lemma_b64_no_dot(b.subrange(3, b.len() as int));
        let head = seq![
            b64_char((b[0] / 4) as int),
            b64_char((b[0] % 4) * 16 + b[1] / 16),
            b64_char((b[1] % 16) * 4 + b[2] / 64),
            b64_char((b[2] % 64) as int),
        ];
        let rest = b64url_text(b.subrange(3, b.len() as int));
        assert(b64url_text(b) == head + rest);
        assert forall|i: int| 0 <= i < b64url_text(b).len() implies #[trigger] b64url_text(b)[i]
            != '.' by {
            if i >= 4 {
                assert(b64url_text(b)[i] == rest[i - 4]);
            }
        }
    }
}

proof fn lemma_first_dot_at(s: Seq<char>, k: int)
    requires
        0 <= k < s.len(),
        s[k] == '.',
        forall|j: int| 0 <= j < k ==> s[j] != '.',
    ensures
        first_dot(s) == Some(k),
{
    let c = choose|i: int| 0 <= i < s.len() && s[i] == '.' && forall|j: int| 0 <= j < i ==> s[j] != '.';
    if c < k {
        assert(s[c] != '.');
    } else if c > k {
        assert(s[k] != '.');
    }
}

/// Checks a token's signature and gives back the claims text it carries. A
/// token made by [`sign_download_token`] with the same secret always checks
/// out and gives back the text it was made from.
pub fn verify_download_token(token: &str, secret: &[u8]) -> (r: Option<String>)
    ensures
        r is Some <==> token_payload(token@, secret@) is Some,
        r matches Some(j) ==> token_payload(token@, secret@) == Some(j@),
        forall|json: Seq<char>|
            #[trigger] signed_token_text(json, secret@) == token@ ==> (r matches Some(j) && j@ == json),
{
    let v = chars_of(token);
    let mut k: usize = 0;
    while k < v.len() && v[k] != '.'
        invariant
            k <= v.len(),
            v@ == token@,
            forall|j: int| 0 <= j < k ==> v@[j] != '.',
        decreases v.len() - k,
    {
        k = k + 1;
    }
    proof {
        assert forall|json: Seq<char>| #[trigger] signed_token_text(json, secret@) == token@ implies k
            == b64url_text(encode_utf8(json)).len() by {
            let p = b64url_text(encode_utf8(json));
            lemma_b64_no_dot(encode_utf8(json));
            assert(token@[p.len() as int] == '.');
            assert forall|j: int| 0 <= j < p.len() implies token@[j] != '.' by {
                assert(token@[j] == p[j]);
            }
            if k < p.len() {
                assert(v@[k as int] == p[k as int]);
            }
        }
    }
    if k == v.len() {
        assert(first_dot(token@) is None);
        return None;
    }
    proof {
        lemma_first_dot_at(token@, k as int);
    }
    let mut pv: Vec<char> = Vec::new();
    let mut i: usize = 0;
    while i < k
        invariant
            i <= k < v.len(),
            pv@ == v@.take(i as int),
        decreases k - i,
    {
        pv.push(v[i]);
        assert(v@.take(i as int).push(v@[i as int]) == v@.take((i + 1) as int));
        i = i + 1;
    }
    let mut sv: Vec<char> = Vec::new();
    let mut i: usize = k + 1;
    while i < v.len()
        invariant
            k + 1 <= i <= v.len(),
            sv@ == v@.subrange(k + 1, i as int),
        decreases v.len() - i,
    {
        sv.push(v[i]);
        assert(v@.subrange(k + 1, i as int).push(v@[i as int]) == v@.subrange(
            k + 1,
            (i + 1) as int,
        ));
        i = i + 1;
    }
    let p = string_from_chars(pv.as_slice());
    let s = string_from_chars(sv.as_slice());
    assert(s@ == token@.skip(k + 1));
    proof {
        assert forall|json: Seq<char>| #[trigger] signed_token_text(json, secret@) == token@ implies p@
            == b64url_text(encode_utf8(json)) && s@ == b64url_text(
            hmac_sha256(secret@, encode_utf8(json)),
        ) by {
            let pt = b64url_text(encode_utf8(json));
            assert(p@ =~= pt);
            assert(s@ =~= b64url_text(hmac_sha256(secret@, encode_utf8(json))));
        }
    }
    let pb = match b64url_decode(p.as_str()) {
        None => {
            return None;
        },
        Some(b) => b,
    };
    let ghost pbv = pb@;
    let json = match utf8_text(pb) {
        None => {
            return None;
        },
        Some(j) => j,
    };
    let tag = match b64url_decode(s.as_str()) {
        None => {
            return None;
        },
        Some(t) => t,
    };
    let jb = json.as_str().as_bytes();
    proof {
        vstd::utf8::decode_utf8_encode_utf8(pbv);
    }
    assert(jb@ == pbv);
    if !hmac_verify(secret, jb, tag.as_slice()) {
        return None;
    }
    Some(json)
}

/// Claims expiring at `exp` are valid at `now` up to and including `exp`.
pub open spec fn live_at(exp: int, now: int) -> bool {
    exp >= now
}

/// Whether claims expiring at `exp` are still valid at `now` (seconds).
pub fn claims_live(exp: i64, now: i64) -> (b: bool)
    ensures
        b == live_at(exp as int, now as int),
{
    !(exp < now)
}

/// What a download token grants.
#[derive(Clone, Debug)]
pub struct FileDownloadClaims {
    pub tenant_id: u128,
    pub file_storage_id: u128,
    /// Expiry, seconds since the epoch.
    pub exp: i64,
    pub mime_type: Option<String>,
}

/// Claims for a download link valid `ttl_seconds` from `now`.
pub fn download_claims(
    tenant_id: u128,
    file_storage_id: u128,
    mime_type: Option<String>,
    ttl_seconds: i64,
    now: i64,
) -> (c: FileDownloadClaims)
    requires
        i64::MIN <= now + ttl_seconds <= i64::MAX,
    ensures
        c.tenant_id == tenant_id,
        c.file_storage_id == file_storage_id,
        c.exp == now + ttl_seconds,
        c.mime_type == mime_type,
{
    FileDownloadClaims { tenant_id, file_storage_id, exp: now + ttl_seconds, mime_type }
}

/// The lifetime of a signed read URL for a requested number of seconds:
/// kept within one minute and one day.
pub open spec fn read_url_lifetime(requested: int) -> int {
    if requested < 60 {
        60
    } else if requested > 86400 {
        86400
    } else {
        requested
    }
}

/// The lifetime of a signed read URL: the requested seconds kept within one
/// minute and one day.
pub fn read_url_ttl(ttl_seconds: i32) -> (t: i64)
    ensures
        t == read_url_lifetime(ttl_seconds as int),
{
    let c = if ttl_seconds < 60 {
        60
    } else if ttl_seconds > 86400 {
        86400
    } else {
        ttl_seconds
    };
    c as i64
}

/// Whatever lifetime is requested, a read link issued at `now` (claims
/// expiring at `now` plus [`read_url_lifetime`]) is valid for at least its
/// first minute and never after one day; with a requested lifetime between
/// one minute and one day it is valid exactly up to `now` plus that
/// lifetime.
pub proof fn law_link_valid_for_its_lifetime(requested: int, now: int, at: int)
    ensures
        now <= at <= now + 60 ==> live_at(now + read_url_lifetime(requested), at),
        at > now + 86400 ==> !live_at(now + read_url_lifetime(requested), at),
        60 <= requested <= 86400 ==> (live_at(now + read_url_lifetime(requested), at) <==> at
            <= now + requested),
{
}

/// `{base}/files/employee-document?token={url-encoded token}`.
pub open spec fn download_url_text(base: Seq<char>, token: Seq<char>) -> Seq<char> {
    base + "/files/employee-document?token="@ + percent_encoded(encode_utf8(token))
}

/// The public download URL for a token; `base` is the service's public base
/// URL.
pub fn public_download_url(base: &str, token: &str) -> (r: String)
    ensures
        r@ == download_url_text(base@, token@),
{
    let mut s = owned(base);
    push_str(&mut s, "/files/employee-document?token=");
    let e = url_encode(token);
    push_str(&mut s, e.as_str());
    s
}

} // verus!
