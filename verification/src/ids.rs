//! Identifiers: UUIDs travel through the library as their 128-bit value.
use vstd::prelude::*;

verus! {

/// `16^n`.
pub open spec fn pow16(n: nat) -> nat
    decreases n,
{
    if n == 0 {
        1
    } else {
        16 * pow16((n - 1) as nat)
    }
}

/// Lower-case hexadecimal digit of `0..16`.
pub open spec fn hex_char(n: nat) -> char {
    if n < 10 {
        ((n + 48) as u8) as char
    } else {
        ((n + 87) as u8) as char
    }
}

/// The 32 lower-case hex digits of a 128-bit value, most significant first.
pub open spec fn hex32(v: u128) -> Seq<char> {
    Seq::new(32, |i: int| hex_char(((v as nat) / pow16((31 - i) as nat)) % 16))
}

/// Hyphenated UUID text `8-4-4-4-12`.
pub open spec fn uuid_text(v: u128) -> Seq<char> {
    let h = hex32(v);
    h.subrange(0, 8) + seq!['-'] + h.subrange(8, 12) + seq!['-'] + h.subrange(12, 16) + seq!['-']
        + h.subrange(16, 20) + seq!['-'] + h.subrange(20, 32)
}

/// `Uuid::from_u128(v).to_string()`: the hyphenated lower-case form of the
/// big-endian value.
#[verifier::external_body]
pub fn uuid_to_string(v: u128) -> (r: String)
    ensures
        r@ == uuid_text(v),
{
    uuid::Uuid::from_u128(v).to_string()
}


/// What `Uuid::parse_str` gives for a text: the value, or the text of its
/// error.
pub uninterp spec fn uuid_parse(s: Seq<char>) -> Result<u128, Seq<char>>;

/// `Uuid::parse_str(s)`: the value read, or the error's display text. The
/// hyphenated form that `Uuid::to_string` writes is read back as the same
/// value.
#[verifier::external_body]
pub fn parse_uuid_text(s: &str) -> (r: Result<u128, String>)
    ensures
        r matches Ok(v) ==> (uuid_parse(s@) matches Ok(w) && w == v),
        r matches Err(e) ==> (uuid_parse(s@) matches Err(m) && m == e@),
        r is Ok || forall|v: u128| #[trigger] uuid_text(v) != s@,
        r matches Ok(x) ==> forall|v: u128| #[trigger] uuid_text(v) == s@ ==> x == v,
{
    match uuid::Uuid::parse_str(s) {
        Ok(u) => Ok(u.as_u128()),
        Err(e) => Err(e.to_string()),
    }
}

/// Reads an id argument; a malformed one is a validation error whose text
/// is `prefix` followed by the parser's message.
pub fn parse_id_arg(raw: &str, prefix: &str) -> (r: Result<u128, crate::error::KabiPayError>)
    ensures
        uuid_parse(raw@) matches Ok(v) ==> r == Ok::<u128, crate::error::KabiPayError>(v),
        uuid_parse(raw@) matches Err(e) ==> crate::error::is_validation(r, prefix@ + e),
        forall|v: u128| #[trigger] uuid_text(v) == raw@ ==> r == Ok::<u128, crate::error::KabiPayError>(v),
{
    match parse_uuid_text(raw) {
        Ok(v) => Ok(v),
        Err(e) => {
            let mut m = crate::text::owned(prefix);
            crate::text::push_str(&mut m, e.as_str());
            Err(crate::error::validation_owned(m))
        },
    }
}

/// An optional id argument: absent stays absent, present is read as by
/// [`parse_id_arg`].
pub fn parse_opt_id_arg(raw: &Option<String>, prefix: &str) -> (r: Result<Option<u128>, crate::error::KabiPayError>)
    ensures
        raw is None ==> r == Ok::<Option<u128>, crate::error::KabiPayError>(None),
        raw matches Some(s) ==> (uuid_parse(s@) matches Ok(v) ==> r == Ok::<Option<u128>, crate::error::KabiPayError>(Some(v))),
        raw matches Some(s) ==> (uuid_parse(s@) matches Err(e) ==> crate::error::is_validation(r, prefix@ + e)),
{
    match raw {
        None => Ok(None),
        Some(s) => {
            let v = parse_id_arg(s.as_str(), prefix)?;
            Ok(Some(v))
        },
    }
}

} // verus!
