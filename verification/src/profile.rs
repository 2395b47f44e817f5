//! An employee's primary bank account, PAN and Aadhaar: input normalization
//! and the rule that exactly one row per kind is primary.
use vstd::prelude::*;

use crate::error::{is_validation, validation, KabiPayError};
use crate::requests::{non_empty, opt_view};
use crate::text::{
    all_ascii, chars_of, string_from_chars, to_uppercase, trim, trimmed, unicode_uppercase, upper_seq,
};

verus! {

// ----------------------------------------------------------------------------
// One primary row
// ----------------------------------------------------------------------------

/// The identity and primary flag of a stored row.
#[derive(Clone, Copy, Debug)]
pub struct RowFlag {
    pub id: u128,
    pub is_primary: bool,
}

/// `k` is the first primary row.
pub open spec fn first_primary_at(rows: Seq<RowFlag>, k: int) -> bool {
    &&& 0 <= k < rows.len()
    &&& rows[k].is_primary
    &&& forall|j: int| 0 <= j < k ==> !(#[trigger] rows[j]).is_primary
}

/// No row is primary.
pub open spec fn no_primary(rows: Seq<RowFlag>) -> bool {
    forall|j: int| 0 <= j < rows.len() ==> !(#[trigger] rows[j]).is_primary
}

/// `id` is the row that receives new primary details: the first primary
/// row, else the first row.
pub open spec fn is_primary_target(rows: Seq<RowFlag>, id: u128) -> bool {
    ||| exists|k: int| first_primary_at(rows, k) && rows[k].id == id
    ||| rows.len() > 0 && no_primary(rows) && rows[0].id == id
}

/// Picks the row that receives new primary details (`None` without rows).
pub fn primary_target(rows: &Vec<RowFlag>) -> (r: Option<u128>)
    ensures
        rows@.len() == 0 <==> r is None,
        r matches Some(id) ==> is_primary_target(rows@, id),
{
    if rows.len() == 0 {
        return None;
    }
    let mut i: usize = 0;
    while i < rows.len()
        invariant
            i <= rows.len(),
            forall|j: int| 0 <= j < i ==> !(#[trigger] rows@[j]).is_primary,
        decreases rows.len() - i,
    {
        if rows[i].is_primary {
            assert(first_primary_at(rows@, i as int));
            return Some(rows[i].id);
        }
        i = i + 1;
    }
    Some(rows[0].id)
}

/// Only one row can be the target: the first primary row is unique.
pub proof fn law_primary_target_unique(rows: Seq<RowFlag>, a: u128, b: u128)
    requires
        is_primary_target(rows, a),
        is_primary_target(rows, b),
    ensures
        a == b,
{
    if exists|k: int| first_primary_at(rows, k) && rows[k].id == a {
        let k = choose|k: int| first_primary_at(rows, k) && rows[k].id == a;
        if exists|m: int| first_primary_at(rows, m) && rows[m].id == b {
            let m = choose|m: int| first_primary_at(rows, m) && rows[m].id == b;
            if k < m {
                assert(!rows[k].is_primary);
            } else if m < k {
                assert(!rows[m].is_primary);
            }
        } else {
            assert(!rows[k].is_primary);
        }
    } else if exists|m: int| first_primary_at(rows, m) && rows[m].id == b {
        let m = choose|m: int| first_primary_at(rows, m) && rows[m].id == b;
        assert(!rows[m].is_primary);
    }
}

/// The stored rows' primary flags after the replacement: only the target
/// stays (or becomes) primary.
pub fn primary_flags(rows: &Vec<RowFlag>, target: u128) -> (r: Vec<RowFlag>)
    ensures
        r@.len() == rows@.len(),
        forall|i: int|
            0 <= i < rows@.len() ==> (#[trigger] r@[i]).id == rows@[i].id && r@[i].is_primary == (
            rows@[i].id == target),
{
    let mut r: Vec<RowFlag> = Vec::new();
    let mut i: usize = 0;
    while i < rows.len()
        invariant
            i <= rows.len(),
            r@.len() == i,
            forall|j: int|
                0 <= j < i ==> (#[trigger] r@[j]).id == rows@[j].id && r@[j].is_primary == (
                rows@[j].id == target),
        decreases rows.len() - i,
    {
        let id = rows[i].id;
        r.push(RowFlag { id, is_primary: id == target });
        i = i + 1;
    }
    r
}

/// How a primary row is replaced.
#[derive(Clone, Debug)]
pub struct PrimaryUpdate {
    /// The row that receives the new details, marked primary and unverified.
    pub target_id: u128,
    /// Whether that row is inserted (there was no row).
    pub is_new: bool,
    /// The primary flag every stored row gets.
    pub flags: Vec<RowFlag>,
    /// The target's verification flag after the update: new details are
    /// unverified.
    pub is_verified: bool,
    /// The target's verification time after the update (PAN and Aadhaar
    /// rows; a bank row has none).
    pub verified_at: Option<i64>,
}

/// Where new primary details go: into a new row `new_id` when there are no
/// rows; else into the target row, with every other row made non-primary.
/// The target is reset to unverified.
pub fn replace_primary(rows: &Vec<RowFlag>, new_id: u128) -> (u: PrimaryUpdate)
    ensures
        !u.is_verified && u.verified_at is None,
        rows@.len() == 0 ==> u.is_new && u.target_id == new_id && u.flags@.len() == 0,
        rows@.len() > 0 ==> !u.is_new && is_primary_target(rows@, u.target_id),
        u.flags@.len() == rows@.len(),
        forall|i: int|
            0 <= i < rows@.len() ==> (#[trigger] u.flags@[i]).id == rows@[i].id
                && u.flags@[i].is_primary == (rows@[i].id == u.target_id),
{
    match primary_target(rows) {
        None => PrimaryUpdate {
            target_id: new_id,
            is_new: true,
            flags: Vec::new(),
            is_verified: false,
            verified_at: None,
        },
        Some(t) => {
            let flags = primary_flags(rows, t);
            PrimaryUpdate { target_id: t, is_new: false, flags, is_verified: false, verified_at: None }
        },
    }
}

/// After a replacement over rows with distinct ids, exactly one stored row
/// (the target) is primary.
pub proof fn law_single_primary(rows: Seq<RowFlag>, target_index: int, flags: Seq<RowFlag>)
    requires
        0 <= target_index < rows.len(),
        forall|i: int, j: int| 0 <= i < j < rows.len() ==> rows[i].id != rows[j].id,
        flags.len() == rows.len(),
        forall|i: int|
            0 <= i < rows.len() ==> (#[trigger] flags[i]).id == rows[i].id && flags[i].is_primary
                == (rows[i].id == rows[target_index].id),
    ensures
        flags[target_index].is_primary,
        forall|i: int| 0 <= i < flags.len() && (#[trigger] flags[i]).is_primary ==> i == target_index,
{
    assert forall|i: int| 0 <= i < flags.len() && (#[trigger] flags[i]).is_primary implies i
        == target_index by {
        if i < target_index {
            assert(rows[i].id != rows[target_index].id);
        } else if i > target_index {
            assert(rows[target_index].id != rows[i].id);
        }
    }
}

// ----------------------------------------------------------------------------
// Bank account
// ----------------------------------------------------------------------------

/// Primary bank details as stored.
#[derive(Clone, Debug)]
pub struct BankDetails {
    pub bank_name: String,
    pub account_number: String,
    pub ifsc_code: String,
    pub account_type: Option<String>,
}

/// An account type that is absent or blank is stored as absent; otherwise
/// as given.
pub open spec fn kept_account_type(t: Option<String>) -> Option<Seq<char>> {
    match t {
        Some(s) => if trimmed(s@).len() > 0 {
            Some(s@)
        } else {
            None
        },
        None => None,
    }
}

/// Normalizes primary bank details: bank name and account number trimmed,
/// IFSC trimmed and upper-cased, a blank account type dropped; all three of
/// the first must be non-empty after that.
pub fn bank_details(
    bank_name: &str,
    account_number: &str,
    ifsc_code: &str,
    account_type: Option<String>,
) -> (r: Result<BankDetails, KabiPayError>)
    ensures
        r is Ok <==> trimmed(account_number@).len() > 0 && unicode_uppercase(trimmed(ifsc_code@)).len()
            > 0 && trimmed(bank_name@).len() > 0,
        r is Ok <==> trimmed(account_number@).len() > 0 && trimmed(ifsc_code@).len() > 0
            && trimmed(bank_name@).len() > 0,
        r is Err ==> is_validation(r, "bankName, accountNumber, and ifscCode are required"@),
        r matches Ok(d) ==> {
            &&& d.bank_name@ == trimmed(bank_name@)
            &&& d.account_number@ == trimmed(account_number@)
            &&& d.ifsc_code@ == unicode_uppercase(trimmed(ifsc_code@))
            &&& (all_ascii(trimmed(ifsc_code@)) ==> d.ifsc_code@ == upper_seq(trimmed(ifsc_code@)))
            &&& opt_view(d.account_type) == kept_account_type(account_type)
        },
{
    let ifsc_t = trim(ifsc_code);
    let ifsc = to_uppercase(ifsc_t.as_str());
    let acct = trim(account_number);
    let bank = trim(bank_name);
    let acct_type = match account_type {
        Some(s) => {
            let t = trim(s.as_str());
            if t.as_str().is_empty() {
                None
            } else {
                Some(s)
            }
        },
        None => None,
    };
    if acct.as_str().is_empty() || ifsc.as_str().is_empty() || bank.as_str().is_empty() {
        return Err(validation("bankName, accountNumber, and ifscCode are required"));
    }
    Ok(BankDetails { bank_name: bank, account_number: acct, ifsc_code: ifsc, account_type: acct_type })
}

/// Replaces an employee's primary bank account: the details are checked,
/// then placed as [`replace_primary`] decides over the stored rows, and the
/// account is unverified again.
pub fn upsert_primary_bank(
    rows: &Vec<RowFlag>,
    new_id: u128,
    bank_name: &str,
    account_number: &str,
    ifsc_code: &str,
    account_type: Option<String>,
) -> (r: Result<(BankDetails, PrimaryUpdate), KabiPayError>)
    ensures
        r is Ok <==> trimmed(account_number@).len() > 0 && unicode_uppercase(trimmed(ifsc_code@)).len()
            > 0 && trimmed(bank_name@).len() > 0,
        r is Ok <==> trimmed(account_number@).len() > 0 && trimmed(ifsc_code@).len() > 0
            && trimmed(bank_name@).len() > 0,
        r is Err ==> is_validation(r, "bankName, accountNumber, and ifscCode are required"@),
        r matches Ok(x) ==> {
            &&& x.0.bank_name@ == trimmed(bank_name@)
            &&& x.0.account_number@ == trimmed(account_number@)
            &&& x.0.ifsc_code@ == unicode_uppercase(trimmed(ifsc_code@))
            &&& (all_ascii(trimmed(ifsc_code@)) ==> x.0.ifsc_code@ == upper_seq(trimmed(ifsc_code@)))
            &&& opt_view(x.0.account_type) == kept_account_type(account_type)
            &&& (rows@.len() == 0 ==> x.1.is_new && x.1.target_id == new_id)
            &&& (rows@.len() > 0 ==> !x.1.is_new && is_primary_target(rows@, x.1.target_id))
            &&& x.1.flags@.len() == rows@.len()
            &&& !x.1.is_verified
            &&& x.1.verified_at is None
            &&& forall|i: int|
                0 <= i < rows@.len() ==> (#[trigger] x.1.flags@[i]).id == rows@[i].id
                    && x.1.flags@[i].is_primary == (rows@[i].id == x.1.target_id)
        },
{
    let d = bank_details(bank_name, account_number, ifsc_code, account_type)?;
    let u = replace_primary(rows, new_id);
    Ok((d, u))
}

// ----------------------------------------------------------------------------
// PAN and Aadhaar
// ----------------------------------------------------------------------------

/// `s` without its spaces.
pub open spec fn without_spaces(s: Seq<char>) -> Seq<char>
    decreases s.len(),
{
    if s.len() == 0 {
        s
    } else if s.last() == ' ' {
        without_spaces(s.drop_last())
    } else {
        without_spaces(s.drop_last()).push(s.last())
    }
}

/// The digits of `s`, in order.
pub open spec fn ascii_digits(s: Seq<char>) -> Seq<char>
    decreases s.len(),
{
    if s.len() == 0 {
        s
    } else if '0' <= s.last() && s.last() <= '9' {
        ascii_digits(s.drop_last()).push(s.last())
    } else {
        ascii_digits(s.drop_last())
    }
}

/// The PAN as stored: trimmed, upper-cased, spaces removed.
pub open spec fn pan_text(raw: Seq<char>) -> Seq<char> {
    without_spaces(unicode_uppercase(trimmed(raw)))
}

pub open spec fn is_upper_byte(b: u8) -> bool {
    65 <= b <= 90
}

pub open spec fn is_digit_byte(b: u8) -> bool {
    48 <= b <= 57
}

/// The first rule a PAN breaks, if any, read over its UTF-8 bytes: ten
/// bytes, five letters, four digits, a letter.
pub open spec fn pan_error(raw: Seq<char>) -> Option<Seq<char>> {
    let b = vstd::utf8::encode_utf8(pan_text(raw));
    if b.len() != 10 {
        Some("PAN must be 10 characters"@)
    } else if exists|i: int| 0 <= i < 5 && !is_upper_byte(#[trigger] b[i]) {
        Some("PAN: first 5 characters must be letters"@)
    } else if exists|i: int| 5 <= i < 9 && !is_digit_byte(#[trigger] b[i]) {
        Some("PAN: characters 6–9 must be digits"@)
    } else if !is_upper_byte(b[9]) {
        Some("PAN: last character must be a letter"@)
    } else {
        None
    }
}

fn remove_spaces(s: &str) -> (r: String)
    ensures
        r@ == without_spaces(s@),
{
    let v = chars_of(s);
    let mut out: Vec<char> = Vec::new();
    let mut i: usize = 0;
    while i < v.len()
        invariant
            i <= v.len(),
            v@ == s@,
            out@ == without_spaces(v@.take(i as int)),
        decreases v.len() - i,
    {
        assert(v@.take((i + 1) as int).drop_last() == v@.take(i as int));
        if v[i] != ' ' {
            out.push(v[i]);
        }
        i = i + 1;
    }
    assert(v@.take(v.len() as int) == v@);
    string_from_chars(out.as_slice())
}

/// Normalizes and checks a PAN.
#[verifier::loop_isolation(false)]
pub fn validate_pan(pan: &str) -> (r: Result<String, KabiPayError>)
    ensures
        match pan_error(pan@) {
            Some(m) => is_validation(r, m),
            None => r matches Ok(t) && t@ == pan_text(pan@),
        },
        all_ascii(trimmed(pan@)) ==> pan_text(pan@) == without_spaces(upper_seq(trimmed(pan@))),
{
    let tr = trim(pan);
    let up = to_uppercase(tr.as_str());
    let t = remove_spaces(up.as_str());
    let b = t.as_str().as_bytes();
    if b.len() != 10 {
        return Err(validation("PAN must be 10 characters"));
    }
    let mut i: usize = 0;
    while i < 5
        invariant
            0 <= i <= 5,
            forall|j: int| 0 <= j < i ==> is_upper_byte(#[trigger] b@[j]),
        decreases 5 - i,
    {
        if !(65 <= b[i] && b[i] <= 90) {
            return Err(validation("PAN: first 5 characters must be letters"));
        }
        i = i + 1;
    }
    let mut i: usize = 5;
    while i < 9
        invariant
            5 <= i <= 9,
            forall|j: int| 5 <= j < i ==> is_digit_byte(#[trigger] b@[j]),
        decreases 9 - i,
    {
        if !(48 <= b[i] && b[i] <= 57) {
            return Err(validation("PAN: characters 6–9 must be digits"));
        }
        i = i + 1;
    }
    if !(65 <= b[9] && b[9] <= 90) {
        return Err(validation("PAN: last character must be a letter"));
    }
    Ok(t)
}

/// The Aadhaar digits kept: the last four of twelve digits, or four digits
/// as given; any other count of digits is refused.
pub open spec fn aadhaar_last4_spec(raw: Seq<char>) -> Option<Seq<char>> {
    let d = ascii_digits(raw);
    if d.len() == 12 {
        Some(d.subrange(8, 12))
    } else if d.len() == 4 {
        Some(d)
    } else {
        None
    }
}

/// Keeps the digits of an Aadhaar number and reduces them to the last four.
pub fn normalize_aadhaar_last4(raw: &str) -> (r: Result<String, KabiPayError>)
    ensures
        match aadhaar_last4_spec(raw@) {
            Some(d) => r matches Ok(t) && t@ == d,
            None => is_validation(r, "Aadhaar: enter 12 digits or the last 4 digits"@),
        },
{
    let v = chars_of(raw);
    let mut d: Vec<char> = Vec::new();
    let mut i: usize = 0;
    while i < v.len()
        invariant
            i <= v.len(),
            v@ == raw@,
            d@ == ascii_digits(v@.take(i as int)),
        decreases v.len() - i,
    {
        assert(v@.take((i + 1) as int).drop_last() == v@.take(i as int));
        if '0' <= v[i] && v[i] <= '9' {
            d.push(v[i]);
        }
        i = i + 1;
    }
    assert(v@.take(v.len() as int) == v@);
    if d.len() == 12 {
        let mut last: Vec<char> = Vec::new();
        let mut k: usize = 8;
        while k < 12
            invariant
                8 <= k <= 12,
                d@.len() == 12,
                last@ == d@.subrange(8, k as int),
            decreases 12 - k,
        {
            last.push(d[k]);
            assert(d@.subrange(8, k as int).push(d@[k as int]) == d@.subrange(8, (k + 1) as int));
            k = k + 1;
        }
        Ok(string_from_chars(last.as_slice()))
    } else if d.len() == 4 {
        Ok(string_from_chars(d.as_slice()))
    } else {
        Err(validation("Aadhaar: enter 12 digits or the last 4 digits"))
    }
}

/// Replaces an employee's primary PAN (checked first); it is unverified
/// again, with no verification time.
pub fn upsert_primary_pan(rows: &Vec<RowFlag>, new_id: u128, pan_number: &str) -> (r: Result<
    (String, PrimaryUpdate),
    KabiPayError,
>)
    ensures
        match pan_error(pan_number@) {
            Some(m) => is_validation(r, m),
            None => r matches Ok(x) && x.0@ == pan_text(pan_number@),
        },
        all_ascii(trimmed(pan_number@)) ==> pan_text(pan_number@) == without_spaces(
            upper_seq(trimmed(pan_number@)),
        ),
        r matches Ok(x) ==> {
            &&& (rows@.len() == 0 ==> x.1.is_new && x.1.target_id == new_id)
            &&& (rows@.len() > 0 ==> !x.1.is_new && is_primary_target(rows@, x.1.target_id))
            &&& x.1.flags@.len() == rows@.len()
            &&& !x.1.is_verified
            &&& x.1.verified_at is None
            &&& forall|i: int|
                0 <= i < rows@.len() ==> (#[trigger] x.1.flags@[i]).id == rows@[i].id
                    && x.1.flags@[i].is_primary == (rows@[i].id == x.1.target_id)
        },
{
    let p = validate_pan(pan_number)?;
    let u = replace_primary(rows, new_id);
    Ok((p, u))
}

/// Replaces an employee's primary Aadhaar last four digits (normalized
/// first); they are unverified again, with no verification time.
pub fn upsert_primary_aadhaar(rows: &Vec<RowFlag>, new_id: u128, aadhaar_number: &str) -> (r: Result<
    (String, PrimaryUpdate),
    KabiPayError,
>)
    ensures
        match aadhaar_last4_spec(aadhaar_number@) {
            Some(d) => r matches Ok(x) && x.0@ == d,
            None => is_validation(r, "Aadhaar: enter 12 digits or the last 4 digits"@),
        },
        r matches Ok(x) ==> {
            &&& (rows@.len() == 0 ==> x.1.is_new && x.1.target_id == new_id)
            &&& (rows@.len() > 0 ==> !x.1.is_new && is_primary_target(rows@, x.1.target_id))
            &&& x.1.flags@.len() == rows@.len()
            &&& !x.1.is_verified
            &&& x.1.verified_at is None
            &&& forall|i: int|
                0 <= i < rows@.len() ==> (#[trigger] x.1.flags@[i]).id == rows@[i].id
                    && x.1.flags@[i].is_primary == (rows@[i].id == x.1.target_id)
        },
{
    let d = normalize_aadhaar_last4(aadhaar_number)?;
    let u = replace_primary(rows, new_id);
    Ok((d, u))
}

} // verus!
