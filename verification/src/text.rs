//! Character-level helpers shared by the validators and formatters: copying,
//! ASCII case mapping, Unicode trimming, integer text and CSV cells.
use vstd::prelude::*;

verus! {

/// Copies the characters of `s` into a vector.
pub fn chars_of(s: &str) -> (v: Vec<char>)
    ensures
        v@ == s@,
{
    let mut v: Vec<char> = Vec::new();
    for c in it: s.chars()
        invariant
            v@ == it.seq().take(it.index() as int),
            it.seq() == s@,
    {
        v.push(c);
    }
    v
}

/// Appends one character (`String::push`).
#[verifier::external_body]
pub fn push_char(s: &mut String, c: char)
    ensures
        final(s)@ == old(s)@.push(c),
{
    s.push(c);
}

/// Appends a string slice (`String::push_str`).
#[verifier::external_body]
pub fn push_str(s: &mut String, t: &str)
    ensures
        final(s)@ == old(s)@ + t@,
{
    s.push_str(t);
}

/// A `String` holding exactly the characters of `v`.
pub fn string_from_chars(v: &[char]) -> (s: String)
    ensures
        s@ == v@,
{
    let mut s = String::new();
    let mut i: usize = 0;
    while i < v.len()
        invariant
            i <= v.len(),
            s@ == v@.take(i as int),
        decreases v.len() - i,
    {
        push_char(&mut s, v[i]);
        assert(v@.take(i as int).push(v@[i as int]) == v@.take((i + 1) as int));
        i = i + 1;
    }
    assert(v@.take(v.len() as int) == v@);
    s
}

/// A copy of `s` as an owned `String`.
pub fn owned(s: &str) -> (r: String)
    ensures
        r@ == s@,
{
    let v = chars_of(s);
    string_from_chars(v.as_slice())
}

/// Unicode `White_Space` characters (what `char::is_whitespace` accepts).
pub open spec fn is_white_space(c: char) -> bool {
    ||| ('\u{9}' <= c && c <= '\u{d}')
    ||| c == ' '
    ||| c == '\u{85}'
    ||| c == '\u{a0}'
    ||| c == '\u{1680}'
    ||| ('\u{2000}' <= c && c <= '\u{200a}')
    ||| c == '\u{2028}'
    ||| c == '\u{2029}'
    ||| c == '\u{202f}'
    ||| c == '\u{205f}'
    ||| c == '\u{3000}'
}

pub fn is_white_space_exec(c: char) -> (b: bool)
    ensures
        b == is_white_space(c),
{
    ('\u{9}' <= c && c <= '\u{d}') || c == ' ' || c == '\u{85}' || c == '\u{a0}' || c
        == '\u{1680}' || ('\u{2000}' <= c && c <= '\u{200a}') || c == '\u{2028}' || c
        == '\u{2029}' || c == '\u{202f}' || c == '\u{205f}' || c == '\u{3000}'
}

/// Index of the first character that is not white space (or the length).
pub open spec fn trim_start_index(s: Seq<char>) -> int
    decreases s.len(),
{
    if s.len() == 0 {
        0
    } else if is_white_space(s[0]) {
        1 + trim_start_index(s.drop_first())
    } else {
        0
    }
}

/// Index just past the last character that is not white space (or 0).
pub open spec fn trim_end_index(s: Seq<char>) -> int
    decreases s.len(),
{
    if s.len() == 0 {
        0
    } else if is_white_space(s.last()) {
        trim_end_index(s.drop_last())
    } else {
        s.len() as int
    }
}

/// `str::trim`: the text without leading and trailing white space.
pub open spec fn trimmed(s: Seq<char>) -> Seq<char> {
    let a = trim_start_index(s);
    let b = trim_end_index(s);
    if a < b {
        s.subrange(a, b)
    } else {
        Seq::empty()
    }
}

proof fn lemma_trim_start_bounds(s: Seq<char>)
    ensures
        0 <= trim_start_index(s) <= s.len(),
    decreases s.len(),
{
    if s.len() > 0 && is_white_space(s[0]) {
        lemma_trim_start_bounds(s.drop_first());
    }
}

proof fn lemma_trim_end_bounds(s: Seq<char>)
    ensures
        0 <= trim_end_index(s) <= s.len(),
    decreases s.len(),
{
    if s.len() > 0 && is_white_space(s.last()) {
        lemma_trim_end_bounds(s.drop_last());
    }
}

/// `trim_start_index` of a suffix that starts inside a white-space prefix.
proof fn lemma_trim_start_step(s: Seq<char>, i: int)
    requires
        0 <= i < s.len(),
        forall|j: int| 0 <= j < i ==> is_white_space(#[trigger] s[j]),
    ensures
        trim_start_index(s) == i + trim_start_index(s.subrange(i, s.len() as int)),
    decreases i,
{
    if i > 0 {
        assert(is_white_space(s[0]));
        let t = s.drop_first();
        assert forall|j: int| 0 <= j < i - 1 implies is_white_space(#[trigger] t[j]) by {
            assert(t[j] == s[j + 1]);
        }
        lemma_trim_start_step(t, i - 1);
        assert(t.subrange(i - 1, t.len() as int) == s.subrange(i, s.len() as int));
    } else {
        assert(s.subrange(0, s.len() as int) == s);
    }
}

proof fn lemma_trim_end_step(s: Seq<char>, k: int)
    requires
        0 <= k <= s.len(),
        forall|j: int| k <= j < s.len() ==> is_white_space(#[trigger] s[j]),
    ensures
        trim_end_index(s) == trim_end_index(s.subrange(0, k)),
    decreases s.len() - k,
{
    if k < s.len() {
        assert(is_white_space(s.last()));
        let t = s.drop_last();
        assert forall|j: int| k <= j < t.len() implies is_white_space(#[trigger] t[j]) by {
            assert(t[j] == s[j]);
        }
        lemma_trim_end_step(t, k);
        assert(t.subrange(0, k) == s.subrange(0, k));
    } else {
        assert(s.subrange(0, k) == s);
    }
}

/// `str::trim` on a character vector.
pub fn trim_chars(v: &Vec<char>) -> (r: Vec<char>)
    ensures
        r@ == trimmed(v@),
{
    let n = v.len();
    let mut a: usize = 0;
    while a < n && is_white_space_exec(v[a])
        invariant
            n == v.len(),
            a <= n,
            forall|j: int| 0 <= j < a ==> is_white_space(#[trigger] v@[j]),
        decreases n - a,
    {
        a = a + 1;
    }
    proof {
        if a < n {
            lemma_trim_start_step(v@, a as int);
            assert(!is_white_space(v@.subrange(a as int, n as int)[0]));
        } else {
            lemma_trim_start_bounds(v@);
            if n > 0 {
                lemma_trim_start_step(v@, (n - 1) as int);
                let t = v@.subrange(n - 1, n as int);
                assert(t[0] == v@[n - 1]);
                assert(t.drop_first().len() == 0);
                assert(trim_start_index(t.drop_first()) == 0);
                assert(trim_start_index(t) == 1);
            }
            assert(trim_start_index(v@) == n);
        }
        assert(a < n ==> trim_start_index(v@) == a);
    }
    let mut b: usize = n;
    while b > a && is_white_space_exec(v[b - 1])
        invariant
            n == v.len(),
            a <= b <= n,
            forall|j: int| b <= j < n ==> is_white_space(#[trigger] v@[j]),
        decreases b,
    {
        b = b - 1;
    }
    proof {
        lemma_trim_end_step(v@, b as int);
        lemma_trim_start_bounds(v@);
        if b > a {
            let t = v@.subrange(0, b as int);
            assert(t.last() == v@[b - 1]);
            assert(trim_end_index(t) == b);
        } else {
            // everything from `a` on is white space
            lemma_trim_end_bounds(v@);
            if a < n {
                assert(trim_start_index(v@) == a);
                lemma_trim_end_all_space(v@.subrange(0, b as int), a as int);
            }
        }
    }
    proof {
        lemma_trim_end_bounds(v@);
        if b > a {
            assert(trim_start_index(v@) == a);
            assert(trim_end_index(v@) == b);
            assert(trimmed(v@) == v@.subrange(a as int, b as int));
        } else {
            assert(trimmed(v@) == Seq::<char>::empty());
        }
    }
    let mut r: Vec<char> = Vec::new();
    let mut i: usize = a;
    while i < b
        invariant
            a <= i <= b,
            b <= v.len(),
            r@ == v@.subrange(a as int, i as int),
        decreases b - i,
    {
        r.push(v[i]);
        assert(v@.subrange(a as int, i as int).push(v@[i as int]) == v@.subrange(
            a as int,
            i + 1,
        ));
        i = i + 1;
    }
    r
}

/// A prefix whose characters from `a` on are white space ends its trim at or
/// before `a`.
proof fn lemma_trim_end_all_space(s: Seq<char>, a: int)
    requires
        0 <= a,
        forall|j: int| a <= j < s.len() ==> is_white_space(#[trigger] s[j]),
    ensures
        trim_end_index(s) <= a,
    decreases s.len(),
{
    if s.len() > a {
        let t = s.drop_last();
        assert forall|j: int| a <= j < t.len() implies is_white_space(#[trigger] t[j]) by {
            assert(t[j] == s[j]);
        }
        lemma_trim_end_all_space(t, a);
    } else {
        lemma_trim_end_bounds(s);
    }
}

/// `str::trim` returning an owned string.
pub fn trim(s: &str) -> (r: String)
    ensures
        r@ == trimmed(s@),
{
    let v = chars_of(s);
    let t = trim_chars(&v);
    string_from_chars(t.as_slice())
}

/// `char::to_ascii_uppercase`.
pub open spec fn ascii_upper(c: char) -> char {
    if 'a' <= c && c <= 'z' {
        ((c as u32) - 32) as char
    } else {
        c
    }
}

/// `char::to_ascii_lowercase`.
pub open spec fn ascii_lower(c: char) -> char {
    if 'A' <= c && c <= 'Z' {
        ((c as u32) + 32) as char
    } else {
        c
    }
}

pub fn ascii_upper_exec(c: char) -> (r: char)
    ensures
        r == ascii_upper(c),
{
    if 'a' <= c && c <= 'z' {
        let u = (c as u32) - 32;
        assert(u < 0xD800);
        char_from_ascii_code(u)
    } else {
        c
    }
}

pub fn ascii_lower_exec(c: char) -> (r: char)
    ensures
        r == ascii_lower(c),
{
    if 'A' <= c && c <= 'Z' {
        let u = (c as u32) + 32;
        char_from_ascii_code(u)
    } else {
        c
    }
}

/// The character with an ASCII code point.
fn char_from_ascii_code(u: u32) -> (c: char)
    requires
        u < 128,
    ensures
        c == u as char,
{
    let b = u as u8;
    b as char
}

/// Maps every character of `s` through `ascii_upper`.
pub open spec fn upper_seq(s: Seq<char>) -> Seq<char> {
    Seq::new(s.len(), |i: int| ascii_upper(s[i]))
}

/// Maps every character of `s` through `ascii_lower`.
pub open spec fn lower_seq(s: Seq<char>) -> Seq<char> {
    Seq::new(s.len(), |i: int| ascii_lower(s[i]))
}

/// `str::to_ascii_uppercase`.
pub fn to_ascii_upper(v: &[char]) -> (r: Vec<char>)
    ensures
        r@ == upper_seq(v@),
{
    let mut r: Vec<char> = Vec::new();
    let mut i: usize = 0;
    while i < v.len()
        invariant
            i <= v.len(),
            r@ == upper_seq(v@).take(i as int),
        decreases v.len() - i,
    {
        let c = ascii_upper_exec(v[i]);
        r.push(c);
        assert(upper_seq(v@).take(i as int).push(c) == upper_seq(v@).take((i + 1) as int));
        i = i + 1;
    }
    assert(upper_seq(v@).take(v.len() as int) == upper_seq(v@));
    r
}

/// `str::to_ascii_lowercase`.
pub fn to_ascii_lower(v: &[char]) -> (r: Vec<char>)
    ensures
        r@ == lower_seq(v@),
{
    let mut r: Vec<char> = Vec::new();
    let mut i: usize = 0;
    while i < v.len()
        invariant
            i <= v.len(),
            r@ == lower_seq(v@).take(i as int),
        decreases v.len() - i,
    {
        let c = ascii_lower_exec(v[i]);
        r.push(c);
        assert(lower_seq(v@).take(i as int).push(c) == lower_seq(v@).take((i + 1) as int));
        i = i + 1;
    }
    assert(lower_seq(v@).take(v.len() as int) == lower_seq(v@));
    r
}

/// Equality of two character sequences.
pub fn chars_eq(a: &[char], b: &[char]) -> (r: bool)
    ensures
        r == (a@ == b@),
{
    if a.len() != b.len() {
        return false;
    }
    let mut i: usize = 0;
    while i < a.len()
        invariant
            a.len() == b.len(),
            i <= a.len(),
            forall|j: int| 0 <= j < i ==> a@[j] == b@[j],
        decreases a.len() - i,
    {
        if a[i] != b[i] {
            return false;
        }
        i = i + 1;
    }
    assert(a@ =~= b@);
    true
}

/// Equality of two string slices.
pub fn str_eq(a: &str, b: &str) -> (r: bool)
    ensures
        r == (a@ == b@),
{
    let x = chars_of(a);
    let y = chars_of(b);
    chars_eq(x.as_slice(), y.as_slice())
}

/// Whether `s` holds the character `c`.
pub fn contains_char(s: &[char], c: char) -> (r: bool)
    ensures
        r == s@.contains(c),
{
    let mut i: usize = 0;
    while i < s.len()
        invariant
            i <= s.len(),
            forall|j: int| 0 <= j < i ==> s@[j] != c,
        decreases s.len() - i,
    {
        if s[i] == c {
            assert(s@[i as int] == c);
            return true;
        }
        i = i + 1;
    }
    false
}


/// Length in bytes of the UTF-8 encoding of `s` (what `str::len` returns).
pub open spec fn byte_len(s: Seq<char>) -> nat {
    vstd::utf8::encode_utf8(s).len()
}

/// Byte length of a string slice.
pub fn str_byte_len(s: &str) -> (n: usize)
    ensures
        n == byte_len(s@),
{
    let b = s.as_bytes();
    b.len()
}

/// What `str::to_lowercase` gives for a text (Unicode lowercase mapping).
pub uninterp spec fn unicode_lowercase(s: Seq<char>) -> Seq<char>;

/// What `str::to_uppercase` gives for a text (Unicode uppercase mapping).
pub uninterp spec fn unicode_uppercase(s: Seq<char>) -> Seq<char>;

/// Every character is ASCII.
pub open spec fn all_ascii(s: Seq<char>) -> bool {
    forall|i: int| 0 <= i < s.len() ==> (#[trigger] s[i] as u32) < 128
}

/// `str::to_lowercase`: the Unicode lowercase of `s`, a function of `s` alone.
/// Each character maps to one or more characters (std documents
/// `char::to_lowercase` so), hence only the empty text maps to empty. On
/// ASCII text it is `to_ascii_lowercase` (std documents `to_lowercase` as
/// the extension of `to_ascii_lowercase` to non-ASCII characters: `A`–`Z`
/// have the one-to-one mappings to `a`–`z`, other ASCII characters none).
#[verifier::external_body]
pub fn to_lowercase(s: &str) -> (r: String)
    ensures
        r@ == unicode_lowercase(s@),
        r@.len() == 0 <==> s@.len() == 0,
        all_ascii(s@) ==> r@ == lower_seq(s@),
{
    s.to_lowercase()
}

/// `str::to_uppercase`: the Unicode uppercase of `s`, a function of `s` alone.
/// Each character maps to one or more characters (std documents
/// `char::to_uppercase` so), hence only the empty text maps to empty. On
/// ASCII text it is `to_ascii_uppercase` (std documents `to_uppercase` as
/// the extension of `to_ascii_uppercase` to non-ASCII characters: `a`–`z`
/// have the one-to-one mappings to `A`–`Z`, other ASCII characters none).
#[verifier::external_body]
pub fn to_uppercase(s: &str) -> (r: String)
    ensures
        r@ == unicode_uppercase(s@),
        r@.len() == 0 <==> s@.len() == 0,
        all_ascii(s@) ==> r@ == upper_seq(s@),
{
    s.to_uppercase()
}

/// Whether `p` is a prefix of `s`.
pub fn starts_with_chars(s: &[char], p: &[char]) -> (r: bool)
    ensures
        r == (p@.len() <= s@.len() && s@.subrange(0, p@.len() as int) == p@),
{
    if p.len() > s.len() {
        return false;
    }
    let mut i: usize = 0;
    while i < p.len()
        invariant
            p.len() <= s.len(),
            i <= p.len(),
            forall|j: int| 0 <= j < i ==> s@[j] == p@[j],
        decreases p.len() - i,
    {
        if s[i] != p[i] {
            assert(s@.subrange(0, p@.len() as int)[i as int] != p@[i as int]);
            return false;
        }
        i = i + 1;
    }
    assert(s@.subrange(0, p@.len() as int) =~= p@);
    true
}

} // verus!
