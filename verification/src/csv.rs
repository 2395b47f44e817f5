//! CSV text: quoted cells, integer and decimal cells, comma-joined lines.
use vstd::prelude::*;

use crate::decimal::{abs, dec_normalize, dec_text, dec_to_string, digit_char, digits, normalize_spec, Dec};
use crate::text::{chars_of, push_char, push_str};

verus! {

/// A cell must be quoted when it holds a comma, a double quote or a line break.
pub open spec fn needs_quoting(s: Seq<char>) -> bool {
    s.contains(',') || s.contains('"') || s.contains('\n') || s.contains('\r')
}

/// What one character becomes inside a quoted cell.
pub open spec fn quote_piece(c: char) -> Seq<char> {
    if c == '"' {
        seq!['"', '"']
    } else {
        seq![c]
    }
}

/// Every double quote doubled.
pub open spec fn escape_quotes(s: Seq<char>) -> Seq<char>
    decreases s.len(),
{
    if s.len() == 0 {
        Seq::empty()
    } else {
        escape_quotes(s.drop_last()) + quote_piece(s.last())
    }
}

/// A raw value as one CSV cell: quoted, with doubled quotes, when needed;
/// else unchanged.
pub open spec fn csv_cell_text(s: Seq<char>) -> Seq<char> {
    if needs_quoting(s) {
        seq!['"'] + escape_quotes(s) + seq!['"']
    } else {
        s
    }
}

/// Inside a quoted cell, every doubled quote read as one quote.
pub open spec fn unescape_quotes(s: Seq<char>) -> Seq<char>
    decreases s.len(),
{
    if s.len() == 0 {
        Seq::empty()
    } else if s.last() == '"' && s.len() >= 2 {
        unescape_quotes(s.subrange(0, s.len() - 2)).push('"')
    } else {
        unescape_quotes(s.drop_last()).push(s.last())
    }
}

/// Reading one CSV cell back: a cell between double quotes is unquoted,
/// its doubled quotes read as one; any other cell is the value itself.
pub open spec fn read_cell(c: Seq<char>) -> Seq<char> {
    if c.len() >= 2 && c[0] == '"' && c.last() == '"' {
        unescape_quotes(c.subrange(1, c.len() - 1))
    } else {
        c
    }
}

proof fn lemma_unescape_escape(s: Seq<char>)
    ensures
        unescape_quotes(escape_quotes(s)) == s,
    decreases s.len(),
{
    if s.len() > 0 {
        let e = escape_quotes(s.drop_last());
        lemma_unescape_escape(s.drop_last());
        let c = s.last();
        if c == '"' {
            let t = e + seq!['"', '"'];
            assert(escape_quotes(s) == t);
            assert(t.subrange(0, t.len() - 2) =~= e);
        } else {
            let t = e + seq![c];
            assert(escape_quotes(s) == t);
            assert(t.drop_last() =~= e);
        }
        assert(s.drop_last().push(c) =~= s);
    }
}

/// Reading a written cell gives the raw value back, whatever it holds.
pub proof fn law_csv_cell_reads_back(s: Seq<char>)
    ensures
        read_cell(csv_cell_text(s)) == s,
{
    if needs_quoting(s) {
        let q = seq!['"'] + escape_quotes(s) + seq!['"'];
        lemma_unescape_escape(s);
        assert(q.subrange(1, q.len() - 1) =~= escape_quotes(s));
    } else if s.len() >= 2 {
        assert(s[0] != '"') by {
            if s[0] == '"' {
                assert(s.contains('"'));
            }
        }
    }
}

/// Quote a value for CSV when it holds `,`, `"` or a line break.
pub fn csv_cell(raw: &str) -> (r: String)
    ensures
        r@ == csv_cell_text(raw@),
{
    let v = chars_of(raw);
    let mut quote = false;
    let mut i: usize = 0;
    while i < v.len()
        invariant
            v@ == raw@,
            i <= v.len(),
            quote == (exists|j: int|
                0 <= j < i && (v@[j] == ',' || v@[j] == '"' || v@[j] == '\n' || v@[j] == '\r')),
        decreases v.len() - i,
    {
        let c = v[i];
        if c == ',' || c == '"' || c == '\n' || c == '\r' {
            quote = true;
        }
        i = i + 1;
    }
    proof {
        if quote {
            let j = choose|j: int|
                0 <= j < v.len() && (v@[j] == ',' || v@[j] == '"' || v@[j] == '\n' || v@[j]
                    == '\r');
            assert(v@.contains(v@[j]));
        } else {
            assert(!v@.contains(','));
            assert(!v@.contains('"'));
            assert(!v@.contains('\n'));
            assert(!v@.contains('\r'));
        }
    }
    let mut out = String::new();
    if !quote {
        push_str(&mut out, raw);
        return out;
    }
    push_char(&mut out, '"');
    let mut k: usize = 0;
    while k < v.len()
        invariant
            v@ == raw@,
            k <= v.len(),
            out@ == seq!['"'] + escape_quotes(v@.take(k as int)),
        decreases v.len() - k,
    {
        let c = v[k];
        assert(v@.take((k + 1) as int).drop_last() == v@.take(k as int));
        if c == '"' {
            push_char(&mut out, '"');
            push_char(&mut out, '"');
        } else {
            push_char(&mut out, c);
        }
        k = k + 1;
    }
    assert(v@.take(v.len() as int) == v@);
    push_char(&mut out, '"');
    out
}

/// Decimal text of an integer (`i64`'s `Display`).
pub open spec fn int_text(n: int) -> Seq<char> {
    if n < 0 {
        seq!['-'] + digits(abs(n))
    } else if n == 0 {
        seq!['0']
    } else {
        digits(abs(n))
    }
}

fn digit_exec(d: u64) -> (c: char)
    requires
        d < 10,
    ensures
        c == digit_char(d as nat),
{
    let b = (d as u8) + 48u8;
    b as char
}

/// Appends the digits of `n` (nothing for zero).
fn push_digits(out: &mut String, n: u64)
    ensures
        final(out)@ == old(out)@ + digits(n as nat),
    decreases n,
{
    if n >= 10 {
        push_digits(out, n / 10);
    } else {
        assert(n / 10 == 0);
        assert(digits(0) == Seq::<char>::empty());
    }
    if n > 0 {
        let c = digit_exec(n % 10);
        push_char(out, c);
        assert(digits(n as nat) == digits((n / 10) as nat).push(digit_char((n % 10) as nat)));
    } else {
        assert(digits(0) == Seq::<char>::empty());
    }
}

/// Appends the text of an integer.
pub fn push_int(out: &mut String, n: i64)
    ensures
        final(out)@ == old(out)@ + int_text(n as int),
{
    if n < 0 {
        push_char(out, '-');
        let m: u64 = if n == i64::MIN {
            9223372036854775808u64
        } else {
            (-n) as u64
        };
        push_digits(out, m);
    } else if n == 0 {
        push_char(out, '0');
    } else {
        push_digits(out, n as u64);
    }
}

/// Cells joined by commas.
pub open spec fn join_comma(cells: Seq<Seq<char>>) -> Seq<char>
    decreases cells.len(),
{
    if cells.len() == 0 {
        Seq::empty()
    } else if cells.len() == 1 {
        cells[0]
    } else {
        join_comma(cells.drop_last()) + seq![','] + cells.last()
    }
}

/// One CSV line: the cells joined by commas, then a newline.
pub open spec fn csv_line(cells: Seq<Seq<char>>) -> Seq<char> {
    join_comma(cells) + seq!['\n']
}

pub open spec fn views(cells: Seq<String>) -> Seq<Seq<char>> {
    Seq::new(cells.len(), |i: int| cells[i]@)
}

/// Appends one CSV line made of `cells` (already quoted as needed).
pub fn push_csv_line(out: &mut String, cells: &Vec<String>)
    ensures
        final(out)@ == old(out)@ + csv_line(views(cells@)),
{
    let ghost start = out@;
    let ghost vs = views(cells@);
    let mut i: usize = 0;
    while i < cells.len()
        invariant
            i <= cells.len(),
            vs == views(cells@),
            out@ == start + join_comma(vs.take(i as int)),
        decreases cells.len() - i,
    {
        assert(vs.take((i + 1) as int).drop_last() == vs.take(i as int));
        if i > 0 {
            push_char(out, ',');
        } else {
            assert(vs.take(0) == Seq::<Seq<char>>::empty());
        }
        push_str(out, cells[i].as_str());
        i = i + 1;
    }
    assert(vs.take(cells.len() as int) == vs);
    push_char(out, '\n');
}

/// A decimal cell: the normalized decimal's text, quoted if needed.
pub open spec fn dec_cell_text(d: Dec) -> Seq<char> {
    csv_cell_text(dec_text(normalize_spec(d)))
}

/// `csv_cell(&d.normalize().to_string())`.
pub fn dec_cell(d: Dec) -> (r: String)
    requires
        d.wf(),
    ensures
        r@ == dec_cell_text(d),
{
    let n = dec_normalize(d);
    let t = dec_to_string(n);
    csv_cell(t.as_str())
}

} // verus!
