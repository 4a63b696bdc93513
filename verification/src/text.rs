//! Character-level text building and searching used by the protocol and
//! configuration writers: decimal and hexadecimal rendering, substring search,
//! trailing-whitespace trimming and replacement.

use vstd::prelude::*;

verus! {

/// Appends one character to a string (std `String::push`).
/// Trusted: the new contents are the old contents followed by `c`.
#[verifier::external_body]
pub fn push_char(s: &mut String, c: char)
    ensures
        final(s)@ == old(s)@.push(c),
{
    s.push(c);
}

/// The characters of a string slice, in order.
pub fn chars_of(s: &str) -> (v: Vec<char>)
    ensures
        v@ == s@,
{
    let mut v: Vec<char> = Vec::new();
    for c in it: s.chars()
        invariant
            v@ == it.seq().take(it.index() as int),
    {
        v.push(c);
    }
    v
}

/// A string holding the first `n` of the given characters.
pub fn string_of(cs: &[char], n: usize) -> (s: String)
    requires
        n <= cs@.len(),
    ensures
        s@ == cs@.take(n as int),
{
    let mut s = String::new();
    let mut i: usize = 0;
    while i < n
        invariant
            i <= n <= cs@.len(),
            s@ == cs@.take(i as int),
        decreases n - i,
    {
        push_char(&mut s, cs[i]);
        i += 1;
        assert(cs@.take(i as int) =~= cs@.take(i - 1).push(cs@[i - 1]));
    }
    s
}

/// Whether two string slices hold the same characters.
pub fn str_eq(a: &str, b: &str) -> (r: bool)
    ensures
        r == (a@ == b@),
{
    let x = chars_of(a);
    let y = chars_of(b);
    if x.len() != y.len() {
        return false;
    }
    let mut i: usize = 0;
    while i < x.len()
        invariant
            x@ == a@,
            y@ == b@,
            x@.len() == y@.len(),
            i <= x@.len(),
            forall|k: int| 0 <= k < i ==> x@[k] == y@[k],
        decreases x@.len() - i,
    {
        if x[i] != y[i] {
            return false;
        }
        i += 1;
    }
    assert(x@ =~= y@);
    true
}

/// The hexadecimal digit for `d` (0..15), upper or lower case. Digits 0..9
/// are also the decimal digits.
pub open spec fn hex_digit(d: int, upper: bool) -> char {
    if d == 0 { '0' } else if d == 1 { '1' } else if d == 2 { '2' } else if d == 3 { '3' }
    else if d == 4 { '4' } else if d == 5 { '5' } else if d == 6 { '6' } else if d == 7 { '7' }
    else if d == 8 { '8' } else if d == 9 { '9' }
    else if d == 10 { if upper { 'A' } else { 'a' } }
    else if d == 11 { if upper { 'B' } else { 'b' } }
    else if d == 12 { if upper { 'C' } else { 'c' } }
    else if d == 13 { if upper { 'D' } else { 'd' } }
    else if d == 14 { if upper { 'E' } else { 'e' } }
    else { if upper { 'F' } else { 'f' } }
}

fn hex_digit_char(d: u8, upper: bool) -> (c: char)
    requires
        d < 16,
    ensures
        c == hex_digit(d as int, upper),
{
    if d == 0 { '0' } else if d == 1 { '1' } else if d == 2 { '2' } else if d == 3 { '3' }
    else if d == 4 { '4' } else if d == 5 { '5' } else if d == 6 { '6' } else if d == 7 { '7' }
    else if d == 8 { '8' } else if d == 9 { '9' }
    else if d == 10 { if upper { 'A' } else { 'a' } }
    else if d == 11 { if upper { 'B' } else { 'b' } }
    else if d == 12 { if upper { 'C' } else { 'c' } }
    else if d == 13 { if upper { 'D' } else { 'd' } }
    else if d == 14 { if upper { 'E' } else { 'e' } }
    else { if upper { 'F' } else { 'f' } }
}

/// Two-digit hexadecimal rendering of a byte (`{:02X}` / `{:02x}`).
pub open spec fn hex_byte(b: u8, upper: bool) -> Seq<char> {
    seq![hex_digit(b as int / 16, upper), hex_digit(b as int % 16, upper)]
}

/// Appends the two-digit hexadecimal rendering of `b`.
pub fn push_hex_byte(s: &mut String, b: u8, upper: bool)
    ensures
        final(s)@ == old(s)@ + hex_byte(b, upper),
{
    push_char(s, hex_digit_char(b / 16, upper));
    push_char(s, hex_digit_char(b % 16, upper));
    assert(final(s)@ =~= old(s)@ + hex_byte(b, upper));
}

/// Decimal rendering of a natural number, without leading zeros.
pub open spec fn decimal(n: nat) -> Seq<char>
    decreases n,
{
    if n < 10 {
        seq![hex_digit(n as int, true)]
    } else {
        decimal(n / 10).push(hex_digit((n % 10) as int, true))
    }
}

/// The digits 0..9 render as the ASCII characters `'0'`..`'9'`, and the
/// digits 10..15 as `'A'`..`'F'` (upper case) or `'a'`..`'f'` (lower case),
/// in order: the standard hexadecimal numerals.
pub proof fn hex_digit_is_standard(d: int, upper: bool)
    requires
        0 <= d < 16,
    ensures
        hex_digit(d, upper) as int == if d < 10 {
            48 + d
        } else if upper {
            65 + (d - 10)
        } else {
            97 + (d - 10)
        },
{
}

/// Distinct bytes render to distinct two-digit hexadecimal texts, and the
/// text of a byte is its high nibble's digit followed by its low nibble's.
pub proof fn hex_byte_is_faithful(a: u8, b: u8, upper: bool)
    ensures
        hex_byte(a, upper).len() == 2,
        hex_byte(a, upper)[0] as int == hex_digit(a as int / 16, upper) as int,
        hex_byte(a, upper) == hex_byte(b, upper) ==> a == b,
{
    hex_digit_is_standard(a as int / 16, upper);
    hex_digit_is_standard(a as int % 16, upper);
    hex_digit_is_standard(b as int / 16, upper);
    hex_digit_is_standard(b as int % 16, upper);
    if hex_byte(a, upper) == hex_byte(b, upper) {
        assert(hex_byte(a, upper)[0] == hex_byte(b, upper)[0]);
        assert(hex_byte(a, upper)[1] == hex_byte(b, upper)[1]);
        assert(a as int / 16 == b as int / 16);
        assert(a as int % 16 == b as int % 16);
    }
}

/// `c` is one of the ASCII digits `'0'`..`'9'`.
pub open spec fn is_ascii_digit(c: char) -> bool {
    48 <= c as int <= 57
}

/// The number a string of decimal digits denotes, read in base 10.
pub open spec fn numeral_value(s: Seq<char>) -> int
    decreases s.len(),
{
    if s.len() == 0 {
        0
    } else {
        numeral_value(s.drop_last()) * 10 + (s.last() as int - 48)
    }
}

/// The decimal rendering of `n` is its base-10 numeral: ASCII digits only,
/// reading back as `n`, with no leading zero (unless `n` is zero).
pub proof fn decimal_is_base_ten_numeral(n: nat)
    ensures
        decimal(n).len() >= 1,
        forall|i: int| 0 <= i < decimal(n).len() ==> is_ascii_digit(#[trigger] decimal(n)[i]),
        numeral_value(decimal(n)) == n,
        n != 0 ==> decimal(n)[0] != '0',
    decreases n,
{
    if n < 10 {
        hex_digit_is_standard(n as int, true);
        assert(decimal(n).drop_last() =~= Seq::<char>::empty());
        assert(numeral_value(Seq::<char>::empty()) == 0);
        assert(decimal(n).last() as int == 48 + n);
    } else {
        decimal_is_base_ten_numeral(n / 10);
        hex_digit_is_standard((n % 10) as int, true);
        let d = decimal(n);
        let m = decimal(n / 10);
        assert(d == m.push(hex_digit((n % 10) as int, true)));
        assert(d.drop_last() =~= m);
        assert(d[0] == m[0]);
        assert forall|i: int| 0 <= i < d.len() implies is_ascii_digit(#[trigger] d[i]) by {
            if i < m.len() {
                assert(d[i] == m[i]);
            }
        }
        assert(d.last() as int == 48 + n % 10);
        assert(numeral_value(d) == numeral_value(m) * 10 + (d.last() as int - 48));
        assert((n / 10) * 10 + n % 10 == n);
    }
}

/// Appends the decimal rendering of `n`.
pub fn push_decimal(s: &mut String, n: u64)
    ensures
        final(s)@ == old(s)@ + decimal(n as nat),
    decreases n,
{
    if n >= 10 {
        push_decimal(s, n / 10);
    }
    let d = (n % 10) as u8;
    push_char(s, hex_digit_char(d, true));
    assert(final(s)@ =~= old(s)@ + decimal(n as nat));
}

/// `pat` occurs in `s` at index `i`.
pub open spec fn occurs_at(s: Seq<char>, pat: Seq<char>, i: int) -> bool {
    0 <= i && i + pat.len() <= s.len() && s.subrange(i, i + pat.len()) == pat
}

/// Index of the first occurrence of `pat` in `s` at or after `start`.
pub open spec fn find_from(s: Seq<char>, pat: Seq<char>, start: int) -> Option<int>
    decreases s.len() + 1 - start,
{
    if start < 0 || start + pat.len() > s.len() {
        None
    } else if occurs_at(s, pat, start) {
        Some(start)
    } else {
        find_from(s, pat, start + 1)
    }
}

/// `pat` occurs somewhere in `s`.
pub open spec fn contains(s: Seq<char>, pat: Seq<char>) -> bool {
    exists|i: int| occurs_at(s, pat, i)
}

fn matches_at(s: &Vec<char>, pat: &Vec<char>, i: usize) -> (r: bool)
    ensures
        r == occurs_at(s@, pat@, i as int),
{
    if i > s.len() || pat.len() > s.len() - i {
        return false;
    }
    let slen = s.len();
    let mut k: usize = 0;
    while k < pat.len()
        invariant
            slen == s@.len(),
            i + pat@.len() <= s@.len(),
            k <= pat@.len(),
            forall|j: int| 0 <= j < k ==> s@[i + j] == pat@[j],
        decreases pat@.len() - k,
    {
        if s[i + k] != pat[k] {
            assert(s@.subrange(i as int, i + pat@.len())[k as int] != pat@[k as int]);
            return false;
        }
        k += 1;
    }
    assert(s@.subrange(i as int, i + pat@.len()) =~= pat@);
    true
}

/// First occurrence of `pat` in `s` at or after `start`.
pub fn find_chars(s: &Vec<char>, pat: &Vec<char>, start: usize) -> (r: Option<usize>)
    requires
        pat@.len() > 0,
    ensures
        r matches Some(i) ==> find_from(s@, pat@, start as int) == Some(i as int),
        r is None ==> find_from(s@, pat@, start as int) is None,
{
    if pat.len() > s.len() {
        return None;
    }
    let mut i = start;
    while i <= s.len() - pat.len()
        invariant
            start <= i,
            pat@.len() > 0,
        pat@.len() <= s@.len(),
        find_from(s@, pat@, start as int) == find_from(s@, pat@, i as int),
        decreases s@.len() + 1 - i,
    {
        if matches_at(s, pat, i) {
            return Some(i);
        }
        i += 1;
    }
    None
}

/// Lemma: a found occurrence really occurs, and none occurs between `start`
/// and it.
pub proof fn find_from_spec(s: Seq<char>, pat: Seq<char>, start: int)
    requires
        0 <= start,
    ensures
        find_from(s, pat, start) matches Some(i) ==> start <= i && occurs_at(s, pat, i) && (
        forall|j: int| start <= j < i ==> !occurs_at(s, pat, j)),
        find_from(s, pat, start) is None ==> forall|j: int| start <= j ==> !occurs_at(s, pat, j),
    decreases s.len() + 1 - start,
{
    if start + pat.len() > s.len() {
    } else if occurs_at(s, pat, start) {
    } else {
        find_from_spec(s, pat, start + 1);
    }
}

/// Unicode `White_Space`, as `char::is_whitespace` classifies characters.
pub open spec fn is_whitespace(c: char) -> bool {
    c == '\u{09}' || c == '\u{0A}' || c == '\u{0B}' || c == '\u{0C}' || c == '\u{0D}'
        || c == '\u{20}' || c == '\u{85}' || c == '\u{A0}' || c == '\u{1680}'
        || c == '\u{2000}' || c == '\u{2001}' || c == '\u{2002}' || c == '\u{2003}'
        || c == '\u{2004}' || c == '\u{2005}' || c == '\u{2006}' || c == '\u{2007}'
        || c == '\u{2008}' || c == '\u{2009}' || c == '\u{200A}' || c == '\u{2028}'
        || c == '\u{2029}' || c == '\u{202F}' || c == '\u{205F}' || c == '\u{3000}'
}

fn char_is_whitespace(c: char) -> (r: bool)
    ensures
        r == is_whitespace(c),
{
    c == '\u{09}' || c == '\u{0A}' || c == '\u{0B}' || c == '\u{0C}' || c == '\u{0D}'
        || c == '\u{20}' || c == '\u{85}' || c == '\u{A0}' || c == '\u{1680}'
        || c == '\u{2000}' || c == '\u{2001}' || c == '\u{2002}' || c == '\u{2003}'
        || c == '\u{2004}' || c == '\u{2005}' || c == '\u{2006}' || c == '\u{2007}'
        || c == '\u{2008}' || c == '\u{2009}' || c == '\u{200A}' || c == '\u{2028}'
        || c == '\u{2029}' || c == '\u{202F}' || c == '\u{205F}' || c == '\u{3000}'
}

/// No printable ASCII character (`'!'`..`'~'`: letters, digits,
/// punctuation) is whitespace.
pub proof fn printable_ascii_is_not_whitespace(c: char)
    requires
        0x21 <= c as int <= 0x7E,
    ensures
        !is_whitespace(c),
{
}

/// Trimming `body` followed by whitespace gives back `body`, when `body`
/// ends in a character that is not whitespace.
pub proof fn trim_end_removes_exactly_trailing_whitespace(body: Seq<char>, ws: Seq<char>)
    requires
        body.len() > 0,
        !is_whitespace(body.last()),
        forall|i: int| 0 <= i < ws.len() ==> is_whitespace(#[trigger] ws[i]),
    ensures
        trim_end(body + ws) == body,
    decreases ws.len(),
{
    if ws.len() == 0 {
        assert(body + ws =~= body);
    } else {
        assert((body + ws).last() == ws.last());
        assert((body + ws).drop_last() =~= body + ws.drop_last());
        trim_end_removes_exactly_trailing_whitespace(body, ws.drop_last());
    }
}

/// `s` without its trailing whitespace (`str::trim_end`).
pub open spec fn trim_end(s: Seq<char>) -> Seq<char>
    decreases s.len(),
{
    if s.len() > 0 && is_whitespace(s.last()) {
        trim_end(s.drop_last())
    } else {
        s
    }
}

/// Length of `s` once its trailing whitespace is removed.
pub fn trimmed_len(s: &Vec<char>) -> (n: usize)
    ensures
        n <= s@.len(),
        s@.take(n as int) == trim_end(s@),
{
    let mut n = s.len();
    assert(s@.take(n as int) =~= s@);
    while n > 0 && char_is_whitespace(s[n - 1])
        invariant
            n <= s@.len(),
            trim_end(s@.take(n as int)) == trim_end(s@),
        decreases n,
    {
        assert(s@.take(n as int).drop_last() =~= s@.take(n - 1));
        n -= 1;
    }
    n
}

/// `s` with every non-overlapping occurrence of `from`, scanned left to
/// right, replaced by `to` (`str::replace`).
pub open spec fn replace_all(s: Seq<char>, from: Seq<char>, to: Seq<char>) -> Seq<char>
    decreases s.len(),
{
    if from.len() == 0 || s.len() == 0 {
        s
    } else if from.len() <= s.len() && s.take(from.len() as int) == from {
        to + replace_all(s.skip(from.len() as int), from, to)
    } else {
        seq![s[0]] + replace_all(s.skip(1), from, to)
    }
}

/// Builds `replace_all(s[start..end], from, to)`.
pub fn replace_range(s: &Vec<char>, start: usize, end: usize, from: &Vec<char>, to: &Vec<char>) -> (r: String)
    requires
        start <= end <= s@.len(),
        from@.len() > 0,
    ensures
        r@ == replace_all(s@.subrange(start as int, end as int), from@, to@),
{
    let mut out = String::new();
    let mut i = start;
    while i < end
        invariant
            start <= i <= end <= s@.len(),
            from@.len() > 0,
            out@ + replace_all(s@.subrange(i as int, end as int), from@, to@) == replace_all(
                s@.subrange(start as int, end as int),
                from@,
                to@,
            ),
        decreases end - i,
    {
        let ghost rest = s@.subrange(i as int, end as int);
        if from.len() <= end - i && matches_at(s, from, i) {
            assert(rest.take(from@.len() as int) =~= s@.subrange(i as int, i + from@.len()));
            assert(rest.skip(from@.len() as int) =~= s@.subrange(i + from@.len(), end as int));
            let mut k: usize = 0;
            let ghost before = out@;
            while k < to.len()
                invariant
                    k <= to@.len(),
                    out@ == before + to@.take(k as int),
                decreases to@.len() - k,
            {
                push_char(&mut out, to[k]);
                k += 1;
                assert(to@.take(k as int) =~= to@.take(k - 1).push(to@[k - 1]));
            }
            assert(to@.take(to@.len() as int) =~= to@);
            i += from.len();
        } else {
            assert(!(from@.len() <= rest.len() && rest.take(from@.len() as int) == from@)) by {
                if from@.len() <= rest.len() && rest.take(from@.len() as int) == from@ {
                    assert(s@.subrange(i as int, i + from@.len()) =~= rest.take(from@.len() as int));
                }
            }
            assert(rest.skip(1) =~= s@.subrange(i + 1, end as int));
            push_char(&mut out, s[i]);
            i += 1;
        }
        assert(out@ + replace_all(s@.subrange(i as int, end as int), from@, to@) =~= replace_all(
            s@.subrange(start as int, end as int),
            from@,
            to@,
        ));
    }
    assert(s@.subrange(end as int, end as int) =~= Seq::<char>::empty());
    assert(out@ + replace_all(s@.subrange(end as int, end as int), from@, to@) =~= out@);
    out
}

} // verus!

verus! {

/// `rel` appended to `base` the way a relative path is pushed onto a path on
/// Unix: a `/` separator goes in unless `base` is empty or already ends with one.
pub open spec fn join_path_spec(base: Seq<char>, rel: Seq<char>) -> Seq<char> {
    if base.len() == 0 || base.last() == '/' {
        base + rel
    } else {
        base + seq!['/'] + rel
    }
}

/// Joins a relative path component onto `base`.
pub fn join_path(base: &str, rel: &str) -> (p: String)
    ensures
        p@ == join_path_spec(base@, rel@),
{
    let b = chars_of(base);
    let mut p = String::from_str(base);
    if b.len() > 0 && b[b.len() - 1] != '/' {
        push_char(&mut p, '/');
    }
    p.append(rel);
    p
}

} // verus!
