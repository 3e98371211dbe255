//! Character-sequence utilities shared by the script builders and parsers.
//!
//! Text is modelled as `Seq<char>` in specifications; executable code works on
//! `Vec<char>` buffers and converts to and from `String` at the edges.

use vstd::prelude::*;

verus! {

/// Whitespace as `char::is_whitespace` defines it: the Unicode `White_Space` property.
pub open spec fn is_ws(c: char) -> bool {
    ||| c == '\t' || c == '\n' || c == '\u{0B}' || c == '\u{0C}' || c == '\r' || c == ' '
    ||| c == '\u{85}' || c == '\u{A0}' || c == '\u{1680}'
    ||| ('\u{2000}' <= c && c <= '\u{200A}')
    ||| c == '\u{2028}' || c == '\u{2029}' || c == '\u{202F}' || c == '\u{205F}' || c == '\u{3000}'
}

/// Executable counterpart of [`is_ws`].
pub fn is_whitespace(c: char) -> (b: bool)
    ensures
        b == is_ws(c),
{
    c == '\t' || c == '\n' || c == '\u{0B}' || c == '\u{0C}' || c == '\r' || c == ' '
        || c == '\u{85}' || c == '\u{A0}' || c == '\u{1680}' || ('\u{2000}' <= c && c <= '\u{200A}')
        || c == '\u{2028}' || c == '\u{2029}' || c == '\u{202F}' || c == '\u{205F}'
        || c == '\u{3000}'
}

/// `s` with leading whitespace removed.
pub open spec fn trim_start(s: Seq<char>) -> Seq<char>
    decreases s.len(),
{
    if s.len() > 0 && is_ws(s[0]) {
        trim_start(s.drop_first())
    } else {
        s
    }
}

/// `s` with trailing whitespace removed.
pub open spec fn trim_end(s: Seq<char>) -> Seq<char>
    decreases s.len(),
{
    if s.len() > 0 && is_ws(s.last()) {
        trim_end(s.drop_last())
    } else {
        s
    }
}

/// `s` with whitespace removed at both ends, as `str::trim` does.
pub open spec fn trim(s: Seq<char>) -> Seq<char> {
    trim_end(trim_start(s))
}

/// The characters of a string slice, in order.
pub fn chars_of(s: &str) -> (v: Vec<char>)
    ensures
        v@ == s@,
{
    let mut v: Vec<char> = Vec::new();
    for c in it: s.chars()
        invariant
            it.seq() == s@,
            v@ == it.seq().take(it.index() as int),
    {
        v.push(c);
    }
    v
}


/// A `String` holding exactly the given characters.
///
/// Trusted: calls `Iterator::collect` into `String` (std), which appends
/// each character in order.
#[verifier::external_body]
pub(crate) fn string_from_chars(v: &[char]) -> (s: String)
    ensures
        s@ == v@,
{
    v.iter().collect()
}

/// The characters `v[a..b]` as a `String`.
pub fn substring(v: &Vec<char>, a: usize, b: usize) -> (s: String)
    requires
        a <= b <= v.len(),
    ensures
        s@ == v@.subrange(a as int, b as int),
{
    let mut out: Vec<char> = Vec::new();
    let mut i = a;
    while i < b
        invariant
            a <= i <= b <= v.len(),
            out@ == v@.subrange(a as int, i as int),
        decreases b - i,
    {
        out.push(v[i]);
        i += 1;
        assert(out@ =~= v@.subrange(a as int, i as int));
    }
    string_from_chars(out.as_slice())
}

proof fn lemma_trim_start_step(s: Seq<char>, i: int, hi: int)
    requires
        0 <= i < hi <= s.len(),
        is_ws(s[i]),
    ensures
        trim_start(s.subrange(i, hi)) == trim_start(s.subrange(i + 1, hi)),
{
    assert(s.subrange(i, hi).drop_first() =~= s.subrange(i + 1, hi));
}

proof fn lemma_trim_end_step(s: Seq<char>, lo: int, j: int)
    requires
        0 <= lo < j <= s.len(),
        is_ws(s[j - 1]),
    ensures
        trim_end(s.subrange(lo, j)) == trim_end(s.subrange(lo, j - 1)),
{
    assert(s.subrange(lo, j).drop_last() =~= s.subrange(lo, j - 1));
}

/// Bounds of `trim(v[lo..hi])` within `v`.
pub fn trim_range(v: &Vec<char>, lo: usize, hi: usize) -> (r: (usize, usize))
    requires
        lo <= hi <= v.len(),
    ensures
        lo <= r.0 <= r.1 <= hi,
        trim(v@.subrange(lo as int, hi as int)) == v@.subrange(r.0 as int, r.1 as int),
{
    let mut i = lo;
    while i < hi && is_whitespace(v[i])
        invariant
            lo <= i <= hi <= v.len(),
            trim_start(v@.subrange(lo as int, hi as int)) == trim_start(
                v@.subrange(i as int, hi as int),
            ),
        decreases hi - i,
    {
        proof {
            lemma_trim_start_step(v@, i as int, hi as int);
        }
        i += 1;
    }
    assert(trim_start(v@.subrange(i as int, hi as int)) == v@.subrange(i as int, hi as int));
    let mut j = hi;
    while j > i && is_whitespace(v[j - 1])
        invariant
            lo <= i <= j <= hi <= v.len(),
            trim_end(v@.subrange(i as int, hi as int)) == trim_end(v@.subrange(i as int, j as int)),
        decreases j,
    {
        proof {
            lemma_trim_end_step(v@, i as int, j as int);
        }
        j -= 1;
    }
    (i, j)
}

/// `str::trim` on a whole string, as a `String`.
pub fn trimmed(s: &str) -> (t: String)
    ensures
        t@ == trim(s@),
{
    let v = chars_of(s);
    let (a, b) = trim_range(&v, 0, v.len());
    assert(v@.subrange(0, v@.len() as int) =~= v@);
    substring(&v, a, b)
}


/// The pieces of `s` between occurrences of `sep`, at most `n` of them (the
/// last piece keeps the rest), as `str::splitn(n, sep)` yields them for `n >= 1`.
pub open spec fn splitn(s: Seq<char>, n: nat, sep: char) -> Seq<Seq<char>>
    decreases s.len(),
{
    if s.len() == 0 {
        seq![Seq::<char>::empty()]
    } else {
        let p = splitn(s.drop_last(), n, sep);
        if s.last() == sep && p.len() < n {
            p.push(Seq::<char>::empty())
        } else {
            p.drop_last().push(p.last().push(s.last()))
        }
    }
}

/// The pieces of `s` between occurrences of `sep`, as `str::split(sep)` yields
/// them (for any string of fewer than `usize::MAX` characters, which every
/// string in memory is, the bound on the count is never reached).
pub open spec fn split(s: Seq<char>, sep: char) -> Seq<Seq<char>> {
    splitn(s, usize::MAX as nat, sep)
}

pub proof fn lemma_splitn_len(s: Seq<char>, n: nat, sep: char)
    requires
        n >= 1,
    ensures
        1 <= splitn(s, n, sep).len() <= n,
        splitn(s, n, sep).len() <= s.len() + 1,
    decreases s.len(),
{
    if s.len() > 0 {
        lemma_splitn_len(s.drop_last(), n, sep);
    }
}

/// After the pieces are full (or with no separator to come), splitting
/// more text only lengthens the last piece.
proof fn lemma_splitn_append(x: Seq<char>, l: Seq<char>, n: nat, sep: char)
    requires
        n >= 1,
        splitn(x, n, sep).len() == n || !l.contains(sep),
    ensures
        splitn(x + l, n, sep) == splitn(x, n, sep).drop_last().push(splitn(x, n, sep).last() + l),
    decreases l.len(),
{
    lemma_splitn_len(x, n, sep);
    if l.len() == 0 {
        assert(x + l =~= x);
        assert(splitn(x, n, sep).last() + l =~= splitn(x, n, sep).last());
        assert(splitn(x, n, sep).drop_last().push(splitn(x, n, sep).last()) =~= splitn(x, n, sep));
    } else {
        let l1 = l.drop_last();
        let c = l.last();
        if !l.contains(sep) {
            assert forall|i: int| 0 <= i < l1.len() implies l1[i] != sep by {
                assert(l[i] == l1[i]);
            }
            assert(!l1.contains(sep));
            assert(c != sep) by {
                assert(l[l.len() - 1] == c);
            }
        }
        lemma_splitn_append(x, l1, n, sep);
        assert((x + l).drop_last() =~= x + l1);
        assert((x + l).last() == c);
        let p = splitn(x + l1, n, sep);
        lemma_splitn_len(x + l1, n, sep);
        assert(p.len() == splitn(x, n, sep).len());
        let q = splitn(x, n, sep);
        assert(l =~= l1.push(c));
        assert(p.drop_last() =~= q.drop_last());
        assert(p.last() == q.last() + l1);
        assert((q.last() + l1).push(c) =~= q.last() + l);
        assert(p.drop_last().push(p.last().push(c)) =~= splitn(x, n, sep).drop_last().push(
            splitn(x, n, sep).last() + l,
        ));
    }
}

/// Fields joined with a separator are split back into the same fields, when
/// no field but the last of a full count holds the separator.
pub proof fn law_split_joined(fields: Seq<Seq<char>>, n: nat, sep: char)
    requires
        1 <= fields.len() <= n,
        forall|i: int| 0 <= i < fields.len() && (i < fields.len() - 1 || fields.len() < n) ==> !(
        #[trigger] fields[i]).contains(sep),
    ensures
        splitn(crate::script::join(fields, seq![sep]), n, sep) == fields,
    decreases fields.len(),
{
    let j = crate::script::join(fields, seq![sep]);
    if fields.len() == 1 {
        assert(splitn(Seq::<char>::empty(), n, sep) == seq![Seq::<char>::empty()]);
        if 1 < n {
            assert(!fields[0].contains(sep));
        }
        lemma_splitn_append(Seq::empty(), fields[0], n, sep);
        assert(Seq::<char>::empty() + fields[0] =~= fields[0]);
        assert(seq![Seq::<char>::empty()].drop_last().push(Seq::<char>::empty() + fields[0]) =~= fields);
    } else {
        let init = fields.drop_last();
        let last = fields.last();
        assert forall|i: int| 0 <= i < init.len() && (i < init.len() - 1 || init.len() < n) implies !(
        #[trigger] init[i]).contains(sep) by {
            assert(init[i] == fields[i]);
        }
        law_split_joined(init, n, sep);
        let a = crate::script::join(init, seq![sep]);
        lemma_splitn_len(a, n, sep);
        let a1 = a + seq![sep];
        assert(a1.drop_last() =~= a);
        assert(a1.last() == sep);
        assert(splitn(a1, n, sep) == init.push(Seq::<char>::empty()));
        if fields.len() < n {
            assert(!fields[fields.len() - 1].contains(sep));
        }
        assert(splitn(a1, n, sep).len() == fields.len());
        lemma_splitn_append(a1, last, n, sep);
        assert(j =~= a1 + last);
        assert(init.push(Seq::<char>::empty()).drop_last().push(Seq::<char>::empty() + last) =~= fields);
    }
}

/// The pieces `v[r.0 .. r.1]` for each bound pair in `rs`.
pub open spec fn pieces(v: Seq<char>, rs: Seq<(usize, usize)>) -> Seq<Seq<char>> {
    Seq::new(rs.len(), |i: int| v.subrange(rs[i].0 as int, rs[i].1 as int))
}

/// Bounds of the pieces of `v[lo..hi]` split on `sep`, at most `n` of them.
pub fn splitn_ranges(v: &Vec<char>, lo: usize, hi: usize, n: usize, sep: char) -> (rs: Vec<
    (usize, usize),
>)
    requires
        lo <= hi <= v.len(),
        n >= 1,
    ensures
        pieces(v@, rs@) == splitn(v@.subrange(lo as int, hi as int), n as nat, sep),
        forall|i: int|
            0 <= i < rs@.len() ==> lo <= #[trigger] rs@[i].0 <= rs@[i].1 <= hi,
{
    let mut rs: Vec<(usize, usize)> = Vec::new();
    let mut start = lo;
    let mut k = lo;
    assert(v@.subrange(lo as int, lo as int) =~= Seq::<char>::empty());
    assert(pieces(v@, rs@.push((start, k))) =~= seq![Seq::<char>::empty()]);
    while k < hi
        invariant
            lo <= start <= k <= hi <= v.len(),
            n >= 1,
            rs@.len() < n,
            forall|i: int| 0 <= i < rs@.len() ==> lo <= #[trigger] rs@[i].0 <= rs@[i].1 <= start,
            pieces(v@, rs@.push((start, k))) == splitn(
                v@.subrange(lo as int, k as int),
                n as nat,
                sep,
            ),
        decreases hi - k,
    {
        let ghost old_rs = rs@;
        let ghost old_start = start;
        let ghost prev = v@.subrange(lo as int, k as int);
        let ghost next = v@.subrange(lo as int, k + 1);
        assert(next.drop_last() =~= prev);
        assert(next.last() == v@[k as int]);
        if v[k] == sep && rs.len() + 1 < n {
            rs.push((start, k));
            start = k + 1;
            k += 1;
            assert(v@.subrange(start as int, k as int) =~= Seq::<char>::empty());
            assert(pieces(v@, rs@.push((start, k))) =~= pieces(v@, old_rs.push((old_start, (k - 1) as usize))).push(
                Seq::<char>::empty(),
            ));
        } else {
            k += 1;
            assert(v@.subrange(start as int, k as int) =~= v@.subrange(start as int, k - 1).push(
                v@[k - 1],
            ));
            assert(pieces(v@, rs@.push((start, k))) =~= pieces(v@, rs@.push((start, (k - 1) as usize))).drop_last().push(
                pieces(v@, rs@.push((start, (k - 1) as usize))).last().push(v@[k - 1]),
            ));
        }
    }
    rs.push((start, k));
    rs
}


/// The decimal digit character for `d < 10`.
pub open spec fn digit_char(d: nat) -> char {
    ((48 + d) as u8) as char
}

/// Decimal rendering of a natural number, as `Display` prints unsigned integers.
pub open spec fn dec(n: nat) -> Seq<char>
    decreases n,
{
    if n < 10 {
        seq![digit_char(n)]
    } else {
        dec(n / 10).push(digit_char(n % 10))
    }
}

/// Decimal rendering of an integer, as `Display` prints signed integers.
pub open spec fn dec_int(n: int) -> Seq<char> {
    if n < 0 {
        seq!['-'] + dec((-n) as nat)
    } else {
        dec(n as nat)
    }
}

/// Appends the decimal rendering of `n` to `out`.
pub fn push_dec(out: &mut Vec<char>, n: u64)
    ensures
        final(out)@ == old(out)@ + dec(n as nat),
    decreases n,
{
    if n >= 10 {
        push_dec(out, n / 10);
    }
    let d = (n % 10) as u8;
    out.push((48u8 + d) as char);
    proof {
        if n >= 10 {
            assert(dec(n as nat) == dec((n / 10) as nat).push(digit_char((n % 10) as nat)));
        }
    }
}

/// Appends the decimal rendering of the signed `n` to `out`.
pub fn push_dec_i64(out: &mut Vec<char>, n: i64)
    ensures
        final(out)@ == old(out)@ + dec_int(n as int),
{
    if n < 0 {
        out.push('-');
        let m: u64 = if n == i64::MIN {
            9223372036854775808u64
        } else {
            (-n) as u64
        };
        let ghost mid = out@;
        push_dec(out, m);
        assert(out@ =~= old(out)@ + dec_int(n as int));
    } else {
        push_dec(out, n as u64);
    }
}

/// The ways `str::parse` of an integer can fail.
#[derive(PartialEq, Eq, Structural, Debug, Clone, Copy)]
pub enum IntError {
    Empty,
    InvalidDigit,
    PosOverflow,
    NegOverflow,
}

/// The text `Display` prints for each integer-parse failure.
pub open spec fn int_error_text(e: IntError) -> Seq<char> {
    match e {
        IntError::Empty => "cannot parse integer from empty string"@,
        IntError::InvalidDigit => "invalid digit found in string"@,
        IntError::PosOverflow => "number too large to fit in target type"@,
        IntError::NegOverflow => "number too small to fit in target type"@,
    }
}

/// Executable counterpart of [`int_error_text`].
pub fn int_error_message(e: IntError) -> (s: String)
    ensures
        s@ == int_error_text(e),
{
    match e {
        IntError::Empty => String::from_str("cannot parse integer from empty string"),
        IntError::InvalidDigit => String::from_str("invalid digit found in string"),
        IntError::PosOverflow => String::from_str("number too large to fit in target type"),
        IntError::NegOverflow => String::from_str("number too small to fit in target type"),
    }
}

pub open spec fn is_digit(c: char) -> bool {
    '0' <= c && c <= '9'
}

pub open spec fn digit_val(c: char) -> nat {
    (c as nat - 48) as nat
}

/// Digits read left to right onto `acc`, failing on the first non-digit or
/// on the first step that leaves `[lo, hi]`; `neg` subtracts each digit.
pub open spec fn scan_digits(acc: int, s: Seq<char>, neg: bool, lo: int, hi: int) -> Result<
    int,
    IntError,
>
    decreases s.len(),
{
    if s.len() == 0 {
        Ok(acc)
    } else if !is_digit(s[0]) {
        Err(IntError::InvalidDigit)
    } else {
        let a = if neg {
            acc * 10 - digit_val(s[0])
        } else {
            acc * 10 + digit_val(s[0])
        };
        if a > hi {
            Err(IntError::PosOverflow)
        } else if a < lo {
            Err(IntError::NegOverflow)
        } else {
            scan_digits(a, s.drop_first(), neg, lo, hi)
        }
    }
}

/// `str::parse` into an integer type with range `[lo, hi]`; `signed` admits a leading `-`.
pub open spec fn parse_int_spec(s: Seq<char>, signed: bool, lo: int, hi: int) -> Result<
    int,
    IntError,
> {
    if s.len() == 0 {
        Err(IntError::Empty)
    } else if s.len() == 1 && (s[0] == '+' || s[0] == '-') {
        Err(IntError::InvalidDigit)
    } else if s[0] == '+' {
        scan_digits(0, s.drop_first(), false, lo, hi)
    } else if signed && s[0] == '-' {
        scan_digits(0, s.drop_first(), true, lo, hi)
    } else {
        scan_digits(0, s, false, lo, hi)
    }
}

/// `str::parse::<usize>`.
pub open spec fn parse_usize_spec(s: Seq<char>) -> Result<int, IntError> {
    parse_int_spec(s, false, 0, usize::MAX as int)
}

/// `str::parse::<i64>`.
pub open spec fn parse_i64_spec(s: Seq<char>) -> Result<int, IntError> {
    parse_int_spec(s, true, i64::MIN as int, i64::MAX as int)
}

/// Reads the digits `v[i..hi]` onto `acc` as [`scan_digits`] describes, for i64 ranges.
fn scan_digits_exec(v: &Vec<char>, i: usize, hi: usize, acc: i128, neg: bool, lo_b: i128, hi_b: i128) -> (r: Result<i128, IntError>)
    requires
        i <= hi <= v.len(),
        lo_b <= acc <= hi_b,
        -9223372036854775808i128 <= lo_b <= 0 <= hi_b <= 18446744073709551615i128,
    ensures
        match r {
            Ok(x) => scan_digits(acc as int, v@.subrange(i as int, hi as int), neg, lo_b as int, hi_b as int) == Ok::<int, IntError>(x as int),
            Err(e) => scan_digits(acc as int, v@.subrange(i as int, hi as int), neg, lo_b as int, hi_b as int) == Err::<int, IntError>(e),
        },
    decreases hi - i,
{
    if i == hi {
        return Ok(acc);
    }
    let ghost s = v@.subrange(i as int, hi as int);
    assert(s[0] == v@[i as int]);
    assert(s.drop_first() =~= v@.subrange(i + 1, hi as int));
    let c = v[i];
    if !('0' <= c && c <= '9') {
        return Err(IntError::InvalidDigit);
    }
    let d = (c as u32 - 48) as i128;
    let a = if neg {
        acc * 10 - d
    } else {
        acc * 10 + d
    };
    if a > hi_b {
        Err(IntError::PosOverflow)
    } else if a < lo_b {
        Err(IntError::NegOverflow)
    } else {
        scan_digits_exec(v, i + 1, hi, a, neg, lo_b, hi_b)
    }
}

/// Parses `v[lo..hi]` as `str::parse` does for an integer type with range `[lo_b, hi_b]`.
fn parse_int_range(v: &Vec<char>, lo: usize, hi: usize, signed: bool, lo_b: i128, hi_b: i128) -> (r: Result<i128, IntError>)
    requires
        lo <= hi <= v.len(),
        -9223372036854775808i128 <= lo_b <= 0 <= hi_b <= 18446744073709551615i128,
    ensures
        match r {
            Ok(x) => parse_int_spec(v@.subrange(lo as int, hi as int), signed, lo_b as int, hi_b as int) == Ok::<int, IntError>(x as int) && lo_b <= x <= hi_b,
            Err(e) => parse_int_spec(v@.subrange(lo as int, hi as int), signed, lo_b as int, hi_b as int) == Err::<int, IntError>(e),
        },
{
    let ghost s = v@.subrange(lo as int, hi as int);
    if lo == hi {
        return Err(IntError::Empty);
    }
    let c = v[lo];
    assert(s[0] == c);
    if hi - lo == 1 && (c == '+' || c == '-') {
        return Err(IntError::InvalidDigit);
    }
    assert(s.drop_first() =~= v@.subrange(lo + 1, hi as int));
    let r = if c == '+' {
        scan_digits_exec(v, lo + 1, hi, 0, false, lo_b, hi_b)
    } else if signed && c == '-' {
        scan_digits_exec(v, lo + 1, hi, 0, true, lo_b, hi_b)
    } else {
        scan_digits_exec(v, lo, hi, 0, false, lo_b, hi_b)
    };
    proof {
        if let Ok(x) = r {
            lemma_scan_bounds(0, if c == '+' || (signed && c == '-') { s.drop_first() } else { s }, c != '+' && signed && c == '-', lo_b as int, hi_b as int);
        }
    }
    r
}

proof fn lemma_scan_bounds(acc: int, s: Seq<char>, neg: bool, lo: int, hi: int)
    requires
        lo <= acc <= hi,
    ensures
        scan_digits(acc, s, neg, lo, hi) matches Ok(x) ==> lo <= x <= hi,
    decreases s.len(),
{
    if s.len() > 0 && is_digit(s[0]) {
        let a = if neg {
            acc * 10 - digit_val(s[0])
        } else {
            acc * 10 + digit_val(s[0])
        };
        if lo <= a <= hi {
            lemma_scan_bounds(a, s.drop_first(), neg, lo, hi);
        }
    }
}

/// `v[lo..hi].parse::<usize>()`.
pub fn parse_usize_range(v: &Vec<char>, lo: usize, hi: usize) -> (r: Result<usize, IntError>)
    requires
        lo <= hi <= v.len(),
    ensures
        match r {
            Ok(x) => parse_usize_spec(v@.subrange(lo as int, hi as int)) == Ok::<int, IntError>(x as int),
            Err(e) => parse_usize_spec(v@.subrange(lo as int, hi as int)) == Err::<int, IntError>(e),
        },
{
    let hi_b: i128 = usize::MAX as i128;
    match parse_int_range(v, lo, hi, false, 0, hi_b) {
        Ok(x) => Ok(x as usize),
        Err(e) => Err(e),
    }
}

/// `v[lo..hi].parse::<i64>()`.
pub fn parse_i64_range(v: &Vec<char>, lo: usize, hi: usize) -> (r: Result<i64, IntError>)
    requires
        lo <= hi <= v.len(),
    ensures
        match r {
            Ok(x) => parse_i64_spec(v@.subrange(lo as int, hi as int)) == Ok::<int, IntError>(x as int),
            Err(e) => parse_i64_spec(v@.subrange(lo as int, hi as int)) == Err::<int, IntError>(e),
        },
{
    match parse_int_range(v, lo, hi, true, -9223372036854775808i128, 9223372036854775807i128) {
        Ok(x) => Ok(x as i64),
        Err(e) => Err(e),
    }
}


/// `t` occurs in `s` starting at index `i`.
pub open spec fn occurs_at(s: Seq<char>, t: Seq<char>, i: int) -> bool {
    0 <= i && i + t.len() <= s.len() && s.subrange(i, i + t.len()) == t
}

/// `t` occurs somewhere in `s`, as `str::contains` reports.
pub open spec fn contains(s: Seq<char>, t: Seq<char>) -> bool {
    exists|i: int| occurs_at(s, t, i)
}

/// `i` is the first index at which `t` occurs in `s`.
pub open spec fn first_occurrence(s: Seq<char>, t: Seq<char>, i: int) -> bool {
    occurs_at(s, t, i) && forall|j: int| 0 <= j < i ==> !#[trigger] occurs_at(s, t, j)
}

/// The first index at which `t` occurs in `s`, as `str::find` reports it (in characters).
pub open spec fn find(s: Seq<char>, t: Seq<char>) -> Option<int> {
    if contains(s, t) {
        Some(choose|i: int| first_occurrence(s, t, i))
    } else {
        None
    }
}

proof fn lemma_find_is(s: Seq<char>, t: Seq<char>, i: int)
    requires
        first_occurrence(s, t, i),
    ensures
        find(s, t) == Some(i),
{
    assert(contains(s, t));
    let w = choose|w: int| first_occurrence(s, t, w);
    assert(first_occurrence(s, t, w));
    if w < i {
        assert(!occurs_at(s, t, w));
    } else if w > i {
        assert(!occurs_at(s, t, i));
    }
}

/// Whether `v[i..]` starts with `t`.
fn matches_at(v: &Vec<char>, t: &Vec<char>, i: usize) -> (b: bool)
    requires
        i <= v.len(),
    ensures
        b == occurs_at(v@, t@, i as int),
{
    if t.len() > v.len() - i {
        return false;
    }
    let mut k: usize = 0;
    while k < t.len()
        invariant
            i + t.len() <= v.len(),
            k <= t.len(),
            forall|m: int| 0 <= m < k ==> v@[i + m] == t@[m],
        decreases t.len() - k,
    {
        if v[i + k] != t[k] {
            assert(v@.subrange(i as int, i + t@.len())[k as int] != t@[k as int]);
            return false;
        }
        k += 1;
    }
    assert(v@.subrange(i as int, i + t@.len()) =~= t@);
    true
}

/// The first index of `t` in `v`, if any.
pub fn find_in(v: &Vec<char>, t: &Vec<char>) -> (r: Option<usize>)
    ensures
        match r {
            Some(i) => find(v@, t@) == Some(i as int) && first_occurrence(v@, t@, i as int),
            None => find(v@, t@) is None,
        },
{
    let mut i: usize = 0;
    while i < v.len()
        invariant
            i <= v.len(),
            forall|j: int| 0 <= j < i ==> !occurs_at(v@, t@, j),
        decreases v.len() - i,
    {
        if matches_at(v, t, i) {
            proof {
                lemma_find_is(v@, t@, i as int);
            }
            return Some(i);
        }
        i += 1;
    }
    if matches_at(v, t, i) {
        proof {
            lemma_find_is(v@, t@, i as int);
        }
        return Some(i);
    }
    assert forall|j: int| !occurs_at(v@, t@, j) by {
        if 0 <= j < i {
        }
    }
    assert(!contains(v@, t@));
    None
}

/// `str::contains` on character buffers.
pub fn contains_exec(v: &Vec<char>, t: &Vec<char>) -> (b: bool)
    ensures
        b == contains(v@, t@),
{
    match find_in(v, t) {
        Some(_) => true,
        None => false,
    }
}


/// Appends the characters of `s` to `out`.
pub fn push_str(out: &mut Vec<char>, s: &str)
    ensures
        final(out)@ == old(out)@ + s@,
{
    for c in it: s.chars()
        invariant
            it.seq() == s@,
            out@ == old(out)@ + it.seq().take(it.index() as int),
    {
        out.push(c);
    }
    assert(s@.take(s@.len() as int) =~= s@);
}

/// Appends the characters of `v` to `out`.
pub fn push_chars(out: &mut Vec<char>, v: &Vec<char>)
    ensures
        final(out)@ == old(out)@ + v@,
{
    let mut i: usize = 0;
    while i < v.len()
        invariant
            i <= v.len(),
            out@ == old(out)@ + v@.take(i as int),
        decreases v.len() - i,
    {
        out.push(v[i]);
        i += 1;
        assert(v@.take(i as int) =~= v@.take(i - 1).push(v@[i - 1]));
    }
    assert(v@.take(v@.len() as int) =~= v@);
}

/// Whether `v[lo..hi]` equals `t`.
pub fn range_eq(v: &Vec<char>, lo: usize, hi: usize, t: &str) -> (b: bool)
    requires
        lo <= hi <= v.len(),
    ensures
        b == (v@.subrange(lo as int, hi as int) == t@),
{
    let w = chars_of(t);
    if hi - lo != w.len() {
        return false;
    }
    let mut k: usize = 0;
    while k < w.len()
        invariant
            lo + w.len() == hi <= v.len(),
            w@ == t@,
            k <= w.len(),
            forall|m: int| 0 <= m < k ==> v@[lo + m] == w@[m],
        decreases w.len() - k,
    {
        if v[lo + k] != w[k] {
            assert(v@.subrange(lo as int, hi as int)[k as int] != w@[k as int]);
            return false;
        }
        k += 1;
    }
    assert(v@.subrange(lo as int, hi as int) =~= w@);
    true
}

/// Whether two strings hold the same characters.
pub fn str_eq(a: &str, b: &str) -> (r: bool)
    ensures
        r == (a@ == b@),
{
    let v = chars_of(a);
    assert(v@.subrange(0, v@.len() as int) =~= v@);
    range_eq(&v, 0, v.len(), b)
}

/// `str::to_lowercase` of `s`: the Unicode lower-case mapping of its
/// characters (a final sigma maps by its context).
pub uninterp spec fn lower(s: Seq<char>) -> Seq<char>;

/// `s` in lower case.
///
/// Trusted: calls `str::to_lowercase` (std), whose result depends on the
/// characters of `s` alone; it is named [`lower`] and not spelled out.
#[verifier::external_body]
pub(crate) fn lowercase(s: &str) -> (r: String)
    ensures
        r@ == lower(s@),
{
    s.to_lowercase()
}

} // verus!
