//! Building blocks of the AppleScript programs sent to Things 3, and of the
//! readers for what those programs print.

use vstd::prelude::*;
use crate::text::{chars_of, push_chars, push_str, str_eq, string_from_chars};

verus! {

/// How one character is written inside an AppleScript double-quoted string.
pub open spec fn esc_char(c: char) -> Seq<char> {
    if c == '\\' {
        seq!['\\', '\\']
    } else if c == '"' {
        seq!['\\', '"']
    } else {
        seq![c]
    }
}

/// `s` escaped for embedding in an AppleScript double-quoted string: every
/// backslash and every double quote gets a backslash in front.
pub open spec fn esc_spec(s: Seq<char>) -> Seq<char>
    decreases s.len(),
{
    if s.len() == 0 {
        Seq::empty()
    } else {
        esc_spec(s.drop_last()) + esc_char(s.last())
    }
}

/// Appends the escaped form of `s` to `out`.
pub fn push_esc(out: &mut Vec<char>, s: &str)
    ensures
        final(out)@ == old(out)@ + esc_spec(s@),
{
    let v = chars_of(s);
    let mut i: usize = 0;
    while i < v.len()
        invariant
            i <= v.len(),
            v@ == s@,
            out@ == old(out)@ + esc_spec(v@.take(i as int)),
        decreases v.len() - i,
    {
        let c = v[i];
        let ghost before = out@;
        if c == '\\' {
            out.push('\\');
            out.push('\\');
        } else if c == '"' {
            out.push('\\');
            out.push('"');
        } else {
            out.push(c);
        }
        i += 1;
        assert(v@.take(i as int).drop_last() =~= v@.take(i - 1));
        assert(out@ =~= before + esc_char(c));
    }
    assert(v@.take(v@.len() as int) =~= v@);
}

/// Escape a string for safe embedding in AppleScript double-quoted strings.
pub fn esc(s: &str) -> (r: String)
    ensures
        r@ == esc_spec(s@),
{
    let mut out: Vec<char> = Vec::new();
    push_esc(&mut out, s);
    string_from_chars(out.as_slice())
}

/// What AppleScript reads from the body of a double-quoted string literal that
/// starts at `t[i]` (just after the opening quote): the characters denoted,
/// and the index just past the closing quote. `None` where the literal does
/// not close or holds an escape AppleScript rejects.
pub open spec fn read_literal(t: Seq<char>, i: int) -> Option<(Seq<char>, int)>
    decreases t.len() - i,
{
    if i < 0 || i >= t.len() {
        None
    } else if t[i] == '"' {
        Some((Seq::empty(), i + 1))
    } else if t[i] == '\\' {
        if i + 1 >= t.len() {
            None
        } else {
            let e = t[i + 1];
            let c = if e == '\\' {
                Some('\\')
            } else if e == '"' {
                Some('"')
            } else if e == 'n' {
                Some('\n')
            } else if e == 't' {
                Some('\t')
            } else if e == 'r' {
                Some('\r')
            } else {
                None
            };
            match c {
                None => None,
                Some(c) => match read_literal(t, i + 2) {
                    None => None,
                    Some((body, end)) => Some((seq![c] + body, end)),
                },
            }
        }
    } else {
        match read_literal(t, i + 1) {
            None => None,
            Some((body, end)) => Some((seq![t[i]] + body, end)),
        }
    }
}

proof fn lemma_esc_prepend(c: char, s: Seq<char>)
    ensures
        esc_spec(seq![c] + s) == esc_char(c) + esc_spec(s),
    decreases s.len(),
{
    if s.len() == 0 {
        assert((seq![c] + s).drop_last() =~= Seq::<char>::empty());
        assert(esc_spec(Seq::<char>::empty()) == Seq::<char>::empty());
        assert(esc_spec(seq![c] + s) =~= esc_char(c) + esc_spec(s));
    } else {
        lemma_esc_prepend(c, s.drop_last());
        assert((seq![c] + s).drop_last() =~= seq![c] + s.drop_last());
        assert((seq![c] + s).last() == s.last());
        assert(esc_spec(seq![c] + s) =~= esc_char(c) + esc_spec(s));
    }
}

/// Escaping is safe: AppleScript reads back exactly `s` from the literal
/// `"` + esc(s) + `"`, whatever follows the closing quote, and the literal
/// ends at that quote.
pub proof fn law_esc_reads_back(s: Seq<char>, rest: Seq<char>)
    ensures
        read_literal(esc_spec(s) + seq!['"'] + rest, 0) == Some(
            (s, esc_spec(s).len() + 1int),
        ),
    decreases s.len(),
{
    if s.len() == 0 {
        assert(esc_spec(s) + seq!['"'] + rest =~= seq!['"'] + rest);
    } else {
        let c = s[0];
        let tail = s.drop_first();
        assert(s =~= seq![c] + tail);
        lemma_esc_prepend(c, tail);
        law_esc_reads_back(tail, rest);
        let t = esc_spec(s) + seq!['"'] + rest;
        let u = esc_spec(tail) + seq!['"'] + rest;
        let k = esc_char(c).len() as int;
        assert(t =~= esc_char(c) + u);
        lemma_read_literal_shift(esc_char(c), u, 0);
        if c == '\\' || c == '"' {
            assert(read_literal(t, 0) == match read_literal(t, 2) {
                None => None,
                Some((body, end)) => Some((seq![c] + body, end)),
            });
        } else {
            assert(read_literal(t, 0) == match read_literal(t, 1) {
                None => None,
                Some((body, end)) => Some((seq![c] + body, end)),
            });
        }
        assert(seq![c] + tail =~= s);
    }
}

/// Reading past a prefix is reading the rest, with indices shifted.
proof fn lemma_read_literal_shift(p: Seq<char>, u: Seq<char>, j: int)
    requires
        0 <= j,
    ensures
        read_literal(p + u, p.len() + j) == match read_literal(u, j) {
            None => None,
            Some((body, end)) => Some((body, end + p.len())),
        },
    decreases u.len() - j,
{
    let t = p + u;
    let i = p.len() + j;
    if j < u.len() {
        assert(t[i] == u[j]);
        if u[j] == '\\' && j + 1 < u.len() {
            assert(t[i + 1] == u[j + 1]);
            lemma_read_literal_shift(p, u, j + 2);
        } else if u[j] != '"' && u[j] != '\\' {
            lemma_read_literal_shift(p, u, j + 1);
        }
    }
}

/// The Things 3 list a list filter names: the built-in lists by their
/// lower-case keys (no filter or an empty one meaning the Inbox); any other
/// text is taken as a list name as it stands.
pub open spec fn list_name_spec(f: Option<Seq<char>>) -> Seq<char> {
    match f {
        None => "Inbox"@,
        Some(s) => if s == "inbox"@ || s.len() == 0 {
            "Inbox"@
        } else if s == "today"@ {
            "Today"@
        } else if s == "upcoming"@ {
            "Upcoming"@
        } else if s == "anytime"@ {
            "Anytime"@
        } else if s == "someday"@ {
            "Someday"@
        } else if s == "logbook"@ {
            "Logbook"@
        } else if s == "trash"@ {
            "Trash"@
        } else {
            s
        },
    }
}

/// The characters of an optional string.
pub open spec fn opt_chars(o: Option<&str>) -> Option<Seq<char>> {
    match o {
        None => None,
        Some(s) => Some(s@),
    }
}

/// The Things 3 list name for a list filter.
pub fn list_name(list_filter: Option<&str>) -> (r: String)
    ensures
        r@ == list_name_spec(opt_chars(list_filter)),
{
    proof {
        reveal_strlit("");
        reveal_strlit("inbox");
        reveal_strlit("today");
        reveal_strlit("upcoming");
        reveal_strlit("anytime");
        reveal_strlit("someday");
        reveal_strlit("logbook");
        reveal_strlit("trash");
    }
    match list_filter {
        None => String::from_str("Inbox"),
        Some(s) => {
            if str_eq(s, "inbox") || str_eq(s, "") {
                String::from_str("Inbox")
            } else if str_eq(s, "today") {
                String::from_str("Today")
            } else if str_eq(s, "upcoming") {
                String::from_str("Upcoming")
            } else if str_eq(s, "anytime") {
                String::from_str("Anytime")
            } else if str_eq(s, "someday") {
                String::from_str("Someday")
            } else if str_eq(s, "logbook") {
                String::from_str("Logbook")
            } else if str_eq(s, "trash") {
                String::from_str("Trash")
            } else {
                proof {
                    if s@.len() == 0 {
                        assert(s@ =~= ""@);
                    }
                }
                String::from_str(s)
            }
        },
    }
}

/// `parts` joined with `sep` between consecutive parts, as `[T]::join` does.
pub open spec fn join(parts: Seq<Seq<char>>, sep: Seq<char>) -> Seq<char>
    decreases parts.len(),
{
    if parts.len() == 0 {
        Seq::empty()
    } else if parts.len() == 1 {
        parts[0]
    } else {
        join(parts.drop_last(), sep) + sep + parts.last()
    }
}

/// Appends `parts` joined with `sep` to `out`.
pub fn push_join(out: &mut Vec<char>, parts: &Vec<String>, sep: &str)
    ensures
        final(out)@ == old(out)@ + join(parts.deep_view(), sep@),
{
    let ghost ps = parts.deep_view();
    let mut i: usize = 0;
    assert(ps.take(0) =~= Seq::<Seq<char>>::empty());
    assert(old(out)@ + join(ps.take(0), sep@) =~= old(out)@);
    while i < parts.len()
        invariant
            i <= parts.len(),
            ps == parts.deep_view(),
            out@ == old(out)@ + join(ps.take(i as int), sep@),
        decreases parts.len() - i,
    {
        let ghost before = out@;
        if i > 0 {
            push_str(out, sep);
        }
        let v = chars_of(parts[i].as_str());
        push_chars(out, &v);
        i += 1;
        assert(ps.take(i as int).drop_last() =~= ps.take(i - 1));
        if i == 1 {
            assert(out@ =~= before + ps[0]);
        } else {
            assert(out@ =~= before + sep@ + ps[i - 1]);
        }
    }
    assert(ps.take(parts.len() as int) =~= ps);
}

/// How `Display` prints a `bool`.
pub open spec fn bool_text(b: bool) -> Seq<char> {
    if b {
        "true"@
    } else {
        "false"@
    }
}

/// Appends how `Display` prints `b`.
pub fn push_bool(out: &mut Vec<char>, b: bool)
    ensures
        final(out)@ == old(out)@ + bool_text(b),
{
    if b {
        push_str(out, "true");
    } else {
        push_str(out, "false");
    }
}

/// Each tag escaped, joined with `, ` (the form of a `tag names:` property).
pub open spec fn esc_join(tags: Seq<Seq<char>>) -> Seq<char> {
    join(tags.map_values(|t: Seq<char>| esc_spec(t)), ", "@)
}

/// Each tag escaped and quoted, joined with `, ` (the body of an AppleScript list).
pub open spec fn quoted_join(tags: Seq<Seq<char>>) -> Seq<char> {
    join(tags.map_values(|t: Seq<char>| "\""@ + esc_spec(t) + "\""@), ", "@)
}

/// The escaped tags, each optionally quoted.
fn escaped_tags(tags: &Vec<String>, quoted: bool) -> (r: Vec<String>)
    ensures
        quoted ==> r.deep_view() == tags.deep_view().map_values(|t: Seq<char>| "\""@ + esc_spec(t) + "\""@),
        !quoted ==> r.deep_view() == tags.deep_view().map_values(|t: Seq<char>| esc_spec(t)),
{
    let mut r: Vec<String> = Vec::new();
    let ghost ts = tags.deep_view();
    let mut i: usize = 0;
    while i < tags.len()
        invariant
            i <= tags.len(),
            ts == tags.deep_view(),
            quoted ==> r.deep_view() =~= ts.take(i as int).map_values(|t: Seq<char>| "\""@ + esc_spec(t) + "\""@),
            !quoted ==> r.deep_view() =~= ts.take(i as int).map_values(|t: Seq<char>| esc_spec(t)),
        decreases tags.len() - i,
    {
        let mut out: Vec<char> = Vec::new();
        if quoted {
            push_str(&mut out, "\"");
        }
        push_esc(&mut out, tags[i].as_str());
        if quoted {
            push_str(&mut out, "\"");
        }
        let item = string_from_chars(out.as_slice());
        let ghost before = r.deep_view();
        r.push(item);
        assert(r.deep_view() =~= before.push(item@));
        i += 1;
        assert(ts.take(i as int) =~= ts.take(i - 1).push(ts[i - 1]));
    }
    assert(ts.take(tags.len() as int) =~= ts);
    r
}

/// Appends the tags, escaped and joined with `, `.
pub fn push_esc_join(out: &mut Vec<char>, tags: &Vec<String>)
    ensures
        final(out)@ == old(out)@ + esc_join(tags.deep_view()),
{
    let e = escaped_tags(tags, false);
    push_join(out, &e, ", ");
}

/// Appends the tags, escaped, quoted and joined with `, `.
pub fn push_quoted_join(out: &mut Vec<char>, tags: &Vec<String>)
    ensures
        final(out)@ == old(out)@ + quoted_join(tags.deep_view()),
{
    let e = escaped_tags(tags, true);
    push_join(out, &e, ", ");
}

} // verus!
