//! The texts the terminal client shows: titles, labels, shortened strings,
//! and the messages for failed requests.

use vstd::prelude::*;
use crate::text::{chars_of, dec, push_chars, push_dec, push_str, string_from_chars};
use vstd::utf8::{encode_utf8, is_char_boundary};
use vstd::string::StringSliceAdditionalSpecFns;
use crate::tui::app::{find_area, find_project};
use crate::tui::model::ServerError;
use crate::tui::state::{
    App, DateChoice, Selection, SelectionV, SpecialList, areas_view, list_label, projects_view,
    tags_view,
};

verus! {

/// `s` cut to `n` characters, with an ellipsis added where it was cut.
pub open spec fn truncated(s: Seq<char>, n: nat) -> Seq<char> {
    if s.len() <= n {
        s
    } else {
        s.take(n as int).push('\u{2026}')
    }
}

/// `s` shortened to at most `n` characters and an ellipsis.
pub fn truncate(s: &str, n: usize) -> (r: String)
    ensures
        r@ == truncated(s@, n as nat),
{
    let v = chars_of(s);
    if v.len() <= n {
        return string_from_chars(v.as_slice());
    }
    let mut out: Vec<char> = Vec::new();
    let mut i: usize = 0;
    while i < n
        invariant
            i <= n < v.len(),
            out@ == v@.take(i as int),
        decreases n - i,
    {
        out.push(v[i]);
        i += 1;
        assert(out@ =~= v@.take(i as int));
    }
    out.push('\u{2026}');
    string_from_chars(out.as_slice())
}

/// The line of a schedule choice in the schedule dialog.
pub open spec fn choice_label(c: DateChoice) -> Seq<char> {
    match c {
        DateChoice::Today => "  Today"@,
        DateChoice::Tomorrow => "  Tomorrow"@,
        DateChoice::ThisWeekend => "  This Weekend (Saturday)"@,
        DateChoice::NextWeek => "  Next Week (Monday)"@,
        DateChoice::Anytime => "  Anytime"@,
        DateChoice::Someday => "  Someday"@,
        DateChoice::Specific => "  Specific date\u{2026}"@,
        DateChoice::Clear => "  Clear schedule"@,
    }
}

/// The line of a schedule choice.
pub fn label(c: DateChoice) -> (r: &'static str)
    ensures
        r@ == choice_label(c),
{
    match c {
        DateChoice::Today => "  Today",
        DateChoice::Tomorrow => "  Tomorrow",
        DateChoice::ThisWeekend => "  This Weekend (Saturday)",
        DateChoice::NextWeek => "  Next Week (Monday)",
        DateChoice::Anytime => "  Anytime",
        DateChoice::Someday => "  Someday",
        DateChoice::Specific => "  Specific date\u{2026}",
        DateChoice::Clear => "  Clear schedule",
    }
}

/// The icon shown before a built-in list.
pub open spec fn icon_of(l: SpecialList) -> Seq<char> {
    match l {
        SpecialList::Inbox => "\u{1F4E5}"@,
        SpecialList::Today => "\u{2B50}"@,
        SpecialList::Upcoming => "\u{1F4C5}"@,
        SpecialList::Anytime => "\u{1F5C2}"@,
        SpecialList::Someday => "\u{1F4AD}"@,
        SpecialList::Logbook => "\u{1F4DA}"@,
        SpecialList::Trash => "\u{1F5D1}"@,
    }
}

/// The icon of a built-in list.
pub fn list_icon(l: SpecialList) -> (r: &'static str)
    ensures
        r@ == icon_of(l),
{
    match l {
        SpecialList::Inbox => "\u{1F4E5}",
        SpecialList::Today => "\u{2B50}",
        SpecialList::Upcoming => "\u{1F4C5}",
        SpecialList::Anytime => "\u{1F5C2}",
        SpecialList::Someday => "\u{1F4AD}",
        SpecialList::Logbook => "\u{1F4DA}",
        SpecialList::Trash => "\u{1F5D1}",
    }
}

/// The first tag with id `id`.
pub open spec fn find_tag(tags: Seq<(Seq<char>, Seq<char>)>, id: Seq<char>) -> Option<(Seq<char>, Seq<char>)>
    decreases tags.len(),
{
    if tags.len() == 0 {
        None
    } else if tags[0].0 == id {
        Some(tags[0])
    } else {
        find_tag(tags.drop_first(), id)
    }
}

/// The title of the task pane: the list's name, the area's or project's
/// title, the tag's name after `#`; "Area", "Project" or "Tag" when it is
/// not among those loaded.
pub open spec fn title_of(s: crate::tui::state::AppV) -> Seq<char> {
    match s.selection {
        SelectionV::List(l) => list_label(l),
        SelectionV::Area(id) => match find_area(s.areas, id) {
            Some(a) => a.1,
            None => "Area"@,
        },
        SelectionV::Project(id) => match find_project(s.projects, id) {
            Some(p) => p.title,
            None => "Project"@,
        },
        SelectionV::Tag(id) => match find_tag(s.tags, id) {
            Some(t) => "#"@ + t.1,
            None => "Tag"@,
        },
    }
}

/// The title of the task pane (see [`title_of`]).
pub fn list_title(app: &App) -> (r: String)
    ensures
        r@ == title_of(app@),
{
    match &app.selection {
        Selection::List(l) => String::from_str(l.label()),
        Selection::Area(id) => {
            let ghost av = areas_view(app.areas@);
            let mut i: usize = 0;
            assert(av.subrange(0, av.len() as int) =~= av);
            while i < app.areas.len()
                invariant
                    i <= app.areas.len(),
                    av == areas_view(app.areas@),
                    app@.selection == SelectionV::Area(id@),
                    find_area(av, id@) == find_area(av.subrange(i as int, av.len() as int), id@),
                decreases app.areas.len() - i,
            {
                assert(av.subrange(i as int, av.len() as int).drop_first() =~= av.subrange(i + 1, av.len() as int));
                assert(av.subrange(i as int, av.len() as int)[0] == app.areas@[i as int]@);
                if app.areas[i].id == *id {
                    return app.areas[i].title.clone();
                }
                i += 1;
            }
            String::from_str("Area")
        },
        Selection::Project(id) => {
            let ghost pv = projects_view(app.projects@);
            let mut i: usize = 0;
            assert(pv.subrange(0, pv.len() as int) =~= pv);
            while i < app.projects.len()
                invariant
                    i <= app.projects.len(),
                    pv == projects_view(app.projects@),
                    app@.selection == SelectionV::Project(id@),
                    find_project(pv, id@) == find_project(pv.subrange(i as int, pv.len() as int), id@),
                decreases app.projects.len() - i,
            {
                assert(pv.subrange(i as int, pv.len() as int).drop_first() =~= pv.subrange(i + 1, pv.len() as int));
                assert(pv.subrange(i as int, pv.len() as int)[0] == app.projects@[i as int]@);
                if app.projects[i].id == *id {
                    return app.projects[i].title.clone();
                }
                i += 1;
            }
            String::from_str("Project")
        },
        Selection::Tag(id) => {
            let ghost tv = tags_view(app.tags@);
            let mut i: usize = 0;
            assert(tv.subrange(0, tv.len() as int) =~= tv);
            while i < app.tags.len()
                invariant
                    i <= app.tags.len(),
                    tv == tags_view(app.tags@),
                    app@.selection == SelectionV::Tag(id@),
                    find_tag(tv, id@) == find_tag(tv.subrange(i as int, tv.len() as int), id@),
                decreases app.tags.len() - i,
            {
                assert(tv.subrange(i as int, tv.len() as int).drop_first() =~= tv.subrange(i + 1, tv.len() as int));
                assert(tv.subrange(i as int, tv.len() as int)[0] == app.tags@[i as int]@);
                if app.tags[i].id == *id {
                    let mut out: Vec<char> = Vec::new();
                    push_str(&mut out, "#");
                    push_str(&mut out, app.tags[i].name.as_str());
                    return string_from_chars(out.as_slice());
                }
                i += 1;
            }
            String::from_str("Tag")
        },
    }
}

/// The probe result line of the setup dialog.
pub open spec fn status_text(ok: bool, url: Seq<char>) -> Seq<char> {
    if ok {
        "reachable @ "@ + url
    } else {
        "not reachable @ "@ + url
    }
}

/// "reachable @ URL" or "not reachable @ URL".
pub fn status_label(ok: bool, url: &str) -> (r: String)
    ensures
        r@ == status_text(ok, url@),
{
    let mut out: Vec<char> = Vec::new();
    if ok {
        push_str(&mut out, "reachable @ ");
    } else {
        push_str(&mut out, "not reachable @ ");
    }
    push_str(&mut out, url);
    string_from_chars(out.as_slice())
}

/// The message for a failed request with HTTP status `status` and response
/// `body`: the status and the server's error text when the body is the
/// server's error record, else the status and the body, else "HTTP" and the
/// status.
pub open spec fn error_text(status: u16, body: Seq<char>, server_error: Option<Seq<char>>) -> Seq<char> {
    match server_error {
        Some(e) => dec(status as nat) + ": "@ + e,
        None => if body.len() > 0 {
            dec(status as nat) + ": "@ + body
        } else {
            "HTTP "@ + dec(status as nat)
        },
    }
}

/// The message for a failed request; `server_error` is the body read as the
/// server's error record, where it is one.
pub fn error_message(status: u16, body: &str, server_error: Option<&ServerError>) -> (r: String)
    ensures
        r@ == error_text(
            status,
            body@,
            match server_error {
                Some(e) => Some(e.error@),
                None => None,
            },
        ),
{
    let mut out: Vec<char> = Vec::new();
    match server_error {
        Some(e) => {
            push_dec(&mut out, status as u64);
            push_str(&mut out, ": ");
            push_str(&mut out, e.error.as_str());
        },
        None => {
            if !body.is_empty() {
                push_dec(&mut out, status as u64);
                push_str(&mut out, ": ");
                push_str(&mut out, body);
            } else {
                push_str(&mut out, "HTTP ");
                push_dec(&mut out, status as u64);
            }
        },
    }
    string_from_chars(out.as_slice())
}

/// Whether a date text looks like "YYYY-MM-DD...": ten bytes or more, with
/// a hyphen as its fifth character.
pub open spec fn dated(d: Seq<char>) -> bool {
    encode_utf8(d).len() >= 10 && d.len() > 4 && d[4] == '-'
}

/// A date as the task list shows it: the first ten bytes of one that looks
/// like "YYYY-MM-DD...", else the text as it is. Stated over the UTF-8
/// bytes, which fix the characters.
pub fn short_date(d: &str) -> (r: String)
    requires
        encode_utf8(d@).len() <= usize::MAX,
        dated(d@) ==> is_char_boundary(encode_utf8(d@), 10),
    ensures
        encode_utf8(r@) == (if dated(d@) {
            encode_utf8(d@).subrange(0, 10)
        } else {
            encode_utf8(d@)
        }),
{
    let v = chars_of(d);
    assert(d.spec_bytes() == encode_utf8(d@));
    if d.len() >= 10 && v.len() > 4 && v[4] == '-' {
        assert(d.spec_bytes() == encode_utf8(d@));
        let (head, _) = d.split_at(10);
        let r = String::from_str(head);
        assert(head.spec_bytes() == encode_utf8(head@));
        assert(encode_utf8(r@) == encode_utf8(d@).subrange(0, 10));
        r
    } else {
        String::from_str(d)
    }
}

/// No month name holds a space.
proof fn lemma_month_no_space(m: int, i: int)
    requires
        1 <= m <= 12,
        0 <= i < crate::tui::dates::month_text(m).len(),
    ensures
        crate::tui::dates::month_text(m)[i] != ' ',
{
    reveal_strlit("January");
    reveal_strlit("February");
    reveal_strlit("March");
    reveal_strlit("April");
    reveal_strlit("May");
    reveal_strlit("June");
    reveal_strlit("July");
    reveal_strlit("August");
    reveal_strlit("September");
    reveal_strlit("October");
    reveal_strlit("November");
    reveal_strlit("December");
}

/// The month name is followed by a space, and is the text up to it.
proof fn lemma_name_then_space(a: Seq<char>, d: Seq<char>, e: Seq<char>, f: Seq<char>)
    ensures
        (a + " "@ + d + e + f)[a.len() as int] == ' ',
        (a + " "@ + d + e + f).subrange(0, a.len() as int) == a,
{
    reveal_strlit(" ");
    let t = a + " "@ + d + e + f;
    assert(t[a.len() as int] == (a + " "@)[a.len() as int]);
    assert(t.subrange(0, a.len() as int) =~= a);
}

/// A date's text names its month: two dates written alike are in the same
/// month.
pub proof fn law_date_text_month(y1: int, m1: int, d1: int, y2: int, m2: int, d2: int)
    requires
        1 <= m1 <= 12,
        1 <= m2 <= 12,
        crate::tui::dates::date_text(y1, m1, d1) == crate::tui::dates::date_text(y2, m2, d2),
    ensures
        m1 == m2,
{
    let a = crate::tui::dates::month_text(m1);
    let b = crate::tui::dates::month_text(m2);
    let t = crate::tui::dates::date_text(y1, m1, d1);
    lemma_name_then_space(a, dec(d1 as nat), ", "@, crate::text::dec_int(y1));
    lemma_name_then_space(b, dec(d2 as nat), ", "@, crate::text::dec_int(y2));
    if a.len() < b.len() {
        lemma_month_no_space(m2, a.len() as int);
        assert(t.subrange(0, b.len() as int)[a.len() as int] == t[a.len() as int]);
    } else if b.len() < a.len() {
        lemma_month_no_space(m1, b.len() as int);
        assert(t.subrange(0, a.len() as int)[b.len() as int] == t[b.len() as int]);
    } else if m1 != m2 {
        crate::tui::dates::lemma_month_names_differ(m1, m2);
    }
}

} // verus!
