//! Readers for what the Things 3 scripts print.
//!
//! Scripts print one record per line-group: records are separated by `␟`
//! (U+241F) and the fields of a record by `␞` (U+241E).

use vstd::prelude::*;
use crate::models::{
    AppInfo, AppInfoV, Area, AreaV, Contact, ListInfo, Project, ProjectV, Tag, TagV, Task, TaskV,
    WindowInfo,
};
use crate::text::{
    chars_of, int_error_message, int_error_text, parse_i64_range, parse_i64_spec,
    parse_usize_range, parse_usize_spec, pieces, push_chars, push_str, range_eq,
    split, splitn, splitn_ranges, string_from_chars, substring, trim, trim_range, IntError,
    lemma_splitn_len,
};

verus! {

/// Field separator in script output.
pub open spec fn field_sep() -> char {
    '\u{241E}'
}

/// Record separator in script output.
pub open spec fn record_sep() -> char {
    '\u{241F}'
}

/// An optional field: `None` for blank text and for AppleScript's `missing value`,
/// otherwise the trimmed text.
pub open spec fn opt_field(s: Seq<char>) -> Option<Seq<char>> {
    let t = trim(s);
    if t.len() == 0 || t == "missing value"@ {
        None
    } else {
        Some(t)
    }
}

/// A flag field: true exactly when the trimmed text is `true`.
pub open spec fn flag_field(s: Seq<char>) -> bool {
    trim(s) == "true"@
}

/// A comma-separated name list: empty for empty text, otherwise each piece trimmed.
pub open spec fn name_list(s: Seq<char>) -> Seq<Seq<char>> {
    if s.len() == 0 {
        Seq::empty()
    } else {
        split(s, ',').map_values(|p: Seq<char>| trim(p))
    }
}

fn opt_field_range(v: &Vec<char>, lo: usize, hi: usize) -> (r: Option<String>)
    requires
        lo <= hi <= v.len(),
    ensures
        r.deep_view() == opt_field(v@.subrange(lo as int, hi as int)),
{
    let (a, b) = trim_range(v, lo, hi);
    if a == b || range_eq(v, a, b, "missing value") {
        None
    } else {
        Some(substring(v, a, b))
    }
}

/// Parse `missing value` returns from AppleScript into `Option<String>`.
pub fn parse_optional(s: &str) -> (r: Option<String>)
    ensures
        r.deep_view() == opt_field(s@),
{
    let v = chars_of(s);
    assert(v@.subrange(0, v@.len() as int) =~= v@);
    opt_field_range(&v, 0, v.len())
}

fn flag_range(v: &Vec<char>, lo: usize, hi: usize) -> (b: bool)
    requires
        lo <= hi <= v.len(),
    ensures
        b == flag_field(v@.subrange(lo as int, hi as int)),
{
    let (a, c) = trim_range(v, lo, hi);
    range_eq(v, a, c, "true")
}

fn name_list_range(v: &Vec<char>, lo: usize, hi: usize) -> (r: Vec<String>)
    requires
        lo <= hi <= v.len(),
    ensures
        r.deep_view() == name_list(v@.subrange(lo as int, hi as int)),
{
    let mut out: Vec<String> = Vec::new();
    if lo == hi {
        assert(out.deep_view() =~= name_list(v@.subrange(lo as int, hi as int)));
        return out;
    }
    let rs = splitn_ranges(v, lo, hi, usize::MAX, ',');
    let ghost ps = split(v@.subrange(lo as int, hi as int), ',');
    assert(pieces(v@, rs@) == ps);
    let mut i: usize = 0;
    while i < rs.len()
        invariant
            i <= rs@.len(),
            lo <= hi <= v.len(),
            pieces(v@, rs@) == ps,
            forall|k: int| 0 <= k < rs@.len() ==> lo <= #[trigger] rs@[k].0 <= rs@[k].1 <= hi,
            out.deep_view() =~= ps.take(i as int).map_values(|p: Seq<char>| trim(p)),
        decreases rs.len() - i,
    {
        let (a, b) = rs[i];
        assert(ps[i as int] == v@.subrange(a as int, b as int));
        let (c, d) = trim_range(v, a, b);
        let piece = substring(v, c, d);
        let ghost old_dv = out.deep_view();
        out.push(piece);
        assert(out.deep_view() =~= old_dv.push(piece@));
        assert(ps.take(i + 1).map_values(|p: Seq<char>| trim(p)) =~= ps.take(i as int).map_values(
            |p: Seq<char>| trim(p),
        ).push(trim(ps[i as int])));
        i += 1;
    }
    assert(ps.take(rs@.len() as int) =~= ps);
    out
}

/// The record fields of a task line, in order: id, title, notes, due date,
/// activation date, project, area, contact, tags, completed, canceled,
/// creation, modification, completion and cancellation dates.
pub open spec fn task_from_fields(p: Seq<Seq<char>>) -> TaskV {
    TaskV {
        id: p[0],
        title: p[1],
        notes: opt_field(p[2]),
        due_date: opt_field(p[3]),
        activation_date: opt_field(p[4]),
        list: None,
        project: opt_field(p[5]),
        area: opt_field(p[6]),
        contact: opt_field(p[7]),
        tags: name_list(p[8]),
        checklist_items: Seq::empty(),
        completed: flag_field(p[9]),
        canceled: flag_field(p[10]),
        creation_date: opt_field(p[11]),
        modification_date: opt_field(p[12]),
        completion_date: opt_field(p[13]),
        cancellation_date: opt_field(p[14]),
    }
}

/// A task record: fifteen `␞`-separated fields (the last keeps any further separators).
pub open spec fn task_line(line: Seq<char>) -> Result<TaskV, Seq<char>> {
    let p = splitn(line, 15, field_sep());
    if p.len() < 15 {
        Err("Unexpected task format: "@ + line)
    } else {
        Ok(task_from_fields(p))
    }
}

/// A task record printed as its fifteen fields separated by `␞` (only the
/// last field may hold `␞` itself) is read as exactly those fields.
pub proof fn law_task_line_reads_fields(fields: Seq<Seq<char>>)
    requires
        fields.len() == 15,
        forall|i: int| 0 <= i < 14 ==> !(#[trigger] fields[i]).contains(field_sep()),
    ensures
        task_line(crate::script::join(fields, seq![field_sep()])) == Ok::<TaskV, Seq<char>>(task_from_fields(fields)),
{
    crate::text::law_split_joined(fields, 15, field_sep());
}

/// Each field of a to-do read from a record is the field the record script
/// printed from the variable of that name (see
/// [`crate::commands::task_record_vars`]): the area from `tarea`, the contact
/// from `tcontact`, and so on; optional ones are `None` when blank or
/// `missing value`, flags true when `true`.
pub proof fn law_task_fields_by_name(fields: Seq<Seq<char>>)
    requires
        fields.len() == 15,
        forall|i: int| 0 <= i < 14 ==> !(#[trigger] fields[i]).contains(field_sep()),
    ensures
        task_line(crate::script::join(fields, seq![field_sep()])) == Ok::<TaskV, Seq<char>>(task_from_fields(fields)),
        task_from_fields(fields).list is None,
        exists|i: int| 0 <= i < 15 && #[trigger] crate::commands::task_record_vars()[i] == "tid"@ && task_from_fields(fields).id == fields[i],
        exists|i: int| 0 <= i < 15 && #[trigger] crate::commands::task_record_vars()[i] == "ttitle"@ && task_from_fields(fields).title == fields[i],
        exists|i: int| 0 <= i < 15 && #[trigger] crate::commands::task_record_vars()[i] == "tnotes"@ && task_from_fields(fields).notes == opt_field(fields[i]),
        exists|i: int| 0 <= i < 15 && #[trigger] crate::commands::task_record_vars()[i] == "tdue"@ && task_from_fields(fields).due_date == opt_field(fields[i]),
        exists|i: int| 0 <= i < 15 && #[trigger] crate::commands::task_record_vars()[i] == "tactivation"@ && task_from_fields(fields).activation_date == opt_field(fields[i]),
        exists|i: int| 0 <= i < 15 && #[trigger] crate::commands::task_record_vars()[i] == "tproject"@ && task_from_fields(fields).project == opt_field(fields[i]),
        exists|i: int| 0 <= i < 15 && #[trigger] crate::commands::task_record_vars()[i] == "tarea"@ && task_from_fields(fields).area == opt_field(fields[i]),
        exists|i: int| 0 <= i < 15 && #[trigger] crate::commands::task_record_vars()[i] == "tcontact"@ && task_from_fields(fields).contact == opt_field(fields[i]),
        exists|i: int| 0 <= i < 15 && #[trigger] crate::commands::task_record_vars()[i] == "ttags"@ && task_from_fields(fields).tags == name_list(fields[i]),
        exists|i: int| 0 <= i < 15 && #[trigger] crate::commands::task_record_vars()[i] == "tcompleted"@ && task_from_fields(fields).completed == flag_field(fields[i]),
        exists|i: int| 0 <= i < 15 && #[trigger] crate::commands::task_record_vars()[i] == "tcanceled"@ && task_from_fields(fields).canceled == flag_field(fields[i]),
        exists|i: int| 0 <= i < 15 && #[trigger] crate::commands::task_record_vars()[i] == "tcreation"@ && task_from_fields(fields).creation_date == opt_field(fields[i]),
        exists|i: int| 0 <= i < 15 && #[trigger] crate::commands::task_record_vars()[i] == "tmodification"@ && task_from_fields(fields).modification_date == opt_field(fields[i]),
        exists|i: int| 0 <= i < 15 && #[trigger] crate::commands::task_record_vars()[i] == "tcompletion"@ && task_from_fields(fields).completion_date == opt_field(fields[i]),
        exists|i: int| 0 <= i < 15 && #[trigger] crate::commands::task_record_vars()[i] == "tcancellation"@ && task_from_fields(fields).cancellation_date == opt_field(fields[i]),
{
    law_task_line_reads_fields(fields);
    assert(crate::commands::task_record_vars()[0] == "tid"@);
    assert(crate::commands::task_record_vars()[1] == "ttitle"@);
    assert(crate::commands::task_record_vars()[2] == "tnotes"@);
    assert(crate::commands::task_record_vars()[3] == "tdue"@);
    assert(crate::commands::task_record_vars()[4] == "tactivation"@);
    assert(crate::commands::task_record_vars()[5] == "tproject"@);
    assert(crate::commands::task_record_vars()[6] == "tarea"@);
    assert(crate::commands::task_record_vars()[7] == "tcontact"@);
    assert(crate::commands::task_record_vars()[8] == "ttags"@);
    assert(crate::commands::task_record_vars()[9] == "tcompleted"@);
    assert(crate::commands::task_record_vars()[10] == "tcanceled"@);
    assert(crate::commands::task_record_vars()[11] == "tcreation"@);
    assert(crate::commands::task_record_vars()[12] == "tmodification"@);
    assert(crate::commands::task_record_vars()[13] == "tcompletion"@);
    assert(crate::commands::task_record_vars()[14] == "tcancellation"@);
}

/// Records printed one after another with `␟` between them (none holding
/// `␟`) are read back as the records that are not blank, in order.
pub proof fn law_records_read_back(recs: Seq<Seq<char>>)
    requires
        1 <= recs.len() <= usize::MAX,
        forall|i: int| 0 <= i < recs.len() ==> !(#[trigger] recs[i]).contains(record_sep()),
    ensures
        records(crate::script::join(recs, seq![record_sep()])) == nonblank(recs),
{
    crate::text::law_split_joined(recs, usize::MAX as nat, record_sep());
}

fn message_with_range(prefix: &str, v: &Vec<char>, lo: usize, hi: usize) -> (s: String)
    requires
        lo <= hi <= v.len(),
    ensures
        s@ == prefix@ + v@.subrange(lo as int, hi as int),
{
    let mut out: Vec<char> = Vec::new();
    push_str(&mut out, prefix);
    let mut i = lo;
    while i < hi
        invariant
            lo <= i <= hi <= v.len(),
            out@ == prefix@ + v@.subrange(lo as int, i as int),
        decreases hi - i,
    {
        out.push(v[i]);
        i += 1;
        assert(out@ =~= prefix@ + v@.subrange(lo as int, i as int));
    }
    string_from_chars(out.as_slice())
}

/// Bounds of the first `n` fields of `v[lo..hi]`, or `None` when there are fewer.
fn fields(v: &Vec<char>, lo: usize, hi: usize, n: usize) -> (r: Option<Vec<(usize, usize)>>)
    requires
        lo <= hi <= v.len(),
        n >= 1,
    ensures
        match r {
            None => splitn(v@.subrange(lo as int, hi as int), n as nat, field_sep()).len() < n,
            Some(rs) => {
                &&& rs@.len() == n
                &&& splitn(v@.subrange(lo as int, hi as int), n as nat, field_sep()) == pieces(v@, rs@)
                &&& forall|k: int| 0 <= k < n ==> lo <= #[trigger] rs@[k].0 <= rs@[k].1 <= hi
            },
        },
{
    let rs = splitn_ranges(v, lo, hi, n, '\u{241E}');
    proof {
        lemma_splitn_len(v@.subrange(lo as int, hi as int), n as nat, field_sep());
    }
    if rs.len() < n {
        None
    } else {
        Some(rs)
    }
}

fn task_from_range(v: &Vec<char>, lo: usize, hi: usize) -> (r: Result<Task, String>)
    requires
        lo <= hi <= v.len(),
    ensures
        match r {
            Ok(t) => task_line(v@.subrange(lo as int, hi as int)) == Ok::<TaskV, Seq<char>>(t@),
            Err(e) => task_line(v@.subrange(lo as int, hi as int)) == Err::<TaskV, Seq<char>>(e@),
        },
{
    let rs = match fields(v, lo, hi, 15) {
        None => return Err(message_with_range("Unexpected task format: ", v, lo, hi)),
        Some(rs) => rs,
    };
    let ghost p = splitn(v@.subrange(lo as int, hi as int), 15, field_sep());
    proof {
        assert forall|k: int| 0 <= k < 15 implies p[k] == v@.subrange(#[trigger] rs@[k].0 as int, rs@[k].1 as int) by {
            assert(pieces(v@, rs@)[k] == p[k]);
        }
    }
    let t = Task {
        id: substring(v, rs[0].0, rs[0].1),
        title: substring(v, rs[1].0, rs[1].1),
        notes: opt_field_range(v, rs[2].0, rs[2].1),
        due_date: opt_field_range(v, rs[3].0, rs[3].1),
        activation_date: opt_field_range(v, rs[4].0, rs[4].1),
        list: None,
        project: opt_field_range(v, rs[5].0, rs[5].1),
        area: opt_field_range(v, rs[6].0, rs[6].1),
        contact: opt_field_range(v, rs[7].0, rs[7].1),
        tags: name_list_range(v, rs[8].0, rs[8].1),
        checklist_items: Vec::new(),
        completed: flag_range(v, rs[9].0, rs[9].1),
        canceled: flag_range(v, rs[10].0, rs[10].1),
        creation_date: opt_field_range(v, rs[11].0, rs[11].1),
        modification_date: opt_field_range(v, rs[12].0, rs[12].1),
        completion_date: opt_field_range(v, rs[13].0, rs[13].1),
        cancellation_date: opt_field_range(v, rs[14].0, rs[14].1),
    };
    assert(t@.checklist_items =~= Seq::<(Seq<char>, bool)>::empty());
    assert(t@ == task_from_fields(p));
    Ok(t)
}

/// Parses one task record.
pub fn parse_task_line(line: &str) -> (r: Result<Task, String>)
    ensures
        match r {
            Ok(t) => task_line(line@) == Ok::<TaskV, Seq<char>>(t@),
            Err(e) => task_line(line@) == Err::<TaskV, Seq<char>>(e@),
        },
{
    let v = chars_of(line);
    assert(v@.subrange(0, v@.len() as int) =~= v@);
    task_from_range(&v, 0, v.len())
}

/// The record fields of a project line, in order: id, title, notes, due date,
/// activation date, area, tags, completed, canceled, creation, modification,
/// completion and cancellation dates.
pub open spec fn project_from_fields(p: Seq<Seq<char>>) -> ProjectV {
    ProjectV {
        id: p[0],
        title: p[1],
        notes: opt_field(p[2]),
        due_date: opt_field(p[3]),
        activation_date: opt_field(p[4]),
        area: opt_field(p[5]),
        tags: name_list(p[6]),
        completed: flag_field(p[7]),
        canceled: flag_field(p[8]),
        creation_date: opt_field(p[9]),
        modification_date: opt_field(p[10]),
        completion_date: opt_field(p[11]),
        cancellation_date: opt_field(p[12]),
    }
}

/// A project record: thirteen `␞`-separated fields.
pub open spec fn project_line(line: Seq<char>) -> Result<ProjectV, Seq<char>> {
    let p = splitn(line, 13, field_sep());
    if p.len() < 13 {
        Err("Unexpected project format: "@ + line)
    } else {
        Ok(project_from_fields(p))
    }
}

/// A project record printed as its thirteen fields separated by `␞` (only
/// the last may hold `␞`) is read field by field from the variables of the
/// same names (see [`crate::commands::project_record_vars`]).
pub proof fn law_project_fields_by_name(fields: Seq<Seq<char>>)
    requires
        fields.len() == 13,
        forall|i: int| 0 <= i < 12 ==> !(#[trigger] fields[i]).contains(field_sep()),
    ensures
        project_line(crate::script::join(fields, seq![field_sep()])) == Ok::<ProjectV, Seq<char>>(project_from_fields(fields)),
        exists|i: int| 0 <= i < 13 && #[trigger] crate::commands::project_record_vars()[i] == "pid"@ && project_from_fields(fields).id == fields[i],
        exists|i: int| 0 <= i < 13 && #[trigger] crate::commands::project_record_vars()[i] == "ptitle"@ && project_from_fields(fields).title == fields[i],
        exists|i: int| 0 <= i < 13 && #[trigger] crate::commands::project_record_vars()[i] == "pnotes"@ && project_from_fields(fields).notes == opt_field(fields[i]),
        exists|i: int| 0 <= i < 13 && #[trigger] crate::commands::project_record_vars()[i] == "pdue"@ && project_from_fields(fields).due_date == opt_field(fields[i]),
        exists|i: int| 0 <= i < 13 && #[trigger] crate::commands::project_record_vars()[i] == "pactivation"@ && project_from_fields(fields).activation_date == opt_field(fields[i]),
        exists|i: int| 0 <= i < 13 && #[trigger] crate::commands::project_record_vars()[i] == "parea"@ && project_from_fields(fields).area == opt_field(fields[i]),
        exists|i: int| 0 <= i < 13 && #[trigger] crate::commands::project_record_vars()[i] == "ptags"@ && project_from_fields(fields).tags == name_list(fields[i]),
        exists|i: int| 0 <= i < 13 && #[trigger] crate::commands::project_record_vars()[i] == "pcompleted"@ && project_from_fields(fields).completed == flag_field(fields[i]),
        exists|i: int| 0 <= i < 13 && #[trigger] crate::commands::project_record_vars()[i] == "pcanceled"@ && project_from_fields(fields).canceled == flag_field(fields[i]),
        exists|i: int| 0 <= i < 13 && #[trigger] crate::commands::project_record_vars()[i] == "pcreation"@ && project_from_fields(fields).creation_date == opt_field(fields[i]),
        exists|i: int| 0 <= i < 13 && #[trigger] crate::commands::project_record_vars()[i] == "pmodification"@ && project_from_fields(fields).modification_date == opt_field(fields[i]),
        exists|i: int| 0 <= i < 13 && #[trigger] crate::commands::project_record_vars()[i] == "pcompletion"@ && project_from_fields(fields).completion_date == opt_field(fields[i]),
        exists|i: int| 0 <= i < 13 && #[trigger] crate::commands::project_record_vars()[i] == "pcancellation"@ && project_from_fields(fields).cancellation_date == opt_field(fields[i]),
{
    crate::text::law_split_joined(fields, 13, field_sep());
    assert(crate::commands::project_record_vars()[0] == "pid"@);
    assert(crate::commands::project_record_vars()[1] == "ptitle"@);
    assert(crate::commands::project_record_vars()[2] == "pnotes"@);
    assert(crate::commands::project_record_vars()[3] == "pdue"@);
    assert(crate::commands::project_record_vars()[4] == "pactivation"@);
    assert(crate::commands::project_record_vars()[5] == "parea"@);
    assert(crate::commands::project_record_vars()[6] == "ptags"@);
    assert(crate::commands::project_record_vars()[7] == "pcompleted"@);
    assert(crate::commands::project_record_vars()[8] == "pcanceled"@);
    assert(crate::commands::project_record_vars()[9] == "pcreation"@);
    assert(crate::commands::project_record_vars()[10] == "pmodification"@);
    assert(crate::commands::project_record_vars()[11] == "pcompletion"@);
    assert(crate::commands::project_record_vars()[12] == "pcancellation"@);
}

fn project_from_range(v: &Vec<char>, lo: usize, hi: usize) -> (r: Result<Project, String>)
    requires
        lo <= hi <= v.len(),
    ensures
        match r {
            Ok(t) => project_line(v@.subrange(lo as int, hi as int)) == Ok::<ProjectV, Seq<char>>(t@),
            Err(e) => project_line(v@.subrange(lo as int, hi as int)) == Err::<ProjectV, Seq<char>>(e@),
        },
{
    let rs = match fields(v, lo, hi, 13) {
        None => return Err(message_with_range("Unexpected project format: ", v, lo, hi)),
        Some(rs) => rs,
    };
    let ghost p = splitn(v@.subrange(lo as int, hi as int), 13, field_sep());
    proof {
        assert forall|k: int| 0 <= k < 13 implies p[k] == v@.subrange(#[trigger] rs@[k].0 as int, rs@[k].1 as int) by {
            assert(pieces(v@, rs@)[k] == p[k]);
        }
    }
    let t = Project {
        id: substring(v, rs[0].0, rs[0].1),
        title: substring(v, rs[1].0, rs[1].1),
        notes: opt_field_range(v, rs[2].0, rs[2].1),
        due_date: opt_field_range(v, rs[3].0, rs[3].1),
        activation_date: opt_field_range(v, rs[4].0, rs[4].1),
        area: opt_field_range(v, rs[5].0, rs[5].1),
        tags: name_list_range(v, rs[6].0, rs[6].1),
        completed: flag_range(v, rs[7].0, rs[7].1),
        canceled: flag_range(v, rs[8].0, rs[8].1),
        creation_date: opt_field_range(v, rs[9].0, rs[9].1),
        modification_date: opt_field_range(v, rs[10].0, rs[10].1),
        completion_date: opt_field_range(v, rs[11].0, rs[11].1),
        cancellation_date: opt_field_range(v, rs[12].0, rs[12].1),
    };
    assert(t@ == project_from_fields(p));
    Ok(t)
}

/// Parses one project record.
pub fn parse_project_line(line: &str) -> (r: Result<Project, String>)
    ensures
        match r {
            Ok(t) => project_line(line@) == Ok::<ProjectV, Seq<char>>(t@),
            Err(e) => project_line(line@) == Err::<ProjectV, Seq<char>>(e@),
        },
{
    let v = chars_of(line);
    assert(v@.subrange(0, v@.len() as int) =~= v@);
    project_from_range(&v, 0, v.len())
}

/// An area record: id, title, collapsed flag and tag names.
pub open spec fn area_line(line: Seq<char>) -> Result<AreaV, Seq<char>> {
    let p = splitn(line, 4, field_sep());
    if p.len() < 4 {
        Err("Unexpected area format: "@ + line)
    } else {
        Ok(AreaV { id: p[0], title: p[1], collapsed: flag_field(p[2]), tags: name_list(p[3]) })
    }
}

fn area_from_range(v: &Vec<char>, lo: usize, hi: usize) -> (r: Result<Area, String>)
    requires
        lo <= hi <= v.len(),
    ensures
        match r {
            Ok(t) => area_line(v@.subrange(lo as int, hi as int)) == Ok::<AreaV, Seq<char>>(t@),
            Err(e) => area_line(v@.subrange(lo as int, hi as int)) == Err::<AreaV, Seq<char>>(e@),
        },
{
    let rs = match fields(v, lo, hi, 4) {
        None => return Err(message_with_range("Unexpected area format: ", v, lo, hi)),
        Some(rs) => rs,
    };
    let ghost p = splitn(v@.subrange(lo as int, hi as int), 4, field_sep());
    proof {
        assert forall|k: int| 0 <= k < 4 implies p[k] == v@.subrange(#[trigger] rs@[k].0 as int, rs@[k].1 as int) by {
            assert(pieces(v@, rs@)[k] == p[k]);
        }
    }
    Ok(Area {
        id: substring(v, rs[0].0, rs[0].1),
        title: substring(v, rs[1].0, rs[1].1),
        collapsed: flag_range(v, rs[2].0, rs[2].1),
        tags: name_list_range(v, rs[3].0, rs[3].1),
    })
}

/// Parses one area record.
pub fn parse_area_line(line: &str) -> (r: Result<Area, String>)
    ensures
        match r {
            Ok(t) => area_line(line@) == Ok::<AreaV, Seq<char>>(t@),
            Err(e) => area_line(line@) == Err::<AreaV, Seq<char>>(e@),
        },
{
    let v = chars_of(line);
    assert(v@.subrange(0, v@.len() as int) =~= v@);
    area_from_range(&v, 0, v.len())
}

/// A tag record (as listed, or as returned by id): id, name, keyboard
/// shortcut and parent tag name, read from the trimmed text; a malformed
/// record is reported with its untrimmed text.
pub open spec fn tag_record(l: Seq<char>) -> Result<TagV, Seq<char>> {
    let p = splitn(trim(l), 4, field_sep());
    if p.len() < 4 {
        Err("Unexpected tag format: "@ + l)
    } else {
        Ok(TagV { id: p[0], name: p[1], keyboard_shortcut: opt_field(p[2]), parent_tag: opt_field(p[3]) })
    }
}

fn tag_from_range(v: &Vec<char>, lo: usize, hi: usize) -> (r: Result<Tag, String>)
    requires
        lo <= hi <= v.len(),
    ensures
        match r {
            Ok(t) => tag_record(v@.subrange(lo as int, hi as int)) == Ok::<TagV, Seq<char>>(t@),
            Err(e) => tag_record(v@.subrange(lo as int, hi as int)) == Err::<TagV, Seq<char>>(e@),
        },
{
    let (a, b) = trim_range(v, lo, hi);
    let rs = match fields(v, a, b, 4) {
        None => return Err(message_with_range("Unexpected tag format: ", v, lo, hi)),
        Some(rs) => rs,
    };
    let ghost p = splitn(v@.subrange(a as int, b as int), 4, field_sep());
    proof {
        assert forall|k: int| 0 <= k < 4 implies p[k] == v@.subrange(#[trigger] rs@[k].0 as int, rs@[k].1 as int) by {
            assert(pieces(v@, rs@)[k] == p[k]);
        }
    }
    Ok(Tag {
        id: substring(v, rs[0].0, rs[0].1),
        name: substring(v, rs[1].0, rs[1].1),
        keyboard_shortcut: opt_field_range(v, rs[2].0, rs[2].1),
        parent_tag: opt_field_range(v, rs[3].0, rs[3].1),
    })
}

/// An id-and-name record (lists and contacts), read from the trimmed text;
/// a malformed record is reported with `kind` and its untrimmed text.
pub open spec fn pair_record(l: Seq<char>, kind: Seq<char>) -> Result<(Seq<char>, Seq<char>), Seq<char>> {
    let p = splitn(trim(l), 2, field_sep());
    if p.len() < 2 {
        Err("Unexpected "@ + kind + " format: "@ + l)
    } else {
        Ok((p[0], p[1]))
    }
}

fn pair_from_range(v: &Vec<char>, lo: usize, hi: usize, kind: &str) -> (r: Result<(String, String), String>)
    requires
        lo <= hi <= v.len(),
    ensures
        match r {
            Ok(t) => pair_record(v@.subrange(lo as int, hi as int), kind@) == Ok::<(Seq<char>, Seq<char>), Seq<char>>((t.0@, t.1@)),
            Err(e) => pair_record(v@.subrange(lo as int, hi as int), kind@) == Err::<(Seq<char>, Seq<char>), Seq<char>>(e@),
        },
{
    let (a, b) = trim_range(v, lo, hi);
    let rs = match fields(v, a, b, 2) {
        None => {
            let mut out: Vec<char> = Vec::new();
            push_str(&mut out, "Unexpected ");
            push_str(&mut out, kind);
            let m = message_with_range(" format: ", v, lo, hi);
            push_str(&mut out, m.as_str());
            assert(out@ =~= "Unexpected "@ + kind@ + " format: "@ + v@.subrange(lo as int, hi as int));
            return Err(string_from_chars(out.as_slice()));
        },
        Some(rs) => rs,
    };
    let ghost p = splitn(v@.subrange(a as int, b as int), 2, field_sep());
    proof {
        assert forall|k: int| 0 <= k < 2 implies p[k] == v@.subrange(#[trigger] rs@[k].0 as int, rs@[k].1 as int) by {
            assert(pieces(v@, rs@)[k] == p[k]);
        }
    }
    Ok((substring(v, rs[0].0, rs[0].1), substring(v, rs[1].0, rs[1].1)))
}

/// Records of script output: the pieces between record separators, blank ones dropped.
pub open spec fn nonblank(ls: Seq<Seq<char>>) -> Seq<Seq<char>>
    decreases ls.len(),
{
    if ls.len() == 0 {
        Seq::empty()
    } else if trim(ls.last()).len() > 0 {
        nonblank(ls.drop_last()).push(ls.last())
    } else {
        nonblank(ls.drop_last())
    }
}

/// The records a listing script printed.
pub open spec fn records(raw: Seq<char>) -> Seq<Seq<char>> {
    nonblank(split(raw, record_sep()))
}

/// Each record read with `f`, or the first failure.
pub open spec fn read_all<T>(ls: Seq<Seq<char>>, f: spec_fn(Seq<char>) -> Result<T, Seq<char>>) -> Result<Seq<T>, Seq<char>>
    decreases ls.len(),
{
    if ls.len() == 0 {
        Ok(Seq::empty())
    } else {
        match read_all(ls.drop_last(), f) {
            Err(e) => Err(e),
            Ok(xs) => match f(ls.last()) {
                Err(e) => Err(e),
                Ok(x) => Ok(xs.push(x)),
            },
        }
    }
}

/// Bounds of the records in `v`.
fn record_ranges(v: &Vec<char>) -> (rs: Vec<(usize, usize)>)
    ensures
        pieces(v@, rs@) == records(v@),
        forall|k: int| 0 <= k < rs@.len() ==> 0 <= #[trigger] rs@[k].0 <= rs@[k].1 <= v@.len(),
{
    let all = splitn_ranges(v, 0, v.len(), usize::MAX, '\u{241F}');
    let ghost ps = split(v@.subrange(0, v@.len() as int), record_sep());
    assert(v@.subrange(0, v@.len() as int) =~= v@);
    let mut out: Vec<(usize, usize)> = Vec::new();
    let mut i: usize = 0;
    while i < all.len()
        invariant
            i <= all@.len(),
            ps == split(v@, record_sep()),
            pieces(v@, all@) == ps,
            forall|k: int| 0 <= k < all@.len() ==> 0 <= #[trigger] all@[k].0 <= all@[k].1 <= v@.len(),
            forall|k: int| 0 <= k < out@.len() ==> 0 <= #[trigger] out@[k].0 <= out@[k].1 <= v@.len(),
            pieces(v@, out@) == nonblank(ps.take(i as int)),
        decreases all.len() - i,
    {
        let (a, b) = all[i];
        assert(ps[i as int] == v@.subrange(a as int, b as int));
        assert(ps.take(i + 1).drop_last() =~= ps.take(i as int));
        let (c, d) = trim_range(v, a, b);
        if c < d {
            let ghost before = out@;
            out.push((a, b));
            assert(pieces(v@, out@) =~= pieces(v@, before).push(v@.subrange(a as int, b as int)));
        }
        i += 1;
    }
    assert(ps.take(all@.len() as int) =~= ps);
    out
}

/// Reads one listed task record (trimmed first).
pub open spec fn task_reader() -> spec_fn(Seq<char>) -> Result<TaskV, Seq<char>> {
    |l: Seq<char>| task_line(trim(l))
}

/// Reads a listing of task records.
pub fn read_task_list(raw: &str) -> (r: Result<Vec<Task>, String>)
    ensures
        match r {
            Ok(ts) => read_all(records(raw@), task_reader()) == Ok::<Seq<TaskV>, Seq<char>>(ts@.map_values(|t: Task| t@)),
            Err(e) => read_all(records(raw@), task_reader()) == Err::<Seq<TaskV>, Seq<char>>(e@),
        },
{
    let v = chars_of(raw);
    let rs = record_ranges(&v);
    let ghost ls = records(raw@);
    let ghost f = task_reader();
    let mut out: Vec<Task> = Vec::new();
    let mut i: usize = 0;
    assert(ls.take(0) =~= Seq::<Seq<char>>::empty());
    assert(out@.map_values(|t: Task| t@) =~= Seq::<TaskV>::empty());
    while i < rs.len()
        invariant
            i <= rs@.len(),
            v@ == raw@,
            f == task_reader(),
            ls == records(raw@),
            pieces(v@, rs@) == ls,
            forall|k: int| 0 <= k < rs@.len() ==> 0 <= #[trigger] rs@[k].0 <= rs@[k].1 <= v@.len(),
            read_all(ls.take(i as int), f) == Ok::<Seq<TaskV>, Seq<char>>(out@.map_values(|t: Task| t@)),
        decreases rs.len() - i,
    {
        let (a, b) = rs[i];
        assert(ls[i as int] == v@.subrange(a as int, b as int));
        assert(ls.take(i + 1).drop_last() =~= ls.take(i as int));
        let (c, d) = trim_range(&v, a, b);
        assert(ls.take(i + 1).last() == ls[i as int]);
        assert(trim(ls[i as int]) == v@.subrange(c as int, d as int));
        assert(f(ls[i as int]) == task_line(trim(ls[i as int])));
        match task_from_range(&v, c, d) {
            Err(e) => {
                proof {
                    lemma_read_all_err_prefix(ls, f, i as int + 1);
                }
                return Err(e);
            },
            Ok(t) => {
                let ghost before = out@;
                out.push(t);
                assert(out@.map_values(|t: Task| t@) =~= before.map_values(|t: Task| t@).push(t@));
            },
        }
        i += 1;
    }
    assert(ls.take(rs@.len() as int) =~= ls);
    Ok(out)
}

/// A failure on a prefix is the failure of the whole.
proof fn lemma_read_all_err_prefix<T>(ls: Seq<Seq<char>>, f: spec_fn(Seq<char>) -> Result<T, Seq<char>>, n: int)
    requires
        0 <= n <= ls.len(),
        read_all(ls.take(n), f) is Err,
    ensures
        read_all(ls, f) == read_all(ls.take(n), f),
    decreases ls.len() - n,
{
    if n < ls.len() {
        assert(ls.take(n + 1).take(n) =~= ls.take(n));
        assert(ls.take(n + 1).drop_last() =~= ls.take(n));
        lemma_read_all_err_prefix(ls, f, n + 1);
    } else {
        assert(ls.take(n) =~= ls);
    }
}

/// Reads one listed project record.
pub open spec fn project_reader() -> spec_fn(Seq<char>) -> Result<ProjectV, Seq<char>> {
    |l: Seq<char>| project_line(trim(l))
}

/// Reads a listing of project records.
pub fn read_project_list(raw: &str) -> (r: Result<Vec<Project>, String>)
    ensures
        match r {
            Ok(ts) => read_all(records(raw@), project_reader()) == Ok::<Seq<ProjectV>, Seq<char>>(ts@.map_values(|t: Project| t@)),
            Err(e) => read_all(records(raw@), project_reader()) == Err::<Seq<ProjectV>, Seq<char>>(e@),
        },
{
    let v = chars_of(raw);
    let rs = record_ranges(&v);
    let ghost ls = records(raw@);
    let ghost f = project_reader();
    let mut out: Vec<Project> = Vec::new();
    let mut i: usize = 0;
    assert(ls.take(0) =~= Seq::<Seq<char>>::empty());
    assert(out@.map_values(|t: Project| t@) =~= Seq::<ProjectV>::empty());
    while i < rs.len()
        invariant
            i <= rs@.len(),
            v@ == raw@,
            f == project_reader(),
            ls == records(raw@),
            pieces(v@, rs@) == ls,
            forall|k: int| 0 <= k < rs@.len() ==> 0 <= #[trigger] rs@[k].0 <= rs@[k].1 <= v@.len(),
            read_all(ls.take(i as int), f) == Ok::<Seq<ProjectV>, Seq<char>>(out@.map_values(|t: Project| t@)),
        decreases rs.len() - i,
    {
        let (a, b) = rs[i];
        assert(ls[i as int] == v@.subrange(a as int, b as int));
        assert(ls.take(i + 1).drop_last() =~= ls.take(i as int));
        assert(ls.take(i + 1).last() == ls[i as int]);
        let (c, d) = trim_range(&v, a, b);
        assert(trim(ls[i as int]) == v@.subrange(c as int, d as int));
        let parsed = project_from_range(&v, c, d);
        match parsed {
            Err(e) => {
                proof {
                    lemma_read_all_err_prefix(ls, f, i as int + 1);
                }
                return Err(e);
            },
            Ok(t) => {
                let ghost before = out@;
                out.push(t);
                assert(out@.map_values(|t: Project| t@) =~= before.map_values(|t: Project| t@).push(t@));
            },
        }
        i += 1;
    }
    assert(ls.take(rs@.len() as int) =~= ls);
    Ok(out)
}

/// Reads one listed area record.
pub open spec fn area_reader() -> spec_fn(Seq<char>) -> Result<AreaV, Seq<char>> {
    |l: Seq<char>| area_line(trim(l))
}

/// Reads a listing of area records.
pub fn read_area_list(raw: &str) -> (r: Result<Vec<Area>, String>)
    ensures
        match r {
            Ok(ts) => read_all(records(raw@), area_reader()) == Ok::<Seq<AreaV>, Seq<char>>(ts@.map_values(|t: Area| t@)),
            Err(e) => read_all(records(raw@), area_reader()) == Err::<Seq<AreaV>, Seq<char>>(e@),
        },
{
    let v = chars_of(raw);
    let rs = record_ranges(&v);
    let ghost ls = records(raw@);
    let ghost f = area_reader();
    let mut out: Vec<Area> = Vec::new();
    let mut i: usize = 0;
    assert(ls.take(0) =~= Seq::<Seq<char>>::empty());
    assert(out@.map_values(|t: Area| t@) =~= Seq::<AreaV>::empty());
    while i < rs.len()
        invariant
            i <= rs@.len(),
            v@ == raw@,
            f == area_reader(),
            ls == records(raw@),
            pieces(v@, rs@) == ls,
            forall|k: int| 0 <= k < rs@.len() ==> 0 <= #[trigger] rs@[k].0 <= rs@[k].1 <= v@.len(),
            read_all(ls.take(i as int), f) == Ok::<Seq<AreaV>, Seq<char>>(out@.map_values(|t: Area| t@)),
        decreases rs.len() - i,
    {
        let (a, b) = rs[i];
        assert(ls[i as int] == v@.subrange(a as int, b as int));
        assert(ls.take(i + 1).drop_last() =~= ls.take(i as int));
        assert(ls.take(i + 1).last() == ls[i as int]);
        let (c, d) = trim_range(&v, a, b);
        assert(trim(ls[i as int]) == v@.subrange(c as int, d as int));
        let parsed = area_from_range(&v, c, d);
        match parsed {
            Err(e) => {
                proof {
                    lemma_read_all_err_prefix(ls, f, i as int + 1);
                }
                return Err(e);
            },
            Ok(t) => {
                let ghost before = out@;
                out.push(t);
                assert(out@.map_values(|t: Area| t@) =~= before.map_values(|t: Area| t@).push(t@));
            },
        }
        i += 1;
    }
    assert(ls.take(rs@.len() as int) =~= ls);
    Ok(out)
}

/// Reads one listed tag record.
pub open spec fn tag_reader() -> spec_fn(Seq<char>) -> Result<TagV, Seq<char>> {
    |l: Seq<char>| tag_record(l)
}

/// Reads a listing of tag records.
pub fn read_tag_list(raw: &str) -> (r: Result<Vec<Tag>, String>)
    ensures
        match r {
            Ok(ts) => read_all(records(raw@), tag_reader()) == Ok::<Seq<TagV>, Seq<char>>(ts@.map_values(|t: Tag| t@)),
            Err(e) => read_all(records(raw@), tag_reader()) == Err::<Seq<TagV>, Seq<char>>(e@),
        },
{
    let v = chars_of(raw);
    let rs = record_ranges(&v);
    let ghost ls = records(raw@);
    let ghost f = tag_reader();
    let mut out: Vec<Tag> = Vec::new();
    let mut i: usize = 0;
    assert(ls.take(0) =~= Seq::<Seq<char>>::empty());
    assert(out@.map_values(|t: Tag| t@) =~= Seq::<TagV>::empty());
    while i < rs.len()
        invariant
            i <= rs@.len(),
            v@ == raw@,
            f == tag_reader(),
            ls == records(raw@),
            pieces(v@, rs@) == ls,
            forall|k: int| 0 <= k < rs@.len() ==> 0 <= #[trigger] rs@[k].0 <= rs@[k].1 <= v@.len(),
            read_all(ls.take(i as int), f) == Ok::<Seq<TagV>, Seq<char>>(out@.map_values(|t: Tag| t@)),
        decreases rs.len() - i,
    {
        let (a, b) = rs[i];
        assert(ls[i as int] == v@.subrange(a as int, b as int));
        assert(ls.take(i + 1).drop_last() =~= ls.take(i as int));
        assert(ls.take(i + 1).last() == ls[i as int]);
        let parsed = tag_from_range(&v, a, b);
        match parsed {
            Err(e) => {
                proof {
                    lemma_read_all_err_prefix(ls, f, i as int + 1);
                }
                return Err(e);
            },
            Ok(t) => {
                let ghost before = out@;
                out.push(t);
                assert(out@.map_values(|t: Tag| t@) =~= before.map_values(|t: Tag| t@).push(t@));
            },
        }
        i += 1;
    }
    assert(ls.take(rs@.len() as int) =~= ls);
    Ok(out)
}

/// Reads one listed list record.
pub open spec fn list_reader() -> spec_fn(Seq<char>) -> Result<(Seq<char>, Seq<char>), Seq<char>> {
    |l: Seq<char>| pair_record(l, "list"@)
}

/// Reads a listing of list records.
pub fn read_list_infos(raw: &str) -> (r: Result<Vec<ListInfo>, String>)
    ensures
        match r {
            Ok(ts) => read_all(records(raw@), list_reader()) == Ok::<Seq<(Seq<char>, Seq<char>)>, Seq<char>>(ts@.map_values(|t: ListInfo| t@)),
            Err(e) => read_all(records(raw@), list_reader()) == Err::<Seq<(Seq<char>, Seq<char>)>, Seq<char>>(e@),
        },
{
    let v = chars_of(raw);
    let rs = record_ranges(&v);
    let ghost ls = records(raw@);
    let ghost f = list_reader();
    let mut out: Vec<ListInfo> = Vec::new();
    let mut i: usize = 0;
    assert(ls.take(0) =~= Seq::<Seq<char>>::empty());
    assert(out@.map_values(|t: ListInfo| t@) =~= Seq::<(Seq<char>, Seq<char>)>::empty());
    while i < rs.len()
        invariant
            i <= rs@.len(),
            v@ == raw@,
            f == list_reader(),
            ls == records(raw@),
            pieces(v@, rs@) == ls,
            forall|k: int| 0 <= k < rs@.len() ==> 0 <= #[trigger] rs@[k].0 <= rs@[k].1 <= v@.len(),
            read_all(ls.take(i as int), f) == Ok::<Seq<(Seq<char>, Seq<char>)>, Seq<char>>(out@.map_values(|t: ListInfo| t@)),
        decreases rs.len() - i,
    {
        let (a, b) = rs[i];
        assert(ls[i as int] == v@.subrange(a as int, b as int));
        assert(ls.take(i + 1).drop_last() =~= ls.take(i as int));
        assert(ls.take(i + 1).last() == ls[i as int]);
        let parsed = match pair_from_range(&v, a, b, "list") {
            Ok((id, name)) => Ok(ListInfo { id, name }),
            Err(e) => Err(e),
        };
        match parsed {
            Err(e) => {
                proof {
                    lemma_read_all_err_prefix(ls, f, i as int + 1);
                }
                return Err(e);
            },
            Ok(t) => {
                let ghost before = out@;
                out.push(t);
                assert(out@.map_values(|t: ListInfo| t@) =~= before.map_values(|t: ListInfo| t@).push(t@));
            },
        }
        i += 1;
    }
    assert(ls.take(rs@.len() as int) =~= ls);
    Ok(out)
}

/// Reads one listed contact record.
pub open spec fn contact_reader() -> spec_fn(Seq<char>) -> Result<(Seq<char>, Seq<char>), Seq<char>> {
    |l: Seq<char>| pair_record(l, "contact"@)
}

/// Reads a listing of contact records.
pub fn read_contact_list(raw: &str) -> (r: Result<Vec<Contact>, String>)
    ensures
        match r {
            Ok(ts) => read_all(records(raw@), contact_reader()) == Ok::<Seq<(Seq<char>, Seq<char>)>, Seq<char>>(ts@.map_values(|t: Contact| t@)),
            Err(e) => read_all(records(raw@), contact_reader()) == Err::<Seq<(Seq<char>, Seq<char>)>, Seq<char>>(e@),
        },
{
    let v = chars_of(raw);
    let rs = record_ranges(&v);
    let ghost ls = records(raw@);
    let ghost f = contact_reader();
    let mut out: Vec<Contact> = Vec::new();
    let mut i: usize = 0;
    assert(ls.take(0) =~= Seq::<Seq<char>>::empty());
    assert(out@.map_values(|t: Contact| t@) =~= Seq::<(Seq<char>, Seq<char>)>::empty());
    while i < rs.len()
        invariant
            i <= rs@.len(),
            v@ == raw@,
            f == contact_reader(),
            ls == records(raw@),
            pieces(v@, rs@) == ls,
            forall|k: int| 0 <= k < rs@.len() ==> 0 <= #[trigger] rs@[k].0 <= rs@[k].1 <= v@.len(),
            read_all(ls.take(i as int), f) == Ok::<Seq<(Seq<char>, Seq<char>)>, Seq<char>>(out@.map_values(|t: Contact| t@)),
        decreases rs.len() - i,
    {
        let (a, b) = rs[i];
        assert(ls[i as int] == v@.subrange(a as int, b as int));
        assert(ls.take(i + 1).drop_last() =~= ls.take(i as int));
        assert(ls.take(i + 1).last() == ls[i as int]);
        let parsed = match pair_from_range(&v, a, b, "contact") {
            Ok((id, name)) => Ok(Contact { id, name }),
            Err(e) => Err(e),
        };
        match parsed {
            Err(e) => {
                proof {
                    lemma_read_all_err_prefix(ls, f, i as int + 1);
                }
                return Err(e);
            },
            Ok(t) => {
                let ghost before = out@;
                out.push(t);
                assert(out@.map_values(|t: Contact| t@) =~= before.map_values(|t: Contact| t@).push(t@));
            },
        }
        i += 1;
    }
    assert(ls.take(rs@.len() as int) =~= ls);
    Ok(out)
}

/// Reads the one task record a by-id script prints.
pub fn read_task(raw: &str) -> (r: Result<Task, String>)
    ensures
        match r {
            Ok(t) => task_line(trim(raw@)) == Ok::<TaskV, Seq<char>>(t@),
            Err(e) => task_line(trim(raw@)) == Err::<TaskV, Seq<char>>(e@),
        },
{
    let v = chars_of(raw);
    assert(v@.subrange(0, v@.len() as int) =~= v@);
    let (a, b) = trim_range(&v, 0, v.len());
    task_from_range(&v, a, b)
}

/// Reads the one project record a by-id script prints.
pub fn read_project(raw: &str) -> (r: Result<Project, String>)
    ensures
        match r {
            Ok(t) => project_line(trim(raw@)) == Ok::<ProjectV, Seq<char>>(t@),
            Err(e) => project_line(trim(raw@)) == Err::<ProjectV, Seq<char>>(e@),
        },
{
    let v = chars_of(raw);
    assert(v@.subrange(0, v@.len() as int) =~= v@);
    let (a, b) = trim_range(&v, 0, v.len());
    project_from_range(&v, a, b)
}

/// Reads the one area record a by-id script prints.
pub fn read_area(raw: &str) -> (r: Result<Area, String>)
    ensures
        match r {
            Ok(t) => area_line(trim(raw@)) == Ok::<AreaV, Seq<char>>(t@),
            Err(e) => area_line(trim(raw@)) == Err::<AreaV, Seq<char>>(e@),
        },
{
    let v = chars_of(raw);
    assert(v@.subrange(0, v@.len() as int) =~= v@);
    let (a, b) = trim_range(&v, 0, v.len());
    area_from_range(&v, a, b)
}

/// Reads the one tag record a by-id or create script prints.
pub fn read_tag(raw: &str) -> (r: Result<Tag, String>)
    ensures
        match r {
            Ok(t) => tag_record(raw@) == Ok::<TagV, Seq<char>>(t@),
            Err(e) => tag_record(raw@) == Err::<TagV, Seq<char>>(e@),
        },
{
    let v = chars_of(raw);
    assert(v@.subrange(0, v@.len() as int) =~= v@);
    tag_from_range(&v, 0, v.len())
}

/// Reads the contact record the create-contact script prints.
pub fn read_contact(raw: &str) -> (r: Result<Contact, String>)
    ensures
        match r {
            Ok(t) => pair_record(raw@, "contact"@) == Ok::<(Seq<char>, Seq<char>), Seq<char>>(t@),
            Err(e) => pair_record(raw@, "contact"@) == Err::<(Seq<char>, Seq<char>), Seq<char>>(e@),
        },
{
    let v = chars_of(raw);
    assert(v@.subrange(0, v@.len() as int) =~= v@);
    match pair_from_range(&v, 0, v.len(), "contact") {
        Ok((id, name)) => Ok(Contact { id, name }),
        Err(e) => Err(e),
    }
}

/// The id a create script prints: its output, trimmed.
pub fn read_id(raw: &str) -> (id: String)
    ensures
        id@ == trim(raw@),
{
    crate::text::trimmed(raw)
}

/// What a count script's output means: the trimmed text as a `usize`, or a
/// message naming the untrimmed output and why it is no count.
pub open spec fn count_reply(raw: Seq<char>) -> Result<int, Seq<char>> {
    match parse_usize_spec(trim(raw)) {
        Ok(n) => Ok(n),
        Err(e) => Err("Failed to parse count: "@ + raw + " ("@ + int_error_text(e) + ")"@),
    }
}

/// Reads the number a count script prints.
pub fn read_count(raw: &str) -> (r: Result<usize, String>)
    ensures
        match r {
            Ok(n) => count_reply(raw@) == Ok::<int, Seq<char>>(n as int),
            Err(e) => count_reply(raw@) == Err::<int, Seq<char>>(e@),
        },
{
    let v = chars_of(raw);
    assert(v@.subrange(0, v@.len() as int) =~= v@);
    let (a, b) = trim_range(&v, 0, v.len());
    match parse_usize_range(&v, a, b) {
        Ok(n) => Ok(n),
        Err(e) => {
            let mut out: Vec<char> = Vec::new();
            push_str(&mut out, "Failed to parse count: ");
            push_chars(&mut out, &v);
            push_str(&mut out, " (");
            let m = int_error_message(e);
            push_str(&mut out, m.as_str());
            push_str(&mut out, ")");
            Err(string_from_chars(out.as_slice()))
        },
    }
}

/// The application record: name, version, frontmost flag, current list name and URL,
/// read from the trimmed text; a malformed record is reported with its untrimmed text.
pub open spec fn app_info_record(raw: Seq<char>) -> Result<AppInfoV, Seq<char>> {
    let p = splitn(trim(raw), 5, field_sep());
    if p.len() < 5 {
        Err("Unexpected app info format: "@ + raw)
    } else {
        Ok(AppInfoV {
            name: p[0],
            version: p[1],
            frontmost: flag_field(p[2]),
            current_list_name: opt_field(p[3]),
            current_list_url: opt_field(p[4]),
        })
    }
}

/// Reads what the application-info script prints.
pub fn read_app_info(raw: &str) -> (r: Result<AppInfo, String>)
    ensures
        match r {
            Ok(t) => app_info_record(raw@) == Ok::<AppInfoV, Seq<char>>(t@),
            Err(e) => app_info_record(raw@) == Err::<AppInfoV, Seq<char>>(e@),
        },
{
    let v = chars_of(raw);
    assert(v@.subrange(0, v@.len() as int) =~= v@);
    let (a, b) = trim_range(&v, 0, v.len());
    let rs = match fields(&v, a, b, 5) {
        None => return Err(message_with_range("Unexpected app info format: ", &v, 0, v.len())),
        Some(rs) => rs,
    };
    let ghost p = splitn(v@.subrange(a as int, b as int), 5, field_sep());
    proof {
        assert forall|k: int| 0 <= k < 5 implies p[k] == v@.subrange(#[trigger] rs@[k].0 as int, rs@[k].1 as int) by {
            assert(pieces(v@, rs@)[k] == p[k]);
        }
    }
    Ok(AppInfo {
        name: substring(&v, rs[0].0, rs[0].1),
        version: substring(&v, rs[1].0, rs[1].1),
        frontmost: flag_range(&v, rs[2].0, rs[2].1),
        current_list_name: opt_field_range(&v, rs[3].0, rs[3].1),
        current_list_url: opt_field_range(&v, rs[4].0, rs[4].1),
    })
}

/// The view of a [`WindowInfo`]: id, name, index, bounds and the seven flags
/// (visible, minimized, zoomed, closeable, minimizable, resizable, zoomable).
pub struct WindowV {
    pub id: int,
    pub name: Seq<char>,
    pub index: int,
    pub bounds: Seq<int>,
    pub flags: Seq<bool>,
}

/// The view of a window record.
pub open spec fn window_view(w: WindowInfo) -> WindowV {
    WindowV {
        id: w.id as int,
        name: w.name@,
        index: w.index as int,
        bounds: seq![w.bounds[0] as int, w.bounds[1] as int, w.bounds[2] as int, w.bounds[3] as int],
        flags: seq![w.visible, w.minimized, w.zoomed, w.closeable, w.minimizable, w.resizable, w.zoomable],
    }
}

/// An integer window field: the trimmed text as an `i64`, or a message naming
/// the untrimmed text and why it is no integer.
pub open spec fn int_field(s: Seq<char>) -> Result<int, Seq<char>> {
    match parse_i64_spec(trim(s)) {
        Ok(n) => Ok(n),
        Err(e) => Err("int parse error: "@ + s + " ("@ + int_error_text(e) + ")"@),
    }
}

/// A window record: eleven fields (id, name, index, `x1,y1,x2,y2` bounds and
/// seven flags); integers are read in the order id, index, bounds.
pub open spec fn window_record(l: Seq<char>) -> Result<WindowV, Seq<char>> {
    let p = splitn(trim(l), 11, field_sep());
    if p.len() < 11 {
        Err("Unexpected window format: "@ + l)
    } else {
        let b = split(p[3], ',');
        if b.len() != 4 {
            Err("Unexpected bounds format: "@ + p[3])
        } else {
            match (int_field(p[0]), int_field(p[2]), int_field(b[0]), int_field(b[1]), int_field(b[2]), int_field(b[3])) {
                (Err(e), _, _, _, _, _) => Err(e),
                (Ok(_), Err(e), _, _, _, _) => Err(e),
                (Ok(_), Ok(_), Err(e), _, _, _) => Err(e),
                (Ok(_), Ok(_), Ok(_), Err(e), _, _) => Err(e),
                (Ok(_), Ok(_), Ok(_), Ok(_), Err(e), _) => Err(e),
                (Ok(_), Ok(_), Ok(_), Ok(_), Ok(_), Err(e)) => Err(e),
                (Ok(id), Ok(index), Ok(x1), Ok(y1), Ok(x2), Ok(y2)) => Ok(WindowV {
                    id,
                    name: p[1],
                    index,
                    bounds: seq![x1, y1, x2, y2],
                    flags: seq![
                        flag_field(p[4]),
                        flag_field(p[5]),
                        flag_field(p[6]),
                        flag_field(p[7]),
                        flag_field(p[8]),
                        flag_field(p[9]),
                        flag_field(p[10]),
                    ],
                }),
            }
        }
    }
}

fn int_field_range(v: &Vec<char>, lo: usize, hi: usize) -> (r: Result<i64, String>)
    requires
        lo <= hi <= v.len(),
    ensures
        match r {
            Ok(n) => int_field(v@.subrange(lo as int, hi as int)) == Ok::<int, Seq<char>>(n as int),
            Err(e) => int_field(v@.subrange(lo as int, hi as int)) == Err::<int, Seq<char>>(e@),
        },
{
    let (a, b) = trim_range(v, lo, hi);
    match parse_i64_range(v, a, b) {
        Ok(n) => Ok(n),
        Err(e) => {
            let mut out: Vec<char> = Vec::new();
            let m1 = message_with_range("int parse error: ", v, lo, hi);
            push_str(&mut out, m1.as_str());
            push_str(&mut out, " (");
            let m = int_error_message(e);
            push_str(&mut out, m.as_str());
            push_str(&mut out, ")");
            Err(string_from_chars(out.as_slice()))
        },
    }
}

fn window_from_range(v: &Vec<char>, lo: usize, hi: usize) -> (r: Result<WindowInfo, String>)
    requires
        lo <= hi <= v.len(),
    ensures
        match r {
            Ok(w) => window_record(v@.subrange(lo as int, hi as int)) == Ok::<WindowV, Seq<char>>(window_view(w)),
            Err(e) => window_record(v@.subrange(lo as int, hi as int)) == Err::<WindowV, Seq<char>>(e@),
        },
{
    let (a, b) = trim_range(v, lo, hi);
    let rs = match fields(v, a, b, 11) {
        None => return Err(message_with_range("Unexpected window format: ", v, lo, hi)),
        Some(rs) => rs,
    };
    let ghost p = splitn(v@.subrange(a as int, b as int), 11, field_sep());
    proof {
        assert forall|k: int| 0 <= k < 11 implies p[k] == v@.subrange(#[trigger] rs@[k].0 as int, rs@[k].1 as int) by {
            assert(pieces(v@, rs@)[k] == p[k]);
        }
    }
    let bs = splitn_ranges(v, rs[3].0, rs[3].1, usize::MAX, ',');
    if bs.len() != 4 {
        return Err(message_with_range("Unexpected bounds format: ", v, rs[3].0, rs[3].1));
    }
    let ghost bp = split(p[3], ',');
    proof {
        assert forall|k: int| 0 <= k < 4 implies bp[k] == v@.subrange(#[trigger] bs@[k].0 as int, bs@[k].1 as int) by {
            assert(pieces(v@, bs@)[k] == bp[k]);
        }
    }
    let id = int_field_range(v, rs[0].0, rs[0].1)?;
    let index = int_field_range(v, rs[2].0, rs[2].1)?;
    let x1 = int_field_range(v, bs[0].0, bs[0].1)?;
    let y1 = int_field_range(v, bs[1].0, bs[1].1)?;
    let x2 = int_field_range(v, bs[2].0, bs[2].1)?;
    let y2 = int_field_range(v, bs[3].0, bs[3].1)?;
    let w = WindowInfo {
        id,
        name: substring(v, rs[1].0, rs[1].1),
        index,
        bounds: [x1, y1, x2, y2],
        visible: flag_range(v, rs[4].0, rs[4].1),
        minimized: flag_range(v, rs[5].0, rs[5].1),
        zoomed: flag_range(v, rs[6].0, rs[6].1),
        closeable: flag_range(v, rs[7].0, rs[7].1),
        minimizable: flag_range(v, rs[8].0, rs[8].1),
        resizable: flag_range(v, rs[9].0, rs[9].1),
        zoomable: flag_range(v, rs[10].0, rs[10].1),
    };
    assert(window_view(w).bounds =~= seq![x1 as int, y1 as int, x2 as int, y2 as int]);
    Ok(w)
}

/// Reads one listed window record.
pub open spec fn window_reader() -> spec_fn(Seq<char>) -> Result<WindowV, Seq<char>> {
    |l: Seq<char>| window_record(l)
}

/// Reads a listing of window records.
pub fn read_window_list(raw: &str) -> (r: Result<Vec<WindowInfo>, String>)
    ensures
        match r {
            Ok(ts) => read_all(records(raw@), window_reader()) == Ok::<Seq<WindowV>, Seq<char>>(ts@.map_values(|t: WindowInfo| window_view(t))),
            Err(e) => read_all(records(raw@), window_reader()) == Err::<Seq<WindowV>, Seq<char>>(e@),
        },
{
    let v = chars_of(raw);
    let rs = record_ranges(&v);
    let ghost ls = records(raw@);
    let ghost f = window_reader();
    let mut out: Vec<WindowInfo> = Vec::new();
    let mut i: usize = 0;
    assert(ls.take(0) =~= Seq::<Seq<char>>::empty());
    assert(out@.map_values(|t: WindowInfo| window_view(t)) =~= Seq::<WindowV>::empty());
    while i < rs.len()
        invariant
            i <= rs@.len(),
            v@ == raw@,
            f == window_reader(),
            ls == records(raw@),
            pieces(v@, rs@) == ls,
            forall|k: int| 0 <= k < rs@.len() ==> 0 <= #[trigger] rs@[k].0 <= rs@[k].1 <= v@.len(),
            read_all(ls.take(i as int), f) == Ok::<Seq<WindowV>, Seq<char>>(out@.map_values(|t: WindowInfo| window_view(t))),
        decreases rs.len() - i,
    {
        let (a, b) = rs[i];
        assert(ls[i as int] == v@.subrange(a as int, b as int));
        assert(ls.take(i + 1).drop_last() =~= ls.take(i as int));
        assert(ls.take(i + 1).last() == ls[i as int]);
        match window_from_range(&v, a, b) {
            Err(e) => {
                proof {
                    lemma_read_all_err_prefix(ls, f, i as int + 1);
                }
                return Err(e);
            },
            Ok(t) => {
                let ghost before = out@;
                out.push(t);
                assert(out@.map_values(|t: WindowInfo| window_view(t)) =~= before.map_values(|t: WindowInfo| window_view(t)).push(window_view(t)));
            },
        }
        i += 1;
    }
    assert(ls.take(rs@.len() as int) =~= ls);
    Ok(out)
}

} // verus!
