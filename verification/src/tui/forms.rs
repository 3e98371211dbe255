//! The dialogs' forms: what a key does to them, and how their text turns into
//! the fields of a request.

use vstd::prelude::*;
use crate::text::{chars_of, split, splitn_ranges, substring, trim, trim_range, trimmed};
use crate::tui::dates::{day_ok, day_text, days_until, next_monday_after, next_saturday_after, tomorrow_after};
use crate::tui::keys::{KeyCode, KeyPress};
use crate::tui::state::{
    DateChoice, DateField, EditTaskForm, MoveForm, NewProjectField, NewProjectForm, NewTaskField,
    NewTaskForm, ScheduleForm, TagsForm,
};

verus! {

/// `s` with one character added at the end.
///
/// Trusted: calls `String::push` (std), which appends the character.
#[verifier::external_body]
fn push_char(s: &mut String, c: char)
    ensures
        final(s)@ == old(s)@.push(c),
{
    s.push(c);
}

/// `s` without its last character, if it has one.
///
/// Trusted: calls `String::pop` (std), which removes the last character and
/// leaves an empty string as it is.
#[verifier::external_body]
fn pop_char(s: &mut String)
    ensures
        final(s)@ == (if old(s)@.len() > 0 {
            old(s)@.drop_last()
        } else {
            old(s)@
        }),
{
    s.pop();
}

/// What typing `key` does to a text field: a character is added, Backspace
/// removes the last one, other keys leave it as it is.
pub open spec fn edited(s: Seq<char>, key: KeyPress) -> Seq<char> {
    match key.code {
        KeyCode::Char(c) => s.push(c),
        KeyCode::Backspace => if s.len() > 0 {
            s.drop_last()
        } else {
            s
        },
        _ => s,
    }
}

/// Applies a typed key to a text field.
pub fn edit_string(buf: &mut String, key: KeyPress)
    ensures
        final(buf)@ == edited(old(buf)@, key),
{
    match key.code {
        KeyCode::Char(c) => push_char(buf, c),
        KeyCode::Backspace => pop_char(buf),
        _ => {},
    }
}

/// A text field's content as an optional request field: trimmed, and left
/// out when nothing is left.
pub open spec fn opt_text(s: Seq<char>) -> Option<Seq<char>> {
    if trim(s).len() == 0 {
        None
    } else {
        Some(trim(s))
    }
}

/// The trimmed text, or `None` when it is blank.
pub fn opt_string(s: &str) -> (r: Option<String>)
    ensures
        r.deep_view() == opt_text(s@),
{
    let t = trimmed(s);
    if t.as_str().is_empty() {
        None
    } else {
        Some(t)
    }
}

/// `s` without its leading `#` characters.
pub open spec fn strip_hashes(s: Seq<char>) -> Seq<char>
    decreases s.len(),
{
    if s.len() > 0 && s[0] == '#' {
        strip_hashes(s.drop_first())
    } else {
        s
    }
}

/// The tag names in comma-separated pieces: each piece trimmed and stripped
/// of leading `#`, the empty ones dropped.
pub open spec fn tag_names(pieces: Seq<Seq<char>>) -> Seq<Seq<char>>
    decreases pieces.len(),
{
    if pieces.len() == 0 {
        Seq::empty()
    } else {
        let rest = tag_names(pieces.drop_last());
        let t = strip_hashes(trim(pieces.last()));
        if t.len() > 0 {
            rest.push(t)
        } else {
            rest
        }
    }
}

/// The tags typed into a tag field, or `None` when there are none.
pub open spec fn parsed_tags(s: Seq<char>) -> Option<Seq<Seq<char>>> {
    let names = tag_names(split(s, ','));
    if names.len() == 0 {
        None
    } else {
        Some(names)
    }
}

/// Reads a comma-separated tag field ("work, #home").
pub fn parse_tags(s: &str) -> (r: Option<Vec<String>>)
    ensures
        r.deep_view() == parsed_tags(s@),
{
    let v = chars_of(s);
    let rs = splitn_ranges(&v, 0, v.len(), usize::MAX, ',');
    proof {
        assert(v@.subrange(0, v@.len() as int) =~= v@);
    }
    let ghost ps = crate::text::pieces(v@, rs@);
    let mut out: Vec<String> = Vec::new();
    let mut i: usize = 0;
    while i < rs.len()
        invariant
            i <= rs.len(),
            ps == crate::text::pieces(v@, rs@),
            ps == split(s@, ','),
            v@ == s@,
            forall|k: int| 0 <= k < rs@.len() ==> 0 <= #[trigger] rs@[k].0 <= rs@[k].1 <= v@.len(),
            out.deep_view() == tag_names(ps.take(i as int)),
        decreases rs.len() - i,
    {
        let (lo, hi) = rs[i];
        assert(lo <= hi <= v@.len());
        let (a0, b) = trim_range(&v, lo, hi);
        let mut a = a0;
        while a < b && v[a] == '#'
            invariant
                a0 <= a <= b <= v@.len(),
                strip_hashes(v@.subrange(a0 as int, b as int)) == strip_hashes(v@.subrange(a as int, b as int)),
            decreases b - a,
        {
            assert(v@.subrange(a as int, b as int).drop_first() =~= v@.subrange(a + 1, b as int));
            a += 1;
        }
        assert(strip_hashes(v@.subrange(a as int, b as int)) == v@.subrange(a as int, b as int));
        assert(ps[i as int] == v@.subrange(lo as int, hi as int));
        assert(ps.take(i + 1).drop_last() =~= ps.take(i as int));
        let ghost before = out.deep_view();
        if a < b {
            let t = substring(&v, a, b);
            out.push(t);
            assert(out.deep_view() =~= before.push(v@.subrange(a as int, b as int)));
        }
        i += 1;
    }
    assert(ps.take(rs.len() as int) =~= ps);
    if out.len() == 0 {
        None
    } else {
        Some(out)
    }
}

/// The date a date field asks for, on day number `today`: "today", the text
/// of tomorrow, the coming Saturday or Monday, nothing for Anytime and
/// Someday, the empty text for Clear, the typed text for Specific; with no
/// choice, the typed text trimmed, or nothing when it is blank.
pub open spec fn when_text(f: (Option<DateChoice>, Seq<char>), today: int) -> Option<Seq<char>> {
    match f.0 {
        Some(c) => match c {
            DateChoice::Today => Some("today"@),
            DateChoice::Tomorrow => Some(day_text(today + 1)),
            DateChoice::ThisWeekend => Some(day_text(today + days_until(today, 6))),
            DateChoice::NextWeek => Some(day_text(today + days_until(today, 1))),
            DateChoice::Anytime => None,
            DateChoice::Someday => None,
            DateChoice::Clear => Some(Seq::empty()),
            DateChoice::Specific => Some(f.1),
        },
        None => opt_text(f.1),
    }
}

/// The date a date field asks for, with `today` the current day number.
pub fn when_to_date(f: &DateField, today: i64) -> (r: Option<String>)
    requires
        day_ok(today as int),
    ensures
        r.deep_view() == when_text(f@, today as int),
{
    match f.choice {
        Some(c) => match c {
            DateChoice::Today => Some(String::from_str("today")),
            DateChoice::Tomorrow => Some(tomorrow_after(today)),
            DateChoice::ThisWeekend => Some(next_saturday_after(today)),
            DateChoice::NextWeek => Some(next_monday_after(today)),
            DateChoice::Anytime => None,
            DateChoice::Someday => None,
            DateChoice::Clear => Some(String::new()),
            DateChoice::Specific => Some(f.specific.clone()),
        },
        None => opt_string(f.specific.as_str()),
    }
}

/// The to-do form's field after `f` in Tab order, wrapping around.
pub open spec fn next_task_field(f: NewTaskField) -> NewTaskField {
    match f {
        NewTaskField::Title => NewTaskField::Notes,
        NewTaskField::Notes => NewTaskField::When,
        NewTaskField::When => NewTaskField::Deadline,
        NewTaskField::Deadline => NewTaskField::Tags,
        NewTaskField::Tags => NewTaskField::Title,
    }
}

/// The to-do form's field before `f` in Tab order, wrapping around.
pub open spec fn prev_task_field(f: NewTaskField) -> NewTaskField {
    match f {
        NewTaskField::Title => NewTaskField::Tags,
        NewTaskField::Notes => NewTaskField::Title,
        NewTaskField::When => NewTaskField::Notes,
        NewTaskField::Deadline => NewTaskField::When,
        NewTaskField::Tags => NewTaskField::Deadline,
    }
}

/// The project form's field after `f` in Tab order, wrapping around.
pub open spec fn next_project_field(f: NewProjectField) -> NewProjectField {
    match f {
        NewProjectField::Title => NewProjectField::Notes,
        NewProjectField::Notes => NewProjectField::Area,
        NewProjectField::Area => NewProjectField::Title,
    }
}

/// The project form's field before `f` in Tab order, wrapping around.
pub open spec fn prev_project_field(f: NewProjectField) -> NewProjectField {
    match f {
        NewProjectField::Title => NewProjectField::Area,
        NewProjectField::Notes => NewProjectField::Title,
        NewProjectField::Area => NewProjectField::Notes,
    }
}

/// Tab steps through the fields in their order and Shift-Tab back: the
/// field after each is the next in the form's order (after the last, the
/// first), the next field after the previous one is the field itself, and
/// five Tabs go round the to-do form (three the project form).
pub proof fn law_field_cycle(f: NewTaskField, g: NewProjectField)
    ensures
        forall|i: int|
            0 <= i < 5 ==> next_task_field(#[trigger] crate::tui::state::task_field_order()[i])
                == crate::tui::state::task_field_order()[(i + 1) % 5],
        forall|i: int|
            0 <= i < 3 ==> next_project_field(#[trigger] crate::tui::state::project_field_order()[i])
                == crate::tui::state::project_field_order()[(i + 1) % 3],
        next_task_field(prev_task_field(f)) == f,
        prev_task_field(next_task_field(f)) == f,
        next_task_field(next_task_field(next_task_field(next_task_field(next_task_field(f))))) == f,
        next_project_field(prev_project_field(g)) == g,
        prev_project_field(next_project_field(g)) == g,
        next_project_field(next_project_field(next_project_field(g))) == g,
{
}

fn next_task_field_exec(f: NewTaskField) -> (r: NewTaskField)
    ensures
        r == next_task_field(f),
{
    match f {
        NewTaskField::Title => NewTaskField::Notes,
        NewTaskField::Notes => NewTaskField::When,
        NewTaskField::When => NewTaskField::Deadline,
        NewTaskField::Deadline => NewTaskField::Tags,
        NewTaskField::Tags => NewTaskField::Title,
    }
}

fn prev_task_field_exec(f: NewTaskField) -> (r: NewTaskField)
    ensures
        r == prev_task_field(f),
{
    match f {
        NewTaskField::Title => NewTaskField::Tags,
        NewTaskField::Notes => NewTaskField::Title,
        NewTaskField::When => NewTaskField::Notes,
        NewTaskField::Deadline => NewTaskField::When,
        NewTaskField::Tags => NewTaskField::Deadline,
    }
}

/// What a key does to the to-do form: Tab and Shift-Tab move the focus,
/// other keys edit the focused field.
pub open spec fn task_form_key(
    title: Seq<char>,
    notes: Seq<char>,
    when: Seq<char>,
    deadline: Seq<char>,
    tags: Seq<char>,
    focused: NewTaskField,
    key: KeyPress,
) -> (Seq<char>, Seq<char>, Seq<char>, Seq<char>, Seq<char>, NewTaskField) {
    if key.code == KeyCode::Tab {
        (title, notes, when, deadline, tags, next_task_field(focused))
    } else if key.code == KeyCode::BackTab {
        (title, notes, when, deadline, tags, prev_task_field(focused))
    } else {
        match focused {
            NewTaskField::Title => (edited(title, key), notes, when, deadline, tags, focused),
            NewTaskField::Notes => (title, edited(notes, key), when, deadline, tags, focused),
            NewTaskField::When => (title, notes, edited(when, key), deadline, tags, focused),
            NewTaskField::Deadline => (title, notes, when, edited(deadline, key), tags, focused),
            NewTaskField::Tags => (title, notes, when, deadline, edited(tags, key), focused),
        }
    }
}

/// Applies a key to the to-do form.
pub fn handle_new_task_key(form: &mut NewTaskForm, key: KeyPress)
    ensures
        (final(form).title@, final(form).notes@, final(form).when.specific@, final(form).deadline.specific@, final(form).tags@, final(form).focused)
            == task_form_key(old(form).title@, old(form).notes@, old(form).when.specific@, old(form).deadline.specific@, old(form).tags@, old(form).focused, key),
        final(form).when.choice == old(form).when.choice,
        final(form).deadline.choice == old(form).deadline.choice,
{
    if key.code == KeyCode::Tab {
        form.focused = next_task_field_exec(form.focused);
        return;
    }
    if key.code == KeyCode::BackTab {
        form.focused = prev_task_field_exec(form.focused);
        return;
    }
    match form.focused {
        NewTaskField::Title => edit_string(&mut form.title, key),
        NewTaskField::Notes => edit_string(&mut form.notes, key),
        NewTaskField::When => edit_string(&mut form.when.specific, key),
        NewTaskField::Deadline => edit_string(&mut form.deadline.specific, key),
        NewTaskField::Tags => edit_string(&mut form.tags, key),
    }
}

/// Applies a key to the edit form; it behaves as the to-do form.
pub fn handle_edit_task_key(form: &mut EditTaskForm, key: KeyPress)
    ensures
        (final(form).title@, final(form).notes@, final(form).when.specific@, final(form).deadline.specific@, final(form).tags@, final(form).focused)
            == task_form_key(old(form).title@, old(form).notes@, old(form).when.specific@, old(form).deadline.specific@, old(form).tags@, old(form).focused, key),
        final(form).when.choice == old(form).when.choice,
        final(form).deadline.choice == old(form).deadline.choice,
        final(form).task_id@ == old(form).task_id@,
{
    if key.code == KeyCode::Tab {
        form.focused = next_task_field_exec(form.focused);
        return;
    }
    if key.code == KeyCode::BackTab {
        form.focused = prev_task_field_exec(form.focused);
        return;
    }
    match form.focused {
        NewTaskField::Title => edit_string(&mut form.title, key),
        NewTaskField::Notes => edit_string(&mut form.notes, key),
        NewTaskField::When => edit_string(&mut form.when.specific, key),
        NewTaskField::Deadline => edit_string(&mut form.deadline.specific, key),
        NewTaskField::Tags => edit_string(&mut form.tags, key),
    }
}

/// What a key does to the project form.
pub open spec fn project_form_key(
    title: Seq<char>,
    notes: Seq<char>,
    area: Seq<char>,
    focused: NewProjectField,
    key: KeyPress,
) -> (Seq<char>, Seq<char>, Seq<char>, NewProjectField) {
    if key.code == KeyCode::Tab {
        (title, notes, area, next_project_field(focused))
    } else if key.code == KeyCode::BackTab {
        (title, notes, area, prev_project_field(focused))
    } else {
        match focused {
            NewProjectField::Title => (edited(title, key), notes, area, focused),
            NewProjectField::Notes => (title, edited(notes, key), area, focused),
            NewProjectField::Area => (title, notes, edited(area, key), focused),
        }
    }
}

/// Applies a key to the project form.
pub fn handle_new_project_key(form: &mut NewProjectForm, key: KeyPress)
    ensures
        (final(form).title@, final(form).notes@, final(form).area@, final(form).focused) == project_form_key(
            old(form).title@,
            old(form).notes@,
            old(form).area@,
            old(form).focused,
            key,
        ),
{
    if key.code == KeyCode::Tab {
        form.focused = match form.focused {
            NewProjectField::Title => NewProjectField::Notes,
            NewProjectField::Notes => NewProjectField::Area,
            NewProjectField::Area => NewProjectField::Title,
        };
        return;
    }
    if key.code == KeyCode::BackTab {
        form.focused = match form.focused {
            NewProjectField::Title => NewProjectField::Area,
            NewProjectField::Notes => NewProjectField::Title,
            NewProjectField::Area => NewProjectField::Notes,
        };
        return;
    }
    match form.focused {
        NewProjectField::Title => edit_string(&mut form.title, key),
        NewProjectField::Notes => edit_string(&mut form.notes, key),
        NewProjectField::Area => edit_string(&mut form.area, key),
    }
}

/// Whether a key is Down or `j`.
pub open spec fn is_down(key: KeyPress) -> bool {
    key.code == KeyCode::Down || key.code == KeyCode::Char('j')
}

/// Whether a key is Up or `k`.
pub open spec fn is_up(key: KeyPress) -> bool {
    key.code == KeyCode::Up || key.code == KeyCode::Char('k')
}

/// The cursor one down a list of `len` items, wrapping to the top.
pub open spec fn wrap_down(cur: int, len: int) -> int {
    if len > 0 {
        (cur + 1) % len
    } else {
        cur
    }
}

/// The cursor one up a list of `len` items, wrapping to the bottom.
pub open spec fn wrap_up(cur: int, len: int) -> int {
    if len > 0 {
        (cur + len - 1) % len
    } else {
        cur
    }
}

/// On a list of items, one step down and one step up return to where the
/// cursor was, and so do one step up and one step down.
pub proof fn law_wrap_inverse(cur: int, len: int)
    requires
        0 <= cur < len,
    ensures
        wrap_up(wrap_down(cur, len), len) == cur,
        wrap_down(wrap_up(cur, len), len) == cur,
        0 <= wrap_down(cur, len) < len,
        0 <= wrap_up(cur, len) < len,
{
    if cur + 1 < len {
        assert((cur + 1) % len == cur + 1) by (nonlinear_arith)
            requires
                0 <= cur + 1 < len,
        {
        }
        assert((cur + 1 + len - 1) % len == cur) by (nonlinear_arith)
            requires
                0 <= cur < len,
        {
            assert(cur + 1 + len - 1 == cur + len);
        }
    } else {
        assert((cur + 1) % len == 0) by (nonlinear_arith)
            requires
                cur + 1 == len,
                len > 0,
        {
        }
        assert((0 + len - 1) % len == cur) by (nonlinear_arith)
            requires
                cur + 1 == len,
                len > 0,
        {
        }
    }
    if cur > 0 {
        assert((cur + len - 1) % len == cur - 1) by (nonlinear_arith)
            requires
                0 < cur < len,
        {
        }
        assert((cur - 1 + 1) % len == cur) by (nonlinear_arith)
            requires
                0 < cur < len,
        {
        }
    } else {
        assert((cur + len - 1) % len == len - 1) by (nonlinear_arith)
            requires
                cur == 0,
                len > 0,
        {
        }
        assert((len - 1 + 1) % len == 0) by (nonlinear_arith)
            requires
                len > 0,
        {
        }
    }
}

/// What a key does to the schedule dialog, and whether it is done: while a
/// date is typed, Enter finishes and Esc stops typing; otherwise Down and Up
/// move round the choices and Enter picks one (the specific date first asks
/// for its text).
pub open spec fn schedule_key(f: crate::tui::state::ScheduleFormV, key: KeyPress) -> (crate::tui::state::ScheduleFormV, bool) {
    if f.editing_specific {
        if key.code == KeyCode::Enter {
            (crate::tui::state::ScheduleFormV { editing_specific: false, ..f }, true)
        } else if key.code == KeyCode::Esc {
            (crate::tui::state::ScheduleFormV { editing_specific: false, ..f }, false)
        } else {
            (crate::tui::state::ScheduleFormV { specific_buffer: edited(f.specific_buffer, key), ..f }, false)
        }
    } else if is_down(key) {
        (crate::tui::state::ScheduleFormV { selected: wrap_down(f.selected as int, f.choices.len() as int) as usize, ..f }, false)
    } else if is_up(key) {
        (crate::tui::state::ScheduleFormV { selected: wrap_up(f.selected as int, f.choices.len() as int) as usize, ..f }, false)
    } else if key.code == KeyCode::Enter {
        if f.selected < f.choices.len() && f.choices[f.selected as int] == DateChoice::Specific {
            (crate::tui::state::ScheduleFormV { editing_specific: true, ..f }, false)
        } else {
            (f, true)
        }
    } else {
        (f, false)
    }
}

/// Applies a key to the schedule dialog; `true` when it is done.
pub fn handle_schedule_key(form: &mut ScheduleForm, key: KeyPress) -> (done: bool)
    requires
        old(form).selected + old(form).choices.len() <= usize::MAX,
    ensures
        (final(form)@, done) == schedule_key(old(form)@, key),
{
    if form.editing_specific {
        if key.code == KeyCode::Enter {
            form.editing_specific = false;
            return true;
        } else if key.code == KeyCode::Esc {
            form.editing_specific = false;
            return false;
        } else {
            edit_string(&mut form.specific_buffer, key);
        }
        return false;
    }
    if key.code == KeyCode::Down || key.code == KeyCode::Char('j') {
        if form.choices.len() > 0 {
            form.selected = (form.selected + 1) % form.choices.len();
        }
        false
    } else if key.code == KeyCode::Up || key.code == KeyCode::Char('k') {
        if form.choices.len() > 0 {
            form.selected = (form.selected + form.choices.len() - 1) % form.choices.len();
        }
        false
    } else if key.code == KeyCode::Enter {
        if form.selected < form.choices.len() && form.choices[form.selected] == DateChoice::Specific {
            form.editing_specific = true;
            return false;
        }
        true
    } else {
        false
    }
}

/// `selected` with `i` ticked or unticked: removed where it is, else added at the end.
pub open spec fn toggled(selected: Seq<usize>, i: usize) -> Seq<usize> {
    match selected.index_of_first(i) {
        Some(k) => selected.remove(k),
        None => selected.push(i),
    }
}

/// What a key does to the tag dialog, and whether it is done: Down and Up
/// move round the tags, Space ticks or unticks the tag under the cursor,
/// Enter finishes.
pub open spec fn tags_key(f: crate::tui::state::TagsFormV, key: KeyPress) -> (crate::tui::state::TagsFormV, bool) {
    if is_down(key) {
        (crate::tui::state::TagsFormV { cursor: wrap_down(f.cursor as int, f.available.len() as int) as usize, ..f }, false)
    } else if is_up(key) {
        (crate::tui::state::TagsFormV { cursor: wrap_up(f.cursor as int, f.available.len() as int) as usize, ..f }, false)
    } else if key.code == KeyCode::Char(' ') {
        if f.available.len() == 0 {
            (f, false)
        } else {
            (crate::tui::state::TagsFormV { selected_indices: toggled(f.selected_indices, f.cursor), ..f }, false)
        }
    } else if key.code == KeyCode::Enter {
        (f, true)
    } else {
        (f, false)
    }
}

/// Applies a key to the tag dialog; `true` when it is done.
pub fn handle_tags_key(form: &mut TagsForm, key: KeyPress) -> (done: bool)
    requires
        old(form).cursor + old(form).available.len() <= usize::MAX,
    ensures
        (final(form)@, done) == tags_key(old(form)@, key),
{
    if key.code == KeyCode::Down || key.code == KeyCode::Char('j') {
        if form.available.len() > 0 {
            form.cursor = (form.cursor + 1) % form.available.len();
        }
        false
    } else if key.code == KeyCode::Up || key.code == KeyCode::Char('k') {
        if form.available.len() > 0 {
            form.cursor = (form.cursor + form.available.len() - 1) % form.available.len();
        }
        false
    } else if key.code == KeyCode::Char(' ') {
        if form.available.len() == 0 {
            return false;
        }
        let mut pos: usize = 0;
        while pos < form.selected_indices.len() && form.selected_indices[pos] != form.cursor
            invariant
                pos <= form.selected_indices.len(),
                forall|j: int| 0 <= j < pos ==> form.selected_indices@[j] != form.cursor,
            decreases form.selected_indices.len() - pos,
        {
            pos += 1;
        }
        let ghost sel = form.selected_indices@;
        proof {
            sel.index_of_first_ensures(form.cursor);
        }
        if pos < form.selected_indices.len() {
            proof {
                assert(sel[pos as int] == form.cursor);
                assert(sel.contains(form.cursor));
                let k = sel.index_of_first(form.cursor).unwrap();
                if k < pos {
                    assert(sel[k] != form.cursor);
                } else if k > pos {
                    assert(sel[pos as int] != form.cursor);
                }
            }
            form.selected_indices.remove(pos);
            assert(form.selected_indices@ =~= toggled(sel, form.cursor));
        } else {
            proof {
                if sel.contains(form.cursor) {
                    let k = sel.index_of_first(form.cursor).unwrap();
                    assert(sel[k] != form.cursor);
                }
            }
            form.selected_indices.push(form.cursor);
            assert(form.selected_indices@ =~= toggled(sel, form.cursor));
        }
        false
    } else if key.code == KeyCode::Enter {
        true
    } else {
        false
    }
}

/// What a key does to the move dialog, and whether it is done.
pub open spec fn move_key(f: crate::tui::state::MoveFormV, key: KeyPress) -> (crate::tui::state::MoveFormV, bool) {
    if is_down(key) {
        (crate::tui::state::MoveFormV { cursor: wrap_down(f.cursor as int, f.destinations.len() as int) as usize, ..f }, false)
    } else if is_up(key) {
        (crate::tui::state::MoveFormV { cursor: wrap_up(f.cursor as int, f.destinations.len() as int) as usize, ..f }, false)
    } else if key.code == KeyCode::Enter {
        (f, true)
    } else {
        (f, false)
    }
}

/// Applies a key to the move dialog; `true` when it is done.
pub fn handle_move_key(form: &mut MoveForm, key: KeyPress) -> (done: bool)
    requires
        old(form).cursor + old(form).destinations.len() <= usize::MAX,
    ensures
        (final(form)@, done) == move_key(old(form)@, key),
{
    if key.code == KeyCode::Down || key.code == KeyCode::Char('j') {
        if form.destinations.len() > 0 {
            form.cursor = (form.cursor + 1) % form.destinations.len();
        }
        false
    } else if key.code == KeyCode::Up || key.code == KeyCode::Char('k') {
        if form.destinations.len() > 0 {
            form.cursor = (form.cursor + form.destinations.len() - 1) % form.destinations.len();
        }
        false
    } else if key.code == KeyCode::Enter {
        true
    } else {
        false
    }
}

} // verus!
