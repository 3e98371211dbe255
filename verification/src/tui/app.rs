//! The client's state machine: what each key and each arriving result does
//! to the state, and which requests it hands the runtime.

use vstd::prelude::*;
use crate::script::{join, push_join};
use crate::text::{chars_of, contains, contains_exec, lower, lowercase, string_from_chars};
use crate::tui::model::{CreateProject, CreateProjectV, CreateTask, CreateTaskV, Task, TaskV, UpdateTask, UpdateTaskV, no_change};
use crate::text::{str_eq, trim, trimmed};
use crate::tui::dates::{day_ok, day_text, days_until, next_monday_after, next_saturday_after, tomorrow_after};
use crate::tui::forms::{opt_string, opt_text, parse_tags, parsed_tags, when_text, when_to_date};
use crate::tui::state::{NewProjectForm, NewProjectFormV, NewTaskForm, NewTaskFormV, list_value, Message, NewProjectField};
use crate::tui::keys::{Action, KeyCode, KeyPress, binding, browse_action};
use crate::tui::forms::{
    edited, edit_string, handle_edit_task_key, handle_move_key, handle_new_project_key,
    handle_new_task_key, handle_schedule_key, handle_tags_key, move_key, project_form_key,
    schedule_key, tags_key, task_form_key,
};
use crate::tui::sidebar::{build_sidebar, sidebar};
use crate::tui::config::{Probe, TuiConfig};
use crate::text::push_str;
use crate::tui::model::{Area, Project, Tag};
use crate::tui::state::{areas_view, projects_view, tags_view};
use crate::tui::sidebar::is_open;
use crate::tui::model::ProjectV;
use crate::tui::state::{
    tasks_view, App, AppV, Call, CallV, DateChoice, DateField, EditTaskForm, EditTaskFormV, Modal,
    ModalV, MoveDest, MoveDestV, MoveForm, MoveFormV, NewTaskField, Pane, Request, RequestV,
    ScheduleForm, ScheduleFormV, Selection, SelectionV, SidebarNode, SidebarNodeV, SpecialList,
    StatusToast, TagsForm, TagsFormV, ToastKind, requests_view, selectable,
};

verus! {

/// Whether a to-do matches the lower-cased search text `needle`: its title,
/// notes or one of its tags contains it, ignoring case.
pub open spec fn task_matches(t: TaskV, needle: Seq<char>) -> bool {
    ||| contains(lower(t.title), needle)
    ||| (match t.notes {
        Some(n) => contains(lower(n), needle),
        None => false,
    })
    ||| exists|i: int| 0 <= i < t.tags.len() && #[trigger] contains(lower(t.tags[i]), needle)
}

/// The to-dos that match `needle`, in order.
pub open spec fn matching(ts: Seq<TaskV>, needle: Seq<char>) -> Seq<TaskV>
    decreases ts.len(),
{
    if ts.len() == 0 {
        Seq::empty()
    } else {
        let rest = matching(ts.drop_last(), needle);
        if task_matches(ts.last(), needle) {
            rest.push(ts.last())
        } else {
            rest
        }
    }
}

/// The to-dos shown under the search filter: all of them without a filter or
/// with an empty one, else those that match it ignoring case.
pub open spec fn visible(ts: Seq<TaskV>, filter: Option<Seq<char>>) -> Seq<TaskV> {
    match filter {
        Some(f) => if f.len() == 0 {
            ts
        } else {
            matching(ts, lower(f))
        },
        None => ts,
    }
}

fn text_has(s: &str, needle: &Vec<char>) -> (b: bool)
    ensures
        b == contains(lower(s@), needle@),
{
    let l = lowercase(s);
    let v = chars_of(l.as_str());
    contains_exec(&v, needle)
}

fn task_matches_exec(t: &Task, needle: &Vec<char>) -> (b: bool)
    ensures
        b == task_matches(t@, needle@),
{
    if text_has(t.title.as_str(), needle) {
        return true;
    }
    match &t.notes {
        Some(n) => {
            if text_has(n.as_str(), needle) {
                return true;
            }
        },
        None => {},
    }
    let mut i: usize = 0;
    while i < t.tags.len()
        invariant
            i <= t.tags.len(),
            !contains(lower(t@.title), needle@),
            forall|j: int| 0 <= j < i ==> !#[trigger] contains(lower(t@.tags[j]), needle@),
        decreases t.tags.len() - i,
    {
        if text_has(t.tags[i].as_str(), needle) {
            assert(contains(lower(t@.tags[i as int]), needle@));
            return true;
        }
        i += 1;
    }
    false
}

impl App {
    /// The to-dos the task pane shows, under the search filter.
    pub fn visible_tasks(&self) -> (r: Vec<&Task>)
        ensures
            r@.map_values(|t: &Task| t@) == visible(tasks_view(self.tasks@), self.filter.deep_view()),
    {
        let ghost tv = tasks_view(self.tasks@);
        let needle: Vec<char> = match &self.filter {
            None => Vec::new(),
            Some(f) => {
                let l = lowercase(f.as_str());
                chars_of(l.as_str())
            },
        };
        let all = match &self.filter {
            None => true,
            Some(f) => f.as_str().is_empty(),
        };
        let mut out: Vec<&Task> = Vec::new();
        let mut i: usize = 0;
        while i < self.tasks.len()
            invariant
                i <= self.tasks.len(),
                tv == tasks_view(self.tasks@),
                all == (match self.filter.deep_view() {
                    Some(f) => f.len() == 0,
                    None => true,
                }),
                !all ==> needle@ == lower(self.filter.deep_view().unwrap()),
                all ==> out@.map_values(|t: &Task| t@) == tv.take(i as int),
                !all ==> out@.map_values(|t: &Task| t@) == matching(tv.take(i as int), needle@),
            decreases self.tasks.len() - i,
        {
            let t = &self.tasks[i];
            let ghost before = out@;
            proof {
                assert(tv.take(i + 1).drop_last() =~= tv.take(i as int));
                assert(tv.take(i + 1).last() == t@);
            }
            if all || task_matches_exec(t, &needle) {
                out.push(t);
                assert(out@.map_values(|t: &Task| t@) =~= before.map_values(|t: &Task| t@).push(t@));
            }
            i += 1;
        }
        assert(tv.take(self.tasks.len() as int) =~= tv);
        out
    }

    /// The to-do under the cursor in the task pane, if any.
    pub fn current_task(&self) -> (r: Option<&Task>)
        ensures
            match r {
                Some(t) => self.task_cursor < visible(tasks_view(self.tasks@), self.filter.deep_view()).len()
                    && t@ == visible(tasks_view(self.tasks@), self.filter.deep_view())[self.task_cursor as int],
                None => self.task_cursor >= visible(tasks_view(self.tasks@), self.filter.deep_view()).len(),
            },
    {
        let v = self.visible_tasks();
        if self.task_cursor < v.len() {
            let t = v[self.task_cursor];
            assert(v@.map_values(|t: &Task| t@)[self.task_cursor as int] == t@);
            Some(t)
        } else {
            None
        }
    }
}

/// `x` held within `[lo, hi]`.
pub open spec fn clamp(x: int, lo: int, hi: int) -> int {
    if x < lo {
        lo
    } else if x > hi {
        hi
    } else {
        x
    }
}

/// Bound on lengths and cursors that keeps the cursor arithmetic (in `i32`,
/// as the terminal client does it) exact.
pub open spec fn small(n: int) -> bool {
    0 <= n < 0x3fff_ffff
}

/// The state the state machine works on: the sidebar is not empty, and
/// lengths and cursors stay within [`small`].
pub open spec fn app_ok(s: AppV) -> bool {
    &&& 0 < s.sidebar_nodes.len()
    &&& small(s.sidebar_nodes.len() as int)
    &&& small(s.sidebar_cursor as int)
    &&& small(s.tasks.len() as int)
    &&& small(s.task_cursor as int)
}

/// The to-do under the cursor, among those shown.
pub open spec fn cur_task(s: AppV) -> Option<TaskV> {
    let v = visible(s.tasks, s.filter);
    if s.task_cursor < v.len() {
        Some(v[s.task_cursor as int])
    } else {
        None
    }
}

/// Going forward from `idx`, the first line the cursor may rest on.
pub open spec fn scan_forward(nodes: Seq<SidebarNodeV>, idx: int) -> Option<int>
    decreases nodes.len() - idx,
{
    if idx < 0 || idx >= nodes.len() {
        None
    } else if selectable(nodes[idx]) {
        Some(idx)
    } else {
        scan_forward(nodes, idx + 1)
    }
}

/// Going back from `idx`, the first line the cursor may rest on.
pub open spec fn scan_back(nodes: Seq<SidebarNodeV>, idx: int) -> Option<int>
    decreases idx + 1,
{
    if idx < 0 || idx >= nodes.len() {
        None
    } else if selectable(nodes[idx]) {
        Some(idx)
    } else {
        scan_back(nodes, idx - 1)
    }
}

/// Where the sidebar cursor lands when moved by `delta` from `cur`: the
/// target held within the lines, then the nearest line in the direction of
/// the move that is not a section header; where there is none, the old
/// position (held within the lines).
pub open spec fn sidebar_target(nodes: Seq<SidebarNodeV>, cur: int, delta: int) -> int {
    let last = nodes.len() - 1;
    let start = clamp(cur + delta, 0, last);
    let found = if delta >= 0 {
        scan_forward(nodes, start)
    } else {
        scan_back(nodes, start)
    };
    match found {
        Some(j) => j,
        None => clamp(cur, 0, last),
    }
}

/// What a sidebar line selects, if anything.
pub open spec fn node_selection(n: SidebarNodeV) -> Option<SelectionV> {
    match n {
        SidebarNodeV::SectionHeader(_) => None,
        SidebarNodeV::List(l) => Some(SelectionV::List(l)),
        SidebarNodeV::Area { id, .. } => Some(SelectionV::Area(id)),
        SidebarNodeV::Project { id, .. } => Some(SelectionV::Project(id)),
        SidebarNodeV::Tag { id, .. } => Some(SelectionV::Tag(id)),
    }
}

/// Selecting the sidebar line under the cursor: when it selects something
/// other than what is shown, the task pane empties and waits for that.
pub open spec fn activate_step(s: AppV) -> (AppV, Seq<RequestV>) {
    if s.sidebar_cursor < s.sidebar_nodes.len() {
        match node_selection(s.sidebar_nodes[s.sidebar_cursor as int]) {
            Some(sel) => if sel != s.selection {
                (
                    AppV { selection: sel, tasks: Seq::empty(), task_cursor: 0, tasks_loading: true, ..s },
                    seq![RequestV::LoadTasks(sel)],
                )
            } else {
                (s, Seq::empty())
            },
            None => (s, Seq::empty()),
        }
    } else {
        (s, Seq::empty())
    }
}

/// Moving the cursor of the focused pane by `delta`: in the sidebar to the
/// line [`sidebar_target`] names, which is then selected; in the task pane
/// held within the to-dos shown.
pub open spec fn move_step(s: AppV, delta: int) -> (AppV, Seq<RequestV>) {
    match s.focus {
        Pane::Sidebar => if s.sidebar_nodes.len() == 0 {
            (s, Seq::empty())
        } else {
            activate_step(
                AppV { sidebar_cursor: sidebar_target(s.sidebar_nodes, s.sidebar_cursor as int, delta) as usize, ..s },
            )
        },
        _ => {
            let len = visible(s.tasks, s.filter).len();
            if len == 0 {
                (AppV { task_cursor: 0, ..s }, Seq::empty())
            } else {
                (AppV { task_cursor: clamp(s.task_cursor + delta, 0, len - 1) as usize, ..s }, Seq::empty())
            }
        },
    }
}

/// Putting the cursor of the focused pane at `idx` (held within the lines);
/// in the sidebar a section header there sends it on by one line (down from
/// the top, else up), and the line is selected.
pub open spec fn set_step(s: AppV, idx: int) -> (AppV, Seq<RequestV>) {
    match s.focus {
        Pane::Sidebar => {
            let last = if s.sidebar_nodes.len() == 0 {
                0
            } else {
                s.sidebar_nodes.len() - 1
            };
            let s1 = AppV { sidebar_cursor: clamp(idx, 0, last) as usize, ..s };
            if !selectable(s.sidebar_nodes[clamp(idx, 0, last)]) {
                let (s2, r2) = move_step(s1, if idx == 0 {
                    1
                } else {
                    -1
                });
                let (s3, r3) = activate_step(s2);
                (s3, r2 + r3)
            } else {
                activate_step(s1)
            }
        },
        _ => {
            let len = visible(s.tasks, s.filter).len();
            let last = if len == 0 {
                0
            } else {
                len - 1
            };
            (AppV { task_cursor: clamp(idx, 0, last) as usize, ..s }, Seq::empty())
        },
    }
}

proof fn lemma_matching_len(ts: Seq<TaskV>, needle: Seq<char>)
    ensures
        matching(ts, needle).len() <= ts.len(),
    decreases ts.len(),
{
    if ts.len() > 0 {
        lemma_matching_len(ts.drop_last(), needle);
    }
}

/// No more to-dos are shown than there are.
pub proof fn lemma_visible_len(ts: Seq<TaskV>, filter: Option<Seq<char>>)
    ensures
        visible(ts, filter).len() <= ts.len(),
{
    match filter {
        Some(f) => if f.len() > 0 {
            lemma_matching_len(ts, lower(f));
        },
        None => {},
    }
}

fn clamp_i64(x: i64, lo: i64, hi: i64) -> (r: i64)
    requires
        lo <= hi,
    ensures
        r == clamp(x as int, lo as int, hi as int),
{
    if x < lo {
        lo
    } else if x > hi {
        hi
    } else {
        x
    }
}

impl App {
    /// Whether the state is one the state machine works on (see [`app_ok`]).
    pub fn is_ok(&self) -> (b: bool)
        ensures
            b == app_ok(self@),
    {
        0 < self.sidebar_nodes.len() && self.sidebar_nodes.len() < 0x3fff_ffff && self.sidebar_cursor
            < 0x3fff_ffff && self.tasks.len() < 0x3fff_ffff && self.task_cursor < 0x3fff_ffff
    }

    /// Whether the open dialog's cursors are within bounds (see [`modal_ok`]).
    pub fn modal_is_ok(&self) -> (b: bool)
        ensures
            b == modal_ok(self@.modal),
    {
        match &self.modal {
            Some(Modal::Schedule(f)) => f.selected < 0x3fff_ffff && f.choices.len() < 0x3fff_ffff,
            Some(Modal::Tags(f)) => f.cursor < 0x3fff_ffff && f.available.len() < 0x3fff_ffff,
            Some(Modal::MovePicker(f)) => f.cursor < 0x3fff_ffff && f.destinations.len() < 0x3fff_ffff,
            _ => true,
        }
    }

    /// Selects the sidebar line under the cursor.
    pub fn activate_sidebar_selection(&mut self) -> (reqs: Vec<Request>)
        ensures
            (final(self)@, requests_view(reqs@)) == activate_step(old(self)@),
    {
        let mut reqs: Vec<Request> = Vec::new();
        assert(requests_view(reqs@) =~= Seq::<RequestV>::empty());
        if self.sidebar_cursor >= self.sidebar_nodes.len() {
            return reqs;
        }
        let new_sel = match &self.sidebar_nodes[self.sidebar_cursor] {
            SidebarNode::SectionHeader(_) => {
                return reqs;
            },
            SidebarNode::List(l) => Selection::List(*l),
            SidebarNode::Area { id, .. } => Selection::Area(id.clone()),
            SidebarNode::Project { id, .. } => Selection::Project(id.clone()),
            SidebarNode::Tag { id, .. } => Selection::Tag(id.clone()),
        };
        assert(node_selection(self@.sidebar_nodes[self.sidebar_cursor as int]) == Some(new_sel@));
        if !new_sel.same_as(&self.selection) {
            self.selection = new_sel.copy();
            self.tasks.clear();
            self.task_cursor = 0;
            self.tasks_loading = true;
            reqs.push(Request::LoadTasks(new_sel));
            assert(requests_view(reqs@) =~= seq![RequestV::LoadTasks(self.selection@)]);
            assert(tasks_view(self.tasks@) =~= Seq::<TaskV>::empty());
        } else {
            assert(requests_view(reqs@) =~= Seq::<RequestV>::empty());
        }
        reqs
    }

    /// Moves the focused pane's cursor by `delta` (see [`move_step`]).
    pub fn move_cursor(&mut self, delta: i32) -> (reqs: Vec<Request>)
        requires
            app_ok(old(self)@),
        ensures
            (final(self)@, requests_view(reqs@)) == move_step(old(self)@, delta as int),
    {
        match self.focus {
            Pane::Sidebar => {
                let len = self.sidebar_nodes.len() as i64;
                let last = len - 1;
                let step: i64 = if delta >= 0 {
                    1
                } else {
                    -1
                };
                let mut idx = clamp_i64(self.sidebar_cursor as i64 + delta as i64, 0, last);
                let ghost nodes = self@.sidebar_nodes;
                let ghost start = idx as int;
                let ghost found = if delta >= 0 {
                    scan_forward(nodes, start)
                } else {
                    scan_back(nodes, start)
                };
                while idx >= 0 && idx < len && !self.sidebar_nodes[idx as usize].is_selectable()
                    invariant
                        len == self.sidebar_nodes.len(),
                        nodes == self@.sidebar_nodes,
                        small(len as int),
                        step == 1 || step == -1,
                        step == 1 <==> delta >= 0,
                        -1 <= idx <= len,
                        found == (if delta >= 0 {
                            scan_forward(nodes, idx as int)
                        } else {
                            scan_back(nodes, idx as int)
                        }),
                    decreases (if step > 0 {
                        len - idx
                    } else {
                        idx + 1
                    }),
                {
                    idx = idx + step;
                }
                if idx < 0 || idx >= len {
                    assert(found is None);
                    idx = clamp_i64(self.sidebar_cursor as i64, 0, last);
                } else {
                    assert(found == Some(idx as int));
                }
                let c = clamp_i64(idx, 0, last);
                self.sidebar_cursor = c as usize;
                self.activate_sidebar_selection()
            },
            Pane::List | Pane::Detail => {
                proof {
                    lemma_visible_len(self@.tasks, self@.filter);
                }
                let len = self.visible_tasks().len() as i64;
                if len == 0 {
                    self.task_cursor = 0;
                    return Vec::new();
                }
                let idx = clamp_i64(self.task_cursor as i64 + delta as i64, 0, len - 1);
                self.task_cursor = idx as usize;
                Vec::new()
            },
        }
    }
}

/// The text of an optional field, empty when absent.
pub open spec fn or_empty(o: Option<Seq<char>>) -> Seq<char> {
    match o {
        Some(t) => t,
        None => Seq::empty(),
    }
}

/// The edit form for a to-do: its fields, its tags joined with `, `, and the
/// title focused.
pub open spec fn edit_form_of(t: TaskV) -> EditTaskFormV {
    EditTaskFormV {
        task_id: t.id,
        title: t.title,
        notes: or_empty(t.notes),
        when: (None, or_empty(t.activation_date)),
        deadline: (None, or_empty(t.due_date)),
        tags: join(t.tags, ", "@),
        focused: NewTaskField::Title,
    }
}

/// Opening the edit form on the to-do under the cursor.
pub open spec fn open_edit_step(s: AppV) -> AppV {
    match cur_task(s) {
        Some(t) => AppV { modal: Some(ModalV::EditTask(edit_form_of(t))), ..s },
        None => s,
    }
}

/// The choices of the schedule dialog, in order.
pub open spec fn schedule_choices() -> Seq<DateChoice> {
    seq![
        DateChoice::Today,
        DateChoice::Tomorrow,
        DateChoice::ThisWeekend,
        DateChoice::NextWeek,
        DateChoice::Anytime,
        DateChoice::Someday,
        DateChoice::Specific,
        DateChoice::Clear,
    ]
}

/// Opening the schedule dialog on the to-do under the cursor.
pub open spec fn open_schedule_step(s: AppV) -> AppV {
    match cur_task(s) {
        Some(t) => AppV {
            modal: Some(
                ModalV::Schedule(
                    ScheduleFormV {
                        task_id: t.id,
                        task_title: t.title,
                        choices: schedule_choices(),
                        selected: 0,
                        specific_buffer: Seq::empty(),
                        editing_specific: false,
                    },
                ),
            ),
            ..s
        },
        None => s,
    }
}

/// Positions among the first `n` tag names of those the to-do carries.
pub open spec fn ticked(available: Seq<Seq<char>>, task_tags: Seq<Seq<char>>, n: int) -> Seq<usize>
    decreases n,
{
    if n <= 0 {
        Seq::empty()
    } else {
        let r = ticked(available, task_tags, n - 1);
        if task_tags.contains(available[n - 1]) {
            r.push((n - 1) as usize)
        } else {
            r
        }
    }
}

/// The names of the tags there are.
pub open spec fn tag_names_of(tags: Seq<(Seq<char>, Seq<char>)>) -> Seq<Seq<char>> {
    tags.map_values(|t: (Seq<char>, Seq<char>)| t.1)
}

/// Opening the tag dialog on the to-do under the cursor: all tag names, the
/// to-do's own ticked.
pub open spec fn open_tags_step(s: AppV) -> AppV {
    match cur_task(s) {
        Some(t) => {
            let av = tag_names_of(s.tags);
            AppV {
                modal: Some(
                    ModalV::Tags(
                        TagsFormV {
                            task_id: t.id,
                            task_title: t.title,
                            available: av,
                            selected_indices: ticked(av, t.tags, av.len() as int),
                            cursor: 0,
                        },
                    ),
                ),
                ..s
            }
        },
        None => s,
    }
}

/// The open projects as move destinations.
pub open spec fn project_dests(ps: Seq<ProjectV>) -> Seq<MoveDestV>
    decreases ps.len(),
{
    if ps.len() == 0 {
        Seq::empty()
    } else {
        let r = project_dests(ps.drop_last());
        if is_open(ps.last()) {
            r.push(MoveDestV::Project(ps.last().id, ps.last().title))
        } else {
            r
        }
    }
}

/// Where a to-do can be moved: Inbox, Today, Anytime, Someday, out of its
/// project and area, each open project, each area.
pub open spec fn move_dests(s: AppV) -> Seq<MoveDestV> {
    seq![
        MoveDestV::List(SpecialList::Inbox),
        MoveDestV::List(SpecialList::Today),
        MoveDestV::List(SpecialList::Anytime),
        MoveDestV::List(SpecialList::Someday),
        MoveDestV::Detach,
    ] + project_dests(s.projects) + s.areas.map_values(|a: (Seq<char>, Seq<char>)| MoveDestV::Area(a.0, a.1))
}

/// Opening the move dialog on the to-do under the cursor.
pub open spec fn open_move_step(s: AppV) -> AppV {
    match cur_task(s) {
        Some(t) => AppV {
            modal: Some(
                ModalV::MovePicker(MoveFormV { task_id: t.id, task_title: t.title, destinations: move_dests(s), cursor: 0 }),
            ),
            ..s
        },
        None => s,
    }
}

/// `k` is the first position of a to-do with id `id`.
pub open spec fn is_first_id(ts: Seq<TaskV>, id: Seq<char>, k: int) -> bool {
    0 <= k < ts.len() && ts[k].id == id && forall|j: int| 0 <= j < k ==> #[trigger] ts[j].id != id
}

/// The to-dos with the first one of id `id` marked completed.
pub open spec fn mark_done(ts: Seq<TaskV>, id: Seq<char>) -> Seq<TaskV> {
    if exists|k: int| is_first_id(ts, id, k) {
        let k = choose|k: int| is_first_id(ts, id, k);
        ts.update(k, TaskV { completed: true, ..ts[k] })
    } else {
        ts
    }
}

/// A change that only sets the list.
pub open spec fn set_list(l: Seq<char>) -> UpdateTaskV {
    UpdateTaskV { list: Some(l), ..no_change() }
}

/// Space on the to-do under the cursor: an open one is marked completed at
/// once and completed on the server; a completed one is sent back to Anytime.
pub open spec fn complete_step(s: AppV) -> (AppV, Seq<RequestV>) {
    match cur_task(s) {
        Some(t) => if !t.completed {
            (
                AppV { tasks: mark_done(s.tasks, t.id), ..s },
                seq![RequestV::Mutate { call: CallV::Complete(t.id), done: "Completed"@ }],
            )
        } else {
            (s, seq![RequestV::Mutate { call: CallV::Update(t.id, set_list("anytime"@)), done: "Reopened"@ }])
        },
        None => (s, Seq::empty()),
    }
}

/// `x` on the to-do under the cursor: it is canceled on the server.
pub open spec fn cancel_step(s: AppV) -> Seq<RequestV> {
    match cur_task(s) {
        Some(t) => seq![RequestV::Mutate { call: CallV::Cancel(t.id), done: "Canceled"@ }],
        None => Seq::empty(),
    }
}

proof fn lemma_first_id_unique(ts: Seq<TaskV>, id: Seq<char>, a: int, b: int)
    requires
        is_first_id(ts, id, a),
        is_first_id(ts, id, b),
    ensures
        a == b,
{
    if a < b {
        assert(ts[a].id != id);
    } else if b < a {
        assert(ts[b].id != id);
    }
}

fn clone_opt_text(o: &Option<String>) -> (r: String)
    ensures
        r@ == or_empty(o.deep_view()),
{
    match o {
        Some(t) => t.clone(),
        None => String::new(),
    }
}

impl App {
    /// Puts the focused pane's cursor at `idx` (see [`set_step`]).
    pub fn set_cursor(&mut self, idx: i32) -> (reqs: Vec<Request>)
        requires
            app_ok(old(self)@),
        ensures
            (final(self)@, requests_view(reqs@)) == set_step(old(self)@, idx as int),
    {
        match self.focus {
            Pane::Sidebar => {
                let last = (self.sidebar_nodes.len() - 1) as i64;
                let c = clamp_i64(idx as i64, 0, last);
                self.sidebar_cursor = c as usize;
                if !self.sidebar_nodes[self.sidebar_cursor].is_selectable() {
                    let mut r1 = self.move_cursor(if idx == 0 {
                        1
                    } else {
                        -1
                    });
                    let mut r2 = self.activate_sidebar_selection();
                    let ghost v1 = requests_view(r1@);
                    let ghost v2 = requests_view(r2@);
                    r1.append(&mut r2);
                    assert(requests_view(r1@) =~= v1 + v2);
                    r1
                } else {
                    self.activate_sidebar_selection()
                }
            },
            Pane::List | Pane::Detail => {
                proof {
                    lemma_visible_len(self@.tasks, self@.filter);
                }
                let len = self.visible_tasks().len() as i64;
                let last: i64 = if len == 0 {
                    0
                } else {
                    len - 1
                };
                self.task_cursor = clamp_i64(idx as i64, 0, last) as usize;
                let r: Vec<Request> = Vec::new();
                assert(requests_view(r@) =~= Seq::<RequestV>::empty());
                r
            },
        }
    }

    /// Opens the edit form on the to-do under the cursor.
    pub fn open_edit_modal(&mut self)
        ensures
            final(self)@ == open_edit_step(old(self)@),
    {
        let form = match self.current_task() {
            None => {
                return;
            },
            Some(t) => {
                let mut tags: Vec<char> = Vec::new();
                push_join(&mut tags, &t.tags, ", ");
                EditTaskForm {
                    task_id: t.id.clone(),
                    title: t.title.clone(),
                    notes: clone_opt_text(&t.notes),
                    when: DateField { choice: None, specific: clone_opt_text(&t.activation_date) },
                    deadline: DateField { choice: None, specific: clone_opt_text(&t.due_date) },
                    tags: string_from_chars(tags.as_slice()),
                    focused: NewTaskField::Title,
                }
            },
        };
        self.modal = Some(Modal::EditTask(form));
    }

    /// Opens the schedule dialog on the to-do under the cursor.
    pub fn open_schedule_modal(&mut self)
        ensures
            final(self)@ == open_schedule_step(old(self)@),
    {
        let (id, title) = match self.current_task() {
            None => {
                return;
            },
            Some(t) => (t.id.clone(), t.title.clone()),
        };
        let choices = vec![
            DateChoice::Today,
            DateChoice::Tomorrow,
            DateChoice::ThisWeekend,
            DateChoice::NextWeek,
            DateChoice::Anytime,
            DateChoice::Someday,
            DateChoice::Specific,
            DateChoice::Clear,
        ];
        assert(choices@ =~= schedule_choices());
        self.modal = Some(
            Modal::Schedule(
                ScheduleForm {
                    task_id: id,
                    task_title: title,
                    choices,
                    selected: 0,
                    specific_buffer: String::new(),
                    editing_specific: false,
                },
            ),
        );
    }

    /// Opens the tag dialog on the to-do under the cursor.
    pub fn open_tags_modal(&mut self)
        ensures
            final(self)@ == open_tags_step(old(self)@),
    {
        let form = match self.current_task() {
            None => {
                return;
            },
            Some(t) => {
                let ghost tv = crate::tui::state::tags_view(self.tags@);
                let mut available: Vec<String> = Vec::new();
                let mut i: usize = 0;
                while i < self.tags.len()
                    invariant
                        i <= self.tags.len(),
                        tv == crate::tui::state::tags_view(self.tags@),
                        available.deep_view() == tag_names_of(tv.take(i as int)),
                    decreases self.tags.len() - i,
                {
                    available.push(self.tags[i].name.clone());
                    assert(tag_names_of(tv.take(i + 1)) =~= tag_names_of(tv.take(i as int)).push(self.tags@[i as int].name@));
                    i += 1;
                }
                assert(tv.take(self.tags.len() as int) =~= tv);
                let ghost av = available.deep_view();
                let mut selected: Vec<usize> = Vec::new();
                let mut j: usize = 0;
                while j < available.len()
                    invariant
                        j <= available.len(),
                        av == available.deep_view(),
                        selected@ == ticked(av, t@.tags, j as int),
                    decreases available.len() - j,
                {
                    let mut k: usize = 0;
                    let mut found = false;
                    while k < t.tags.len()
                        invariant
                            k <= t.tags.len(),
                            j < available.len(),
                            av == available.deep_view(),
                            found == exists|m: int| 0 <= m < k && t@.tags[m] == av[j as int],
                        decreases t.tags.len() - k,
                    {
                        assert(t@.tags[k as int] == t.tags@[k as int]@);
                        assert(av[j as int] == available@[j as int]@);
                        if t.tags[k] == available[j] {
                            found = true;
                        }
                        k += 1;
                    }
                    proof {
                        if found {
                            let m = choose|m: int| 0 <= m < t.tags.len() && t@.tags[m] == av[j as int];
                            assert(t@.tags.contains(av[j as int]));
                        } else {
                            assert(!t@.tags.contains(av[j as int]));
                        }
                    }
                    if found {
                        selected.push(j);
                    }
                    j += 1;
                }
                TagsForm {
                    task_id: t.id.clone(),
                    task_title: t.title.clone(),
                    available,
                    selected_indices: selected,
                    cursor: 0,
                }
            },
        };
        self.modal = Some(Modal::Tags(form));
    }

    /// Opens the move dialog on the to-do under the cursor.
    pub fn open_move_modal(&mut self)
        ensures
            final(self)@ == open_move_step(old(self)@),
    {
        let form = match self.current_task() {
            None => {
                return;
            },
            Some(t) => {
                let mut dest: Vec<MoveDest> = Vec::new();
                dest.push(MoveDest::List(SpecialList::Inbox));
                dest.push(MoveDest::List(SpecialList::Today));
                dest.push(MoveDest::List(SpecialList::Anytime));
                dest.push(MoveDest::List(SpecialList::Someday));
                dest.push(MoveDest::Detach);
                let ghost head = dest@.map_values(|d: MoveDest| d@);
                let ghost pv = crate::tui::state::projects_view(self.projects@);
                let mut i: usize = 0;
                while i < self.projects.len()
                    invariant
                        i <= self.projects.len(),
                        pv == crate::tui::state::projects_view(self.projects@),
                        dest@.map_values(|d: MoveDest| d@) == head + project_dests(pv.take(i as int)),
                    decreases self.projects.len() - i,
                {
                    let p = &self.projects[i];
                    let ghost before = dest@.map_values(|d: MoveDest| d@);
                    assert(pv.take(i + 1).drop_last() =~= pv.take(i as int));
                    if !p.completed && !p.canceled {
                        dest.push(MoveDest::Project(p.id.clone(), p.title.clone()));
                        assert(dest@.map_values(|d: MoveDest| d@) =~= before.push(MoveDestV::Project(p.id@, p.title@)));
                    }
                    i += 1;
                }
                assert(pv.take(self.projects.len() as int) =~= pv);
                let ghost mid = dest@.map_values(|d: MoveDest| d@);
                let ghost av = crate::tui::state::areas_view(self.areas@);
                let mut k: usize = 0;
                while k < self.areas.len()
                    invariant
                        k <= self.areas.len(),
                        av == crate::tui::state::areas_view(self.areas@),
                        dest@.map_values(|d: MoveDest| d@) == mid + av.take(k as int).map_values(
                            |a: (Seq<char>, Seq<char>)| MoveDestV::Area(a.0, a.1),
                        ),
                    decreases self.areas.len() - k,
                {
                    let a = &self.areas[k];
                    let ghost before = dest@.map_values(|d: MoveDest| d@);
                    dest.push(MoveDest::Area(a.id.clone(), a.title.clone()));
                    assert(dest@.map_values(|d: MoveDest| d@) =~= before.push(MoveDestV::Area(a.id@, a.title@)));
                    assert(av.take(k + 1).map_values(|a: (Seq<char>, Seq<char>)| MoveDestV::Area(a.0, a.1))
                        =~= av.take(k as int).map_values(|a: (Seq<char>, Seq<char>)| MoveDestV::Area(a.0, a.1)).push(
                        MoveDestV::Area(a.id@, a.title@),
                    ));
                    k += 1;
                }
                assert(av.take(self.areas.len() as int) =~= av);
                assert(dest@.map_values(|d: MoveDest| d@) =~= move_dests(self@));
                MoveForm { task_id: t.id.clone(), task_title: t.title.clone(), destinations: dest, cursor: 0 }
            },
        };
        self.modal = Some(Modal::MovePicker(form));
    }

    /// Completes, or reopens, the to-do under the cursor (see [`complete_step`]).
    pub fn toggle_complete(&mut self) -> (reqs: Vec<Request>)
        ensures
            (final(self)@, requests_view(reqs@)) == complete_step(old(self)@),
    {
        let (id, done) = match self.current_task() {
            None => {
                let r: Vec<Request> = Vec::new();
                assert(requests_view(r@) =~= Seq::<RequestV>::empty());
                return r;
            },
            Some(t) => (t.id.clone(), t.completed),
        };
        let mut reqs: Vec<Request> = Vec::new();
        if !done {
            let ghost tv = tasks_view(self.tasks@);
            let mut k: usize = 0;
            while k < self.tasks.len() && self.tasks[k].id != id
                invariant
                    k <= self.tasks.len(),
                    tv == tasks_view(self.tasks@),
                    forall|j: int| 0 <= j < k ==> #[trigger] tv[j].id != id@,
                decreases self.tasks.len() - k,
            {
                k += 1;
            }
            if k < self.tasks.len() {
                proof {
                    assert(is_first_id(tv, id@, k as int));
                    let c = choose|c: int| is_first_id(tv, id@, c);
                    lemma_first_id_unique(tv, id@, c, k as int);
                }
                let mut t = self.tasks.remove(k);
                t.completed = true;
                self.tasks.insert(k, t);
                assert(tasks_view(self.tasks@) =~= mark_done(tv, id@));
            } else {
                proof {
                    if exists|c: int| is_first_id(tv, id@, c) {
                        let c = choose|c: int| is_first_id(tv, id@, c);
                        assert(tv[c].id == id@);
                    }
                }
                assert(tasks_view(self.tasks@) =~= mark_done(tv, id@));
            }
            reqs.push(Request::Mutate { call: Call::Complete(id), done: String::from_str("Completed") });
        } else {
            let mut body = UpdateTask::empty();
            body.list = Some(String::from_str("anytime"));
            reqs.push(Request::Mutate { call: Call::Update(id, body), done: String::from_str("Reopened") });
        }
        assert(requests_view(reqs@) =~= complete_step(old(self)@).1);
        reqs
    }

    /// Cancels the to-do under the cursor.
    pub fn toggle_cancel(&self) -> (reqs: Vec<Request>)
        ensures
            requests_view(reqs@) == cancel_step(self@),
    {
        let mut reqs: Vec<Request> = Vec::new();
        match self.current_task() {
            None => {},
            Some(t) => {
                reqs.push(Request::Mutate { call: Call::Cancel(t.id.clone()), done: String::from_str("Canceled") });
            },
        }
        assert(requests_view(reqs@) =~= cancel_step(self@));
        reqs
    }
}

/// The first project with id `id`.
pub open spec fn find_project(ps: Seq<ProjectV>, id: Seq<char>) -> Option<ProjectV>
    decreases ps.len(),
{
    if ps.len() == 0 {
        None
    } else if ps[0].id == id {
        Some(ps[0])
    } else {
        find_project(ps.drop_first(), id)
    }
}

/// The first area with id `id`.
pub open spec fn find_area(areas: Seq<(Seq<char>, Seq<char>)>, id: Seq<char>) -> Option<(Seq<char>, Seq<char>)>
    decreases areas.len(),
{
    if areas.len() == 0 {
        None
    } else if areas[0].0 == id {
        Some(areas[0])
    } else {
        find_area(areas.drop_first(), id)
    }
}

/// The to-do the new-task form asks for, on day number `today`, placed by
/// what is shown: Inbox (also for Logbook and Trash) and Anytime (also for
/// Upcoming) and Someday set the list, Today schedules it for today unless a
/// date was given, a project or area shown files it there.
pub open spec fn new_task_body(s: AppV, f: NewTaskFormV, today: int) -> CreateTaskV {
    let b = CreateTaskV {
        title: trim(f.title),
        notes: opt_text(f.notes),
        due_date: when_text(f.deadline, today),
        activation_date: when_text(f.when, today),
        list: None,
        tags: parsed_tags(f.tags),
        project: None,
        area: None,
    };
    match s.selection {
        SelectionV::List(l) => match l {
            SpecialList::Inbox => CreateTaskV { list: Some("inbox"@), ..b },
            SpecialList::Today => CreateTaskV {
                activation_date: if b.activation_date is Some {
                    b.activation_date
                } else {
                    Some("today"@)
                },
                ..b
            },
            SpecialList::Upcoming => CreateTaskV { list: Some("anytime"@), ..b },
            SpecialList::Anytime => CreateTaskV { list: Some("anytime"@), ..b },
            SpecialList::Someday => CreateTaskV { list: Some("someday"@), ..b },
            SpecialList::Logbook => CreateTaskV { list: Some("inbox"@), ..b },
            SpecialList::Trash => CreateTaskV { list: Some("inbox"@), ..b },
        },
        SelectionV::Project(id) => match find_project(s.projects, id) {
            Some(p) => CreateTaskV { project: Some(p.title), ..b },
            None => b,
        },
        SelectionV::Area(id) => match find_area(s.areas, id) {
            Some(a) => CreateTaskV { area: Some(a.1), ..b },
            None => b,
        },
        SelectionV::Tag(_) => b,
    }
}

/// The toast for a form sent without a title.
pub open spec fn title_required() -> (Seq<char>, ToastKind) {
    ("Title is required"@, ToastKind::Error)
}

/// Sending the new-task form: refused with a toast when the title is blank,
/// else the to-do of [`new_task_body`] is created.
pub open spec fn new_task_step(s: AppV, f: NewTaskFormV, today: int) -> (AppV, Seq<RequestV>) {
    if trim(f.title).len() == 0 {
        (AppV { toast: Some(title_required()), ..s }, Seq::empty())
    } else {
        (s, seq![RequestV::Mutate { call: CallV::CreateTask(new_task_body(s, f, today)), done: "Task created"@ }])
    }
}

/// A new to-do lands where the user is looking: with Inbox, Anytime or
/// Someday shown it is created in that list (its key is the shown list's
/// name in lower case, and the server reads that key back as the shown
/// list); with Today shown it is scheduled for the date given, else for
/// today; with a known project or area shown it is filed under it. Its
/// title is the form's title, trimmed.
pub proof fn law_new_task_lands_where_shown(s: AppV, f: NewTaskFormV, today: int)
    requires
        trim(f.title).len() > 0,
    ensures
        new_task_step(s, f, today).0 == s,
        new_task_step(s, f, today).1.len() == 1,
        new_task_step(s, f, today).1[0] matches RequestV::Mutate { call: CallV::CreateTask(b), .. } && {
            &&& b.title == trim(f.title)
            &&& forall|l: SpecialList|
                (l == SpecialList::Inbox || l == SpecialList::Anytime || l == SpecialList::Someday) && s.selection
                    == SelectionV::List(l) ==> b.list == Some(crate::tui::state::ascii_lower(
                    crate::tui::state::list_label(l),
                )) && crate::script::list_name_spec(b.list) == crate::tui::state::list_label(l)
                    && b.project is None && b.area is None
            &&& s.selection == SelectionV::List(SpecialList::Today) ==> b.list is None && b.activation_date
                == (if when_text(f.when, today) is Some {
                when_text(f.when, today)
            } else {
                Some("today"@)
            })
            &&& forall|id: Seq<char>, p: ProjectV|
                s.selection == SelectionV::Project(id) && find_project(s.projects, id) == Some(p) ==> b.project
                    == Some(p.title) && b.list is None
            &&& forall|id: Seq<char>, a: (Seq<char>, Seq<char>)|
                s.selection == SelectionV::Area(id) && find_area(s.areas, id) == Some(a) ==> b.area == Some(a.1)
                    && b.list is None
        },
{
    crate::tui::state::law_list_keys(SpecialList::Inbox);
    crate::tui::state::law_list_keys(SpecialList::Anytime);
    crate::tui::state::law_list_keys(SpecialList::Someday);
}

/// The change the edit form asks for: title, notes and tags as they stand
/// (no tags clears them), the dates as the fields give them.
pub open spec fn edit_body(f: EditTaskFormV, today: int) -> UpdateTaskV {
    UpdateTaskV {
        title: Some(f.title),
        notes: Some(f.notes),
        due_date: when_text(f.deadline, today),
        activation_date: when_text(f.when, today),
        list: None,
        tags: Some(
            match parsed_tags(f.tags) {
                Some(t) => t,
                None => Seq::empty(),
            },
        ),
        project: None,
        area: None,
    }
}

/// Sending the new-project form: refused with a toast when the title is
/// blank, else the project is created.
pub open spec fn new_project_step(s: AppV, f: NewProjectFormV) -> (AppV, Seq<RequestV>) {
    if trim(f.title).len() == 0 {
        (AppV { toast: Some(title_required()), ..s }, Seq::empty())
    } else {
        (
            s,
            seq![
                RequestV::Mutate {
                    call: CallV::CreateProject(
                        CreateProjectV { title: trim(f.title), notes: opt_text(f.notes), area: opt_text(f.area), tags: None },
                    ),
                    done: "Project created"@,
                },
            ],
        )
    }
}

/// The date text a schedule choice stands for, on day number `today`.
pub open spec fn schedule_date(c: DateChoice, buffer: Seq<char>, today: int) -> Seq<char> {
    match c {
        DateChoice::Today => "today"@,
        DateChoice::Tomorrow => day_text(today + 1),
        DateChoice::ThisWeekend => day_text(today + days_until(today, 6)),
        DateChoice::NextWeek => day_text(today + days_until(today, 1)),
        DateChoice::Anytime => "anytime"@,
        DateChoice::Someday => "someday"@,
        DateChoice::Clear => Seq::empty(),
        DateChoice::Specific => buffer,
    }
}

/// The change for a schedule text: "anytime", "someday" and "inbox" move the
/// to-do to that list, any other text is its new start date.
pub open spec fn schedule_body(date: Seq<char>) -> UpdateTaskV {
    if date == "today"@ || date == "tomorrow"@ {
        UpdateTaskV { activation_date: Some(date), ..no_change() }
    } else if date == "anytime"@ || date == "someday"@ || date == "inbox"@ {
        UpdateTaskV { list: Some(date), ..no_change() }
    } else {
        UpdateTaskV { activation_date: Some(date), ..no_change() }
    }
}

/// Finishing the schedule dialog with its selected choice.
pub open spec fn schedule_requests(f: ScheduleFormV, today: int) -> Seq<RequestV> {
    if f.selected < f.choices.len() {
        seq![
            RequestV::Mutate {
                call: CallV::Update(f.task_id, schedule_body(schedule_date(f.choices[f.selected as int], f.specific_buffer, today))),
                done: "Rescheduled"@,
            },
        ]
    } else {
        Seq::empty()
    }
}

/// The names at the ticked positions, in ticking order (positions past the
/// end are skipped).
pub open spec fn picked(available: Seq<Seq<char>>, sel: Seq<usize>) -> Seq<Seq<char>>
    decreases sel.len(),
{
    if sel.len() == 0 {
        Seq::empty()
    } else {
        let r = picked(available, sel.drop_last());
        if sel.last() < available.len() {
            r.push(available[sel.last() as int])
        } else {
            r
        }
    }
}

/// Finishing the tag dialog: the to-do's tags become the ticked ones.
pub open spec fn tags_requests(f: TagsFormV) -> Seq<RequestV> {
    seq![
        RequestV::Mutate {
            call: CallV::Update(f.task_id, UpdateTaskV { tags: Some(picked(f.available, f.selected_indices)), ..no_change() }),
            done: "Tags updated"@,
        },
    ]
}

/// The change that moves a to-do to a destination.
pub open spec fn move_body(d: MoveDestV) -> UpdateTaskV {
    match d {
        MoveDestV::List(l) => UpdateTaskV { list: Some(list_value(l)), ..no_change() },
        MoveDestV::Project(_, title) => UpdateTaskV { project: Some(title), ..no_change() },
        MoveDestV::Area(_, title) => UpdateTaskV { area: Some(title), ..no_change() },
        MoveDestV::Detach => UpdateTaskV { project: Some(Seq::empty()), area: Some(Seq::empty()), ..no_change() },
    }
}

/// Finishing the move dialog with the destination under its cursor.
pub open spec fn move_requests(f: MoveFormV) -> Seq<RequestV> {
    if f.cursor < f.destinations.len() {
        seq![RequestV::Mutate { call: CallV::Update(f.task_id, move_body(f.destinations[f.cursor as int])), done: "Moved"@ }]
    } else {
        Seq::empty()
    }
}

fn one_request(r: Request) -> (v: Vec<Request>)
    ensures
        requests_view(v@) == seq![r@],
{
    let mut v: Vec<Request> = Vec::new();
    v.push(r);
    assert(requests_view(v@) =~= seq![r@]);
    v
}

fn no_requests() -> (v: Vec<Request>)
    ensures
        requests_view(v@) == Seq::<RequestV>::empty(),
{
    let v: Vec<Request> = Vec::new();
    assert(requests_view(v@) =~= Seq::<RequestV>::empty());
    v
}

fn title_toast() -> (t: StatusToast)
    ensures
        t@ == title_required(),
{
    StatusToast { text: String::from_str("Title is required"), kind: ToastKind::Error }
}

impl App {
    /// The title of the first project with id `id`.
    fn project_title(&self, id: &String) -> (r: Option<String>)
        ensures
            r.deep_view() == (match find_project(crate::tui::state::projects_view(self.projects@), id@) {
                Some(p) => Some(p.title),
                None => None,
            }),
    {
        let ghost pv = crate::tui::state::projects_view(self.projects@);
        let mut i: usize = 0;
        assert(pv.subrange(0, pv.len() as int) =~= pv);
        while i < self.projects.len()
            invariant
                i <= self.projects.len(),
                pv == crate::tui::state::projects_view(self.projects@),
                find_project(pv, id@) == find_project(pv.subrange(i as int, pv.len() as int), id@),
            decreases self.projects.len() - i,
        {
            assert(pv.subrange(i as int, pv.len() as int).drop_first() =~= pv.subrange(i + 1, pv.len() as int));
            if self.projects[i].id == *id {
                return Some(self.projects[i].title.clone());
            }
            i += 1;
        }
        None
    }

    /// The title of the first area with id `id`.
    fn area_title(&self, id: &String) -> (r: Option<String>)
        ensures
            r.deep_view() == (match find_area(crate::tui::state::areas_view(self.areas@), id@) {
                Some(a) => Some(a.1),
                None => None,
            }),
    {
        let ghost av = crate::tui::state::areas_view(self.areas@);
        let mut i: usize = 0;
        assert(av.subrange(0, av.len() as int) =~= av);
        while i < self.areas.len()
            invariant
                i <= self.areas.len(),
                av == crate::tui::state::areas_view(self.areas@),
                find_area(av, id@) == find_area(av.subrange(i as int, av.len() as int), id@),
            decreases self.areas.len() - i,
        {
            assert(av.subrange(i as int, av.len() as int).drop_first() =~= av.subrange(i + 1, av.len() as int));
            if self.areas[i].id == *id {
                return Some(self.areas[i].title.clone());
            }
            i += 1;
        }
        None
    }

    /// Sends the new-task form (see [`new_task_step`]); `today` is the
    /// current day number.
    pub fn finish_new_task(&mut self, form: &NewTaskForm, today: i64) -> (reqs: Vec<Request>)
        requires
            day_ok(today as int),
        ensures
            (final(self)@, requests_view(reqs@)) == new_task_step(old(self)@, form@, today as int),
    {
        let title = trimmed(form.title.as_str());
        if title.as_str().is_empty() {
            self.toast = Some(title_toast());
            return no_requests();
        }
        let mut body = CreateTask {
            title,
            notes: opt_string(form.notes.as_str()),
            due_date: when_to_date(&form.deadline, today),
            activation_date: when_to_date(&form.when, today),
            list: None,
            tags: parse_tags(form.tags.as_str()),
            project: None,
            area: None,
        };
        match &self.selection {
            Selection::List(l) => match l {
                SpecialList::Inbox => body.list = Some(String::from_str("inbox")),
                SpecialList::Today => {
                    if body.activation_date.is_none() {
                        body.activation_date = Some(String::from_str("today"));
                    }
                },
                SpecialList::Upcoming | SpecialList::Anytime => body.list = Some(String::from_str("anytime")),
                SpecialList::Someday => body.list = Some(String::from_str("someday")),
                SpecialList::Logbook | SpecialList::Trash => body.list = Some(String::from_str("inbox")),
            },
            Selection::Project(id) => {
                match self.project_title(id) {
                    Some(t) => body.project = Some(t),
                    None => {},
                }
            },
            Selection::Area(id) => {
                match self.area_title(id) {
                    Some(t) => body.area = Some(t),
                    None => {},
                }
            },
            Selection::Tag(_) => {},
        }
        one_request(Request::Mutate { call: Call::CreateTask(body), done: String::from_str("Task created") })
    }

    /// Sends the edit form: the to-do gets the form's fields.
    pub fn finish_edit_task(&self, form: &EditTaskForm, today: i64) -> (reqs: Vec<Request>)
        requires
            day_ok(today as int),
        ensures
            requests_view(reqs@) == seq![
                RequestV::Mutate { call: CallV::Update(form.task_id@, edit_body(form@, today as int)), done: "Saved"@ },
            ],
    {
        let tags = match parse_tags(form.tags.as_str()) {
            Some(t) => t,
            None => Vec::new(),
        };
        let body = UpdateTask {
            title: Some(form.title.clone()),
            notes: Some(form.notes.clone()),
            due_date: when_to_date(&form.deadline, today),
            activation_date: when_to_date(&form.when, today),
            list: None,
            tags: Some(tags),
            project: None,
            area: None,
        };
        proof {
            assert(body@.tags == edit_body(form@, today as int).tags);
        }
        one_request(Request::Mutate { call: Call::Update(form.task_id.clone(), body), done: String::from_str("Saved") })
    }

    /// Sends the new-project form (see [`new_project_step`]).
    pub fn finish_new_project(&mut self, form: &NewProjectForm) -> (reqs: Vec<Request>)
        ensures
            (final(self)@, requests_view(reqs@)) == new_project_step(old(self)@, form@),
    {
        let title = trimmed(form.title.as_str());
        if title.as_str().is_empty() {
            self.toast = Some(title_toast());
            return no_requests();
        }
        let body = CreateProject {
            title,
            notes: opt_string(form.notes.as_str()),
            area: opt_string(form.area.as_str()),
            tags: None,
        };
        one_request(Request::Mutate { call: Call::CreateProject(body), done: String::from_str("Project created") })
    }

    /// Finishes the schedule dialog (see [`schedule_requests`]).
    pub fn finish_schedule(&self, form: &ScheduleForm, today: i64) -> (reqs: Vec<Request>)
        requires
            day_ok(today as int),
        ensures
            requests_view(reqs@) == schedule_requests(form@, today as int),
    {
        if form.selected >= form.choices.len() {
            return no_requests();
        }
        let choice = form.choices[form.selected];
        let date: String = match choice {
            DateChoice::Today => String::from_str("today"),
            DateChoice::Tomorrow => tomorrow_after(today),
            DateChoice::ThisWeekend => next_saturday_after(today),
            DateChoice::NextWeek => next_monday_after(today),
            DateChoice::Anytime => String::from_str("anytime"),
            DateChoice::Someday => String::from_str("someday"),
            DateChoice::Clear => String::new(),
            DateChoice::Specific => form.specific_buffer.clone(),
        };
        let mut body = UpdateTask::empty();
        let d = date.as_str();
        if str_eq(d, "today") || str_eq(d, "tomorrow") {
            body.activation_date = Some(date);
        } else if str_eq(d, "anytime") || str_eq(d, "someday") || str_eq(d, "inbox") {
            body.list = Some(date);
        } else {
            body.activation_date = Some(date);
        }
        one_request(Request::Mutate { call: Call::Update(form.task_id.clone(), body), done: String::from_str("Rescheduled") })
    }

    /// Finishes the tag dialog (see [`tags_requests`]).
    pub fn finish_tags(&self, form: &TagsForm) -> (reqs: Vec<Request>)
        ensures
            requests_view(reqs@) == tags_requests(form@),
    {
        let ghost av = form.available.deep_view();
        let mut tags: Vec<String> = Vec::new();
        let mut i: usize = 0;
        while i < form.selected_indices.len()
            invariant
                i <= form.selected_indices.len(),
                av == form.available.deep_view(),
                tags.deep_view() == picked(av, form.selected_indices@.take(i as int)),
            decreases form.selected_indices.len() - i,
        {
            let k = form.selected_indices[i];
            assert(form.selected_indices@.take(i + 1).drop_last() =~= form.selected_indices@.take(i as int));
            if k < form.available.len() {
                tags.push(form.available[k].clone());
                assert(tags.deep_view() =~= picked(av, form.selected_indices@.take(i as int)).push(av[k as int]));
            }
            i += 1;
        }
        assert(form.selected_indices@.take(form.selected_indices.len() as int) =~= form.selected_indices@);
        let mut body = UpdateTask::empty();
        body.tags = Some(tags);
        one_request(Request::Mutate { call: Call::Update(form.task_id.clone(), body), done: String::from_str("Tags updated") })
    }

    /// Finishes the move dialog (see [`move_requests`]).
    pub fn finish_move(&self, form: &MoveForm) -> (reqs: Vec<Request>)
        ensures
            requests_view(reqs@) == move_requests(form@),
    {
        if form.cursor >= form.destinations.len() {
            return no_requests();
        }
        let mut body = UpdateTask::empty();
        match &form.destinations[form.cursor] {
            MoveDest::List(l) => body.list = Some(String::from_str(l.api_value())),
            MoveDest::Project(_, title) => body.project = Some(title.clone()),
            MoveDest::Area(_, title) => body.area = Some(title.clone()),
            MoveDest::Detach => {
                body.project = Some(String::new());
                body.area = Some(String::new());
            },
        }
        one_request(Request::Mutate { call: Call::Update(form.task_id.clone(), body), done: String::from_str("Moved") })
    }

    /// Moves the to-do with id `id` to the trash.
    pub fn finish_delete(&self, id: &str) -> (reqs: Vec<Request>)
        ensures
            requests_view(reqs@) == seq![RequestV::Mutate { call: CallV::Delete(id@), done: "Moved to Trash"@ }],
    {
        one_request(Request::Mutate { call: Call::Delete(String::from_str(id)), done: String::from_str("Moved to Trash") })
    }

    /// Empties the trash.
    pub fn finish_empty_trash(&self) -> (reqs: Vec<Request>)
        ensures
            requests_view(reqs@) == seq![RequestV::Mutate { call: CallV::EmptyTrash, done: "Trash emptied"@ }],
    {
        one_request(Request::Mutate { call: Call::EmptyTrash, done: String::from_str("Trash emptied") })
    }
}

/// The forms of the dialog keep their cursors within [`small`].
pub open spec fn modal_ok(m: Option<ModalV>) -> bool {
    match m {
        Some(ModalV::Schedule(f)) => small(f.selected as int) && small(f.choices.len() as int),
        Some(ModalV::Tags(f)) => small(f.cursor as int) && small(f.available.len() as int),
        Some(ModalV::MovePicker(f)) => small(f.cursor as int) && small(f.destinations.len() as int),
        _ => true,
    }
}

/// The empty to-do form.
pub open spec fn blank_task_form() -> NewTaskFormV {
    NewTaskFormV {
        title: Seq::empty(),
        notes: Seq::empty(),
        when: (None, Seq::empty()),
        deadline: (None, Seq::empty()),
        tags: Seq::empty(),
        focused: NewTaskField::Title,
    }
}

/// The empty project form.
pub open spec fn blank_project_form() -> NewProjectFormV {
    NewProjectFormV { title: Seq::empty(), notes: Seq::empty(), area: Seq::empty(), focused: NewProjectField::Title }
}

/// What an action of browse mode does.
pub open spec fn browse_step(s: AppV, a: Action) -> (AppV, Seq<RequestV>) {
    match a {
        Action::Quit => (AppV { should_quit: true, ..s }, Seq::empty()),
        Action::Help => (AppV { modal: Some(ModalV::Help), ..s }, Seq::empty()),
        Action::Refresh => (
            AppV { toast: Some(("Refreshing\u{2026}"@, ToastKind::Info)), ..s },
            seq![RequestV::LoadSidebar, RequestV::LoadTasks(s.selection)],
        ),
        Action::Up => move_step(s, -1),
        Action::Down => move_step(s, 1),
        Action::PageUp => move_step(s, -10),
        Action::PageDown => move_step(s, 10),
        Action::Top => set_step(s, 0),
        Action::Bottom => set_step(s, 0x7fff_ffff),
        Action::FocusLeft => (AppV { focus: Pane::Sidebar, ..s }, Seq::empty()),
        Action::FocusRight => (AppV { focus: s.focus.next_spec(), ..s }, Seq::empty()),
        Action::FocusNext => (AppV { focus: s.focus.next_spec(), ..s }, Seq::empty()),
        Action::FocusPrev => (AppV { focus: s.focus.prev_spec(), ..s }, Seq::empty()),
        Action::OpenEdit => match s.focus {
            Pane::Sidebar => activate_step(s),
            _ => (open_edit_step(s), Seq::empty()),
        },
        Action::ToggleComplete => complete_step(s),
        Action::ToggleCancel => (s, cancel_step(s)),
        Action::NewTask => (AppV { modal: Some(ModalV::NewTask(blank_task_form())), ..s }, Seq::empty()),
        Action::NewProject => (AppV { modal: Some(ModalV::NewProject(blank_project_form())), ..s }, Seq::empty()),
        Action::Delete => match cur_task(s) {
            Some(t) => (AppV { modal: Some(ModalV::ConfirmDelete(t.id, t.title)), ..s }, Seq::empty()),
            None => (s, Seq::empty()),
        },
        Action::EmptyTrash => if s.selection == SelectionV::List(SpecialList::Trash) {
            (AppV { modal: Some(ModalV::ConfirmEmptyTrash), ..s }, Seq::empty())
        } else {
            (s, Seq::empty())
        },
        Action::Schedule => (open_schedule_step(s), Seq::empty()),
        Action::Tags => (open_tags_step(s), Seq::empty()),
        Action::Move => (open_move_step(s), Seq::empty()),
        Action::Search => (AppV { modal: Some(ModalV::Search(Seq::empty())), ..s }, Seq::empty()),
        Action::ShowQuickEntry => (
            s,
            seq![RequestV::Mutate { call: CallV::ShowQuickEntry, done: "Quick Entry opened"@ }],
        ),
    }
}

/// The to-do form after a key.
pub open spec fn task_form_after(f: NewTaskFormV, key: KeyPress) -> NewTaskFormV {
    let r = task_form_key(f.title, f.notes, f.when.1, f.deadline.1, f.tags, f.focused, key);
    NewTaskFormV { title: r.0, notes: r.1, when: (f.when.0, r.2), deadline: (f.deadline.0, r.3), tags: r.4, focused: r.5 }
}

/// The edit form after a key.
pub open spec fn edit_form_after(f: EditTaskFormV, key: KeyPress) -> EditTaskFormV {
    let r = task_form_key(f.title, f.notes, f.when.1, f.deadline.1, f.tags, f.focused, key);
    EditTaskFormV {
        task_id: f.task_id,
        title: r.0,
        notes: r.1,
        when: (f.when.0, r.2),
        deadline: (f.deadline.0, r.3),
        tags: r.4,
        focused: r.5,
    }
}

/// The project form after a key.
pub open spec fn project_form_after(f: NewProjectFormV, key: KeyPress) -> NewProjectFormV {
    let r = project_form_key(f.title, f.notes, f.area, f.focused, key);
    NewProjectFormV { title: r.0, notes: r.1, area: r.2, focused: r.3 }
}

/// Control-S, which sends a form as it stands.
pub open spec fn is_send(key: KeyPress) -> bool {
    key.code == KeyCode::Char('s') && key.ctrl
}

/// `y`, `Y` or Enter, which confirm.
pub open spec fn is_yes(key: KeyPress) -> bool {
    key.code == KeyCode::Char('y') || key.code == KeyCode::Char('Y') || key.code == KeyCode::Enter
}

/// What a key does while dialog `m` is open, on day number `today`: the
/// dialog is taken down, and put back (changed by the key) unless the key
/// finished it. Help closes on any key, the empty-trash question on any key
/// (emptying the trash on yes), the delete question only on yes.
pub open spec fn modal_key_step(s: AppV, m: ModalV, key: KeyPress, today: int) -> (AppV, Seq<RequestV>) {
    let s0 = AppV { modal: None, ..s };
    match m {
        ModalV::Help => (s0, Seq::empty()),
        ModalV::Search(buf) => if key.code == KeyCode::Enter {
            (AppV {
                filter: if buf.len() == 0 {
                    None
                } else {
                    Some(buf)
                },
                task_cursor: 0,
                ..s0
            }, Seq::empty())
        } else {
            (AppV { modal: Some(ModalV::Search(edited(buf, key))), ..s0 }, Seq::empty())
        },
        ModalV::NewTask(f) => if is_send(key) {
            new_task_step(s0, f, today)
        } else {
            (AppV { modal: Some(ModalV::NewTask(task_form_after(f, key))), ..s0 }, Seq::empty())
        },
        ModalV::EditTask(f) => if is_send(key) {
            (s0, seq![RequestV::Mutate { call: CallV::Update(f.task_id, edit_body(f, today)), done: "Saved"@ }])
        } else {
            (AppV { modal: Some(ModalV::EditTask(edit_form_after(f, key))), ..s0 }, Seq::empty())
        },
        ModalV::NewProject(f) => if is_send(key) {
            new_project_step(s0, f)
        } else {
            (AppV { modal: Some(ModalV::NewProject(project_form_after(f, key))), ..s0 }, Seq::empty())
        },
        ModalV::Schedule(f) => {
            let (f2, done) = schedule_key(f, key);
            if done {
                (s0, schedule_requests(f2, today))
            } else {
                (AppV { modal: Some(ModalV::Schedule(f2)), ..s0 }, Seq::empty())
            }
        },
        ModalV::Tags(f) => {
            let (f2, done) = tags_key(f, key);
            if done {
                (s0, tags_requests(f2))
            } else {
                (AppV { modal: Some(ModalV::Tags(f2)), ..s0 }, Seq::empty())
            }
        },
        ModalV::MovePicker(f) => {
            let (f2, done) = move_key(f, key);
            if done {
                (s0, move_requests(f2))
            } else {
                (AppV { modal: Some(ModalV::MovePicker(f2)), ..s0 }, Seq::empty())
            }
        },
        ModalV::ConfirmEmptyTrash => if is_yes(key) {
            (s0, seq![RequestV::Mutate { call: CallV::EmptyTrash, done: "Trash emptied"@ }])
        } else {
            (s0, Seq::empty())
        },
        ModalV::ConfirmDelete(id, title) => if is_yes(key) {
            (s0, seq![RequestV::Mutate { call: CallV::Delete(id), done: "Moved to Trash"@ }])
        } else {
            (AppV { modal: Some(ModalV::ConfirmDelete(id, title)), ..s0 }, Seq::empty())
        },
    }
}

/// Whether the key is Ctrl-C.
pub open spec fn is_ctrl_c(key: KeyPress) -> bool {
    key.code == KeyCode::Char('c') && key.ctrl
}

/// What a key press does, on day number `today`: Esc closes any dialog,
/// Ctrl-C in a dialog quits, a dialog that is open takes any other key, else the key's browse-mode action (if
/// it has one) is done.
pub open spec fn key_step(s: AppV, key: KeyPress, today: int) -> (AppV, Seq<RequestV>) {
    if key.code == KeyCode::Esc {
        (AppV { modal: None, ..s }, Seq::empty())
    } else if s.modal is Some && is_ctrl_c(key) {
        (AppV { should_quit: true, ..s }, Seq::empty())
    } else {
        match s.modal {
            Some(m) => modal_key_step(s, m, key, today),
            None => match binding(key) {
                Some(a) => browse_step(s, a),
                None => (s, Seq::empty()),
            },
        }
    }
}

fn append_requests(a: Vec<Request>, b: Vec<Request>) -> (r: Vec<Request>)
    ensures
        requests_view(r@) == requests_view(a@) + requests_view(b@),
{
    let mut a = a;
    let mut b = b;
    let ghost va = requests_view(a@);
    let ghost vb = requests_view(b@);
    a.append(&mut b);
    assert(requests_view(a@) =~= va + vb);
    a
}

impl App {
    /// Does a browse-mode action (see [`browse_step`]).
    pub fn handle_browse_key(&mut self, action: Action) -> (reqs: Vec<Request>)
        requires
            app_ok(old(self)@),
        ensures
            (final(self)@, requests_view(reqs@)) == browse_step(old(self)@, action),
    {
        match action {
            Action::Quit => {
                self.should_quit = true;
                no_requests()
            },
            Action::Help => {
                self.modal = Some(Modal::Help);
                no_requests()
            },
            Action::Refresh => {
                let a = one_request(Request::LoadSidebar);
                let b = one_request(Request::LoadTasks(self.selection.copy()));
                self.toast = Some(StatusToast { text: String::from_str("Refreshing\u{2026}"), kind: ToastKind::Info });
                let r = append_requests(a, b);
                assert(requests_view(r@) =~= seq![RequestV::LoadSidebar, RequestV::LoadTasks(self@.selection)]);
                r
            },
            Action::Up => self.move_cursor(-1),
            Action::Down => self.move_cursor(1),
            Action::PageUp => self.move_cursor(-10),
            Action::PageDown => self.move_cursor(10),
            Action::Top => self.set_cursor(0),
            Action::Bottom => self.set_cursor(0x7fff_ffff),
            Action::FocusLeft => {
                self.focus = Pane::Sidebar;
                no_requests()
            },
            Action::FocusRight => {
                self.focus = self.focus.next();
                no_requests()
            },
            Action::FocusNext => {
                self.focus = self.focus.next();
                no_requests()
            },
            Action::FocusPrev => {
                self.focus = self.focus.prev();
                no_requests()
            },
            Action::OpenEdit => match self.focus {
                Pane::Sidebar => self.activate_sidebar_selection(),
                Pane::List | Pane::Detail => {
                    self.open_edit_modal();
                    no_requests()
                },
            },
            Action::ToggleComplete => self.toggle_complete(),
            Action::ToggleCancel => self.toggle_cancel(),
            Action::NewTask => {
                self.modal = Some(Modal::NewTask(NewTaskForm::blank()));
                no_requests()
            },
            Action::NewProject => {
                self.modal = Some(Modal::NewProject(NewProjectForm::blank()));
                no_requests()
            },
            Action::Delete => {
                let m = match self.current_task() {
                    Some(t) => Some(Modal::ConfirmDelete(t.id.clone(), t.title.clone())),
                    None => None,
                };
                match m {
                    Some(m) => self.modal = Some(m),
                    None => {},
                }
                no_requests()
            },
            Action::EmptyTrash => {
                if self.selection.same_as(&Selection::List(SpecialList::Trash)) {
                    self.modal = Some(Modal::ConfirmEmptyTrash);
                }
                no_requests()
            },
            Action::Schedule => {
                self.open_schedule_modal();
                no_requests()
            },
            Action::Tags => {
                self.open_tags_modal();
                no_requests()
            },
            Action::Move => {
                self.open_move_modal();
                no_requests()
            },
            Action::Search => {
                self.modal = Some(Modal::Search(String::new()));
                no_requests()
            },
            Action::ShowQuickEntry => one_request(
                Request::Mutate { call: Call::ShowQuickEntry, done: String::from_str("Quick Entry opened") },
            ),
        }
    }
}

/// The text of a failed load: "Load failed: " and the error.
pub open spec fn load_failed(e: Seq<char>) -> Seq<char> {
    "Load failed: "@ + e
}

/// The text of a failed change: a cross mark, a space and the error.
pub open spec fn change_failed(e: Seq<char>) -> Seq<char> {
    "\u{2717} "@ + e
}

/// A loaded list, or nothing when the load failed.
pub open spec fn or_nothing<T>(r: Result<Seq<T>, Seq<char>>) -> Seq<T> {
    match r {
        Ok(v) => v,
        Err(_) => Seq::empty(),
    }
}

fn prefixed(prefix: &str, e: &String) -> (r: String)
    ensures
        r@ == prefix@ + e@,
{
    let mut out: Vec<char> = Vec::new();
    push_str(&mut out, prefix);
    push_str(&mut out, e.as_str());
    string_from_chars(out.as_slice())
}

fn take_list<T>(r: Result<Vec<T>, String>) -> (v: Vec<T>)
    ensures
        v@ == (match r {
            Ok(v) => v@,
            Err(_) => Seq::empty(),
        }),
{
    match r {
        Ok(v) => v,
        Err(_) => Vec::new(),
    }
}

/// The state the client starts in: the task pane focused on Today (not yet
/// loaded), the sidebar with only the lists and its cursor on Inbox.
pub open spec fn start_state(s: AppV) -> bool {
    &&& s.focus == Pane::List
    &&& s.sidebar_cursor == 1
    &&& s.sidebar_nodes == sidebar(Seq::empty(), Seq::empty(), Seq::empty())
    &&& s.selection == SelectionV::List(SpecialList::Today)
    &&& s.tasks.len() == 0
    &&& s.task_cursor == 0
    &&& !s.tasks_loading
    &&& s.areas.len() == 0
    &&& s.projects.len() == 0
    &&& s.tags.len() == 0
    &&& s.modal is None
    &&& s.toast is None
    &&& !s.should_quit
    &&& s.filter is None
}

impl App {
    /// The client's starting state (see [`start_state`]).
    pub fn new(config: TuiConfig, probe: Probe) -> (app: App)
        ensures
            start_state(app@),
            app_ok(app@),
            app@.config == config@,
            app@.probe == probe@,
    {
        let no_areas: Vec<Area> = Vec::new();
        let no_projects: Vec<Project> = Vec::new();
        let no_tags: Vec<Tag> = Vec::new();
        let nodes = build_sidebar(no_areas.as_slice(), no_projects.as_slice(), no_tags.as_slice());
        assert(areas_view(no_areas@) =~= Seq::empty());
        assert(projects_view(no_projects@) =~= Seq::empty());
        assert(tags_view(no_tags@) =~= Seq::empty());
        let app = App {
            config,
            probe,
            focus: Pane::List,
            sidebar_cursor: 1,
            sidebar_nodes: nodes,
            selection: Selection::List(SpecialList::Today),
            tasks: Vec::new(),
            task_cursor: 0,
            tasks_loading: false,
            areas: no_areas,
            projects: no_projects,
            tags: no_tags,
            modal: None,
            toast: None,
            should_quit: false,
            filter: None,
        };
        assert(tasks_view(app.tasks@) =~= Seq::empty());
        assert(sidebar(Seq::empty(), Seq::empty(), Seq::empty()).len() == 8) by {
            assert(crate::tui::sidebar::orphan_projects(Seq::empty(), Seq::empty()).len() == 0);
            assert(crate::tui::sidebar::tag_lines(Seq::empty()).len() == 0);
        }
        app
    }

    /// The loads to start with: the sidebar and the selected list.
    pub fn schedule_initial_loads(&self) -> (reqs: Vec<Request>)
        ensures
            requests_view(reqs@) == seq![RequestV::LoadSidebar, RequestV::LoadTasks(self@.selection)],
    {
        let a = one_request(Request::LoadSidebar);
        let b = one_request(Request::LoadTasks(self.selection.copy()));
        let r = append_requests(a, b);
        assert(requests_view(r@) =~= seq![RequestV::LoadSidebar, RequestV::LoadTasks(self@.selection)]);
        r
    }

    /// Takes a result that arrived. A load for a selection that is no longer
    /// shown is dropped; a loaded list replaces the to-dos (the cursor held
    /// within them); a loaded sidebar replaces areas, projects and tags (a
    /// failed part as empty) and the sidebar built from them; a finished
    /// change is reported on the status line and the list reloaded.
    pub fn handle_message(&mut self, msg: Message) -> (reqs: Vec<Request>)
        ensures
            match msg {
                Message::Tick => final(self)@ == old(self)@ && reqs@.len() == 0,
                Message::TasksLoaded { for_selection, tasks } => reqs@.len() == 0 && if for_selection@ != old(self)@.selection {
                    final(self)@ == old(self)@
                } else {
                    match tasks {
                        Ok(t) => final(self)@ == (AppV {
                            tasks_loading: false,
                            tasks: tasks_view(t@),
                            task_cursor: if t.len() == 0 {
                                0
                            } else if old(self).task_cursor < t.len() {
                                old(self).task_cursor
                            } else {
                                (t.len() - 1) as usize
                            },
                            ..old(self)@
                        }),
                        Err(e) => final(self)@ == (AppV {
                            tasks_loading: false,
                            toast: Some((load_failed(e@), ToastKind::Error)),
                            ..old(self)@
                        }),
                    }
                },
                Message::SidebarLoaded { areas, projects, tags } => reqs@.len() == 0 && {
                    let av = areas_view(or_nothing(match areas {
                        Ok(v) => Ok(v@),
                        Err(e) => Err(e@),
                    }));
                    let pv = projects_view(or_nothing(match projects {
                        Ok(v) => Ok(v@),
                        Err(e) => Err(e@),
                    }));
                    let tv = tags_view(or_nothing(match tags {
                        Ok(v) => Ok(v@),
                        Err(e) => Err(e@),
                    }));
                    final(self)@ == (AppV { areas: av, projects: pv, tags: tv, sidebar_nodes: sidebar(av, pv, tv), ..old(self)@ })
                },
                Message::Toast(t) => final(self)@ == (AppV { toast: Some(t@), ..old(self)@ }) && reqs@.len() == 0,
                Message::MutationDone(r) => requests_view(reqs@) == seq![RequestV::LoadTasks(old(self)@.selection)]
                    && match r {
                    Ok(text) => final(self)@ == (AppV { toast: Some((text@, ToastKind::Info)), modal: None, ..old(self)@ }),
                    Err(e) => final(self)@ == (AppV {
                        toast: Some((change_failed(e@), ToastKind::Error)),
                        ..old(self)@
                    }),
                },
            },
    {
        match msg {
            Message::Tick => Vec::new(),
            Message::TasksLoaded { for_selection, tasks } => {
                if !for_selection.same_as(&self.selection) {
                    return Vec::new();
                }
                self.tasks_loading = false;
                match tasks {
                    Ok(t) => {
                        self.tasks = t;
                        let n = self.tasks.len();
                        if n == 0 {
                            self.task_cursor = 0;
                        } else if self.task_cursor >= n {
                            self.task_cursor = n - 1;
                        }
                    },
                    Err(e) => {
                        self.toast = Some(StatusToast { text: prefixed("Load failed: ", &e), kind: ToastKind::Error });
                    },
                }
                Vec::new()
            },
            Message::SidebarLoaded { areas, projects, tags } => {
                self.areas = take_list(areas);
                self.projects = take_list(projects);
                self.tags = take_list(tags);
                self.sidebar_nodes = build_sidebar(self.areas.as_slice(), self.projects.as_slice(), self.tags.as_slice());
                Vec::new()
            },
            Message::Toast(t) => {
                self.toast = Some(t);
                Vec::new()
            },
            Message::MutationDone(result) => {
                match result {
                    Ok(text) => {
                        self.toast = Some(StatusToast { text, kind: ToastKind::Info });
                        self.modal = None;
                    },
                    Err(e) => {
                        self.toast = Some(StatusToast { text: prefixed("\u{2717} ", &e), kind: ToastKind::Error });
                    },
                }
                one_request(Request::LoadTasks(self.selection.copy()))
            },
        }
    }
}

/// Takes a key while a dialog may be open (see [`modal_key_step`]); with no
/// dialog open nothing happens.
pub fn handle_modal_key(app: &mut App, key: KeyPress, today: i64) -> (reqs: Vec<Request>)
    requires
        app_ok(old(app)@),
        modal_ok(old(app)@.modal),
        day_ok(today as int),
    ensures
        match old(app)@.modal {
            Some(m) => (final(app)@, requests_view(reqs@)) == modal_key_step(old(app)@, m, key, today as int),
            None => final(app)@ == old(app)@ && requests_view(reqs@) == Seq::<RequestV>::empty(),
        },
{
    let modal = app.modal.take();
    match modal {
        None => no_requests(),
        Some(m) => match m {
            Modal::Help => no_requests(),
            Modal::Search(buf) => {
                let mut buf = buf;
                if key.code == KeyCode::Enter {
                    app.filter = if buf.as_str().is_empty() {
                        None
                    } else {
                        Some(buf)
                    };
                    app.task_cursor = 0;
                } else {
                    edit_string(&mut buf, key);
                    app.modal = Some(Modal::Search(buf));
                }
                no_requests()
            },
            Modal::NewTask(form) => {
                if key.code == KeyCode::Char('s') && key.ctrl {
                    app.finish_new_task(&form, today)
                } else {
                    let mut form = form;
                    handle_new_task_key(&mut form, key);
                    app.modal = Some(Modal::NewTask(form));
                    no_requests()
                }
            },
            Modal::EditTask(form) => {
                if key.code == KeyCode::Char('s') && key.ctrl {
                    app.finish_edit_task(&form, today)
                } else {
                    let mut form = form;
                    handle_edit_task_key(&mut form, key);
                    app.modal = Some(Modal::EditTask(form));
                    no_requests()
                }
            },
            Modal::NewProject(form) => {
                if key.code == KeyCode::Char('s') && key.ctrl {
                    app.finish_new_project(&form)
                } else {
                    let mut form = form;
                    handle_new_project_key(&mut form, key);
                    app.modal = Some(Modal::NewProject(form));
                    no_requests()
                }
            },
            Modal::Schedule(form) => {
                let mut form = form;
                let done = handle_schedule_key(&mut form, key);
                if done {
                    app.finish_schedule(&form, today)
                } else {
                    app.modal = Some(Modal::Schedule(form));
                    no_requests()
                }
            },
            Modal::Tags(form) => {
                let mut form = form;
                let done = handle_tags_key(&mut form, key);
                if done {
                    app.finish_tags(&form)
                } else {
                    app.modal = Some(Modal::Tags(form));
                    no_requests()
                }
            },
            Modal::MovePicker(form) => {
                let mut form = form;
                let done = handle_move_key(&mut form, key);
                if done {
                    app.finish_move(&form)
                } else {
                    app.modal = Some(Modal::MovePicker(form));
                    no_requests()
                }
            },
            Modal::ConfirmEmptyTrash => {
                if key.code == KeyCode::Char('y') || key.code == KeyCode::Char('Y') || key.code == KeyCode::Enter {
                    app.finish_empty_trash()
                } else {
                    no_requests()
                }
            },
            Modal::ConfirmDelete(id, title) => {
                if key.code == KeyCode::Char('y') || key.code == KeyCode::Char('Y') || key.code == KeyCode::Enter {
                    app.finish_delete(id.as_str())
                } else {
                    app.modal = Some(Modal::ConfirmDelete(id, title));
                    no_requests()
                }
            },
        },
    }
}

/// Takes a key press on day number `today` (see [`key_step`]).
pub fn handle_key_on(app: &mut App, key: KeyPress, today: i64) -> (reqs: Vec<Request>)
    requires
        app_ok(old(app)@),
        modal_ok(old(app)@.modal),
        day_ok(today as int),
    ensures
        (final(app)@, requests_view(reqs@)) == key_step(old(app)@, key, today as int),
{
    if key.code == KeyCode::Esc {
        app.modal = None;
        return no_requests();
    }
    if app.modal.is_some() {
        if key.code == KeyCode::Char('c') && key.ctrl {
            app.should_quit = true;
            return no_requests();
        }
        return handle_modal_key(app, key, today);
    }
    match browse_action(&key) {
        Some(action) => app.handle_browse_key(action),
        None => no_requests(),
    }
}

/// Takes a key press, with today's date from the system clock.
pub fn handle_key(app: &mut App, key: KeyPress) -> (reqs: Vec<Request>)
    requires
        app_ok(old(app)@),
        modal_ok(old(app)@.modal),
    ensures
        exists|today: int|
            0 <= today && (final(app)@, requests_view(reqs@)) == #[trigger] key_step(old(app)@, key, today),
{
    let today = crate::tui::dates::today_number();
    handle_key_on(app, key, today)
}

proof fn lemma_scan_forward(nodes: Seq<SidebarNodeV>, i: int)
    ensures
        match scan_forward(nodes, i) {
            Some(j) => i <= j < nodes.len() && selectable(nodes[j]),
            None => true,
        },
    decreases nodes.len() - i,
{
    if 0 <= i < nodes.len() && !selectable(nodes[i]) {
        lemma_scan_forward(nodes, i + 1);
    }
}

proof fn lemma_scan_back(nodes: Seq<SidebarNodeV>, i: int)
    ensures
        match scan_back(nodes, i) {
            Some(j) => 0 <= j <= i && j < nodes.len() && selectable(nodes[j]),
            None => true,
        },
    decreases i + 1,
{
    if 0 <= i < nodes.len() && !selectable(nodes[i]) {
        lemma_scan_back(nodes, i - 1);
    }
}

/// Moving in the sidebar never leaves the cursor on a section header or
/// past the last line: from a line the cursor may rest on, it lands on one.
pub proof fn law_sidebar_cursor_selectable(s: AppV, delta: int)
    requires
        app_ok(s),
        s.focus == Pane::Sidebar,
        s.sidebar_cursor < s.sidebar_nodes.len(),
        selectable(s.sidebar_nodes[s.sidebar_cursor as int]),
    ensures
        move_step(s, delta).0.sidebar_cursor < move_step(s, delta).0.sidebar_nodes.len(),
        selectable(move_step(s, delta).0.sidebar_nodes[move_step(s, delta).0.sidebar_cursor as int]),
{
    let nodes = s.sidebar_nodes;
    let start = clamp(s.sidebar_cursor + delta, 0, nodes.len() - 1);
    lemma_scan_forward(nodes, start);
    lemma_scan_back(nodes, start);
    let c = sidebar_target(nodes, s.sidebar_cursor as int, delta);
    assert(0 <= c < nodes.len() && selectable(nodes[c]));
    let s1 = AppV { sidebar_cursor: c as usize, ..s };
    assert(s1.sidebar_cursor as int == c);
    assert(activate_step(s1).0.sidebar_cursor == s1.sidebar_cursor);
    assert(activate_step(s1).0.sidebar_nodes == nodes);
    assert(move_step(s, delta) == activate_step(s1));
}

/// Moving or placing the cursor in the task pane leaves it on a to-do that
/// is shown, or at 0 when none is shown.
pub proof fn law_task_cursor_in_range(s: AppV, delta: int, idx: int)
    requires
        app_ok(s),
        s.focus != Pane::Sidebar,
    ensures
        ({
            let n = visible(s.tasks, s.filter).len();
            &&& n <= s.tasks.len()
            &&& (n == 0 ==> move_step(s, delta).0.task_cursor == 0 && set_step(s, idx).0.task_cursor == 0)
            &&& (n > 0 ==> move_step(s, delta).0.task_cursor < n && set_step(s, idx).0.task_cursor < n)
        }),
{
    lemma_visible_len(s.tasks, s.filter);
}

/// Esc closes whatever dialog is open and does nothing else.
pub proof fn law_esc_closes(s: AppV, today: int)
    ensures
        key_step(s, KeyPress { code: KeyCode::Esc, ctrl: false, shift: false }, today).0 == (AppV { modal: None, ..s }),
        key_step(s, KeyPress { code: KeyCode::Esc, ctrl: false, shift: false }, today).1.len() == 0,
{
}

} // verus!
