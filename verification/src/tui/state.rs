//! The client's state: what is selected, the dialogs and their forms, the
//! sidebar, and the requests the state machine asks the runtime to make.
//!
//! Every type has a view with each `String` read as its characters; the
//! transitions in the state machine are stated over these views.

use vstd::prelude::*;
use crate::tui::model::{Area, CreateProject, CreateProjectV, CreateTask, CreateTaskV, Project, ProjectV, Tag, Task, TaskV, UpdateTask, UpdateTaskV};
use crate::tui::config::{Probe, ProbeV, TuiConfig, TuiConfigV};

verus! {

/// One of the built-in lists of Things 3.
#[derive(Debug, Clone, Copy, PartialEq, Eq, Structural)]
pub enum SpecialList {
    Inbox,
    Today,
    Upcoming,
    Anytime,
    Someday,
    Logbook,
    Trash,
}

/// The built-in lists in sidebar order.
pub open spec fn all_lists() -> Seq<SpecialList> {
    seq![
        SpecialList::Inbox,
        SpecialList::Today,
        SpecialList::Upcoming,
        SpecialList::Anytime,
        SpecialList::Someday,
        SpecialList::Logbook,
        SpecialList::Trash,
    ]
}

/// The display name of a built-in list.
pub open spec fn list_label(l: SpecialList) -> Seq<char> {
    match l {
        SpecialList::Inbox => "Inbox"@,
        SpecialList::Today => "Today"@,
        SpecialList::Upcoming => "Upcoming"@,
        SpecialList::Anytime => "Anytime"@,
        SpecialList::Someday => "Someday"@,
        SpecialList::Logbook => "Logbook"@,
        SpecialList::Trash => "Trash"@,
    }
}

/// The name of a built-in list in the server's `list` parameter.
pub open spec fn list_value(l: SpecialList) -> Seq<char> {
    match l {
        SpecialList::Inbox => "inbox"@,
        SpecialList::Today => "today"@,
        SpecialList::Upcoming => "upcoming"@,
        SpecialList::Anytime => "anytime"@,
        SpecialList::Someday => "someday"@,
        SpecialList::Logbook => "logbook"@,
        SpecialList::Trash => "trash"@,
    }
}

/// `s` with its ASCII capitals made small.
pub open spec fn ascii_lower(s: Seq<char>) -> Seq<char> {
    s.map_values(|c: char| if 'A' <= c && c <= 'Z' { (c as int + 32) as char } else { c })
}

/// A built-in list's key for the server is its display name in lower case,
/// and the server reads that key back as the list of that name: the task
/// pane loads the list the sidebar shows.
pub proof fn law_list_keys(l: SpecialList)
    ensures
        list_value(l) == ascii_lower(list_label(l)),
        crate::script::list_name_spec(Some(list_value(l))) == list_label(l),
{
    reveal_strlit("Inbox");
    reveal_strlit("Today");
    reveal_strlit("Upcoming");
    reveal_strlit("Anytime");
    reveal_strlit("Someday");
    reveal_strlit("Logbook");
    reveal_strlit("Trash");
    reveal_strlit("inbox");
    reveal_strlit("today");
    reveal_strlit("upcoming");
    reveal_strlit("anytime");
    reveal_strlit("someday");
    reveal_strlit("logbook");
    reveal_strlit("trash");
    assert(list_value(l) =~= ascii_lower(list_label(l)));
    assert("today"@[0] != "inbox"@[0]);
    assert("upcoming"@.len() != "inbox"@.len());
    assert("upcoming"@.len() != "today"@.len());
    assert("anytime"@.len() != "inbox"@.len());
    assert("anytime"@.len() != "today"@.len());
    assert("anytime"@.len() != "upcoming"@.len());
    assert("someday"@.len() != "inbox"@.len());
    assert("someday"@.len() != "today"@.len());
    assert("someday"@.len() != "upcoming"@.len());
    assert("someday"@[0] != "anytime"@[0]);
    assert("logbook"@.len() != "inbox"@.len());
    assert("logbook"@.len() != "today"@.len());
    assert("logbook"@.len() != "upcoming"@.len());
    assert("logbook"@[0] != "anytime"@[0]);
    assert("logbook"@[0] != "someday"@[0]);
    assert("trash"@[0] != "inbox"@[0]);
    assert("trash"@[1] != "today"@[1]);
    assert("trash"@.len() != "upcoming"@.len());
    assert("trash"@.len() != "anytime"@.len());
    assert("trash"@.len() != "someday"@.len());
    assert("trash"@.len() != "logbook"@.len());
}

impl SpecialList {
    /// The list's display name.
    pub fn label(self) -> (r: &'static str)
        ensures
            r@ == list_label(self),
    {
        match self {
            SpecialList::Inbox => "Inbox",
            SpecialList::Today => "Today",
            SpecialList::Upcoming => "Upcoming",
            SpecialList::Anytime => "Anytime",
            SpecialList::Someday => "Someday",
            SpecialList::Logbook => "Logbook",
            SpecialList::Trash => "Trash",
        }
    }

    /// The list's name in the server's `list` parameter.
    pub fn api_value(self) -> (r: &'static str)
        ensures
            r@ == list_value(self),
    {
        match self {
            SpecialList::Inbox => "inbox",
            SpecialList::Today => "today",
            SpecialList::Upcoming => "upcoming",
            SpecialList::Anytime => "anytime",
            SpecialList::Someday => "someday",
            SpecialList::Logbook => "logbook",
            SpecialList::Trash => "trash",
        }
    }

    /// All the built-in lists, in sidebar order.
    pub fn all() -> (r: [SpecialList; 7])
        ensures
            r@ == all_lists(),
    {
        let r = [
            SpecialList::Inbox,
            SpecialList::Today,
            SpecialList::Upcoming,
            SpecialList::Anytime,
            SpecialList::Someday,
            SpecialList::Logbook,
            SpecialList::Trash,
        ];
        assert(r@ =~= all_lists());
        r
    }
}

/// What the task pane shows.
#[derive(Debug, Clone)]
pub enum Selection {
    List(SpecialList),
    /// An area, by id.
    Area(String),
    /// A project, by id.
    Project(String),
    /// A tag, by id.
    Tag(String),
}

/// The view of a [`Selection`].
pub enum SelectionV {
    List(SpecialList),
    Area(Seq<char>),
    Project(Seq<char>),
    Tag(Seq<char>),
}

impl View for Selection {
    type V = SelectionV;

    open spec fn view(&self) -> SelectionV {
        match self {
            Selection::List(l) => SelectionV::List(*l),
            Selection::Area(id) => SelectionV::Area(id@),
            Selection::Project(id) => SelectionV::Project(id@),
            Selection::Tag(id) => SelectionV::Tag(id@),
        }
    }
}

impl Selection {
    /// Whether two selections name the same thing.
    pub fn same_as(&self, other: &Selection) -> (r: bool)
        ensures
            r == (self@ == other@),
    {
        match (self, other) {
            (Selection::List(a), Selection::List(b)) => *a == *b,
            (Selection::Area(a), Selection::Area(b)) => *a == *b,
            (Selection::Project(a), Selection::Project(b)) => *a == *b,
            (Selection::Tag(a), Selection::Tag(b)) => *a == *b,
            _ => false,
        }
    }

    /// A copy of the selection.
    pub fn copy(&self) -> (r: Selection)
        ensures
            r@ == self@,
    {
        match self {
            Selection::List(l) => Selection::List(*l),
            Selection::Area(id) => Selection::Area(id.clone()),
            Selection::Project(id) => Selection::Project(id.clone()),
            Selection::Tag(id) => Selection::Tag(id.clone()),
        }
    }
}

/// One of the three panes that can have the focus.
#[derive(Debug, Clone, Copy, PartialEq, Eq, Structural)]
pub enum Pane {
    Sidebar,
    List,
    Detail,
}

impl Pane {
    /// The pane to the right, wrapping around.
    pub open spec fn next_spec(self) -> Pane {
        match self {
            Pane::Sidebar => Pane::List,
            Pane::List => Pane::Detail,
            Pane::Detail => Pane::Sidebar,
        }
    }

    /// The pane to the left, wrapping around.
    pub open spec fn prev_spec(self) -> Pane {
        match self {
            Pane::Sidebar => Pane::Detail,
            Pane::List => Pane::Sidebar,
            Pane::Detail => Pane::List,
        }
    }

    /// The pane to the right, wrapping around.
    pub fn next(self) -> (r: Pane)
        ensures
            r == self.next_spec(),
    {
        match self {
            Pane::Sidebar => Pane::List,
            Pane::List => Pane::Detail,
            Pane::Detail => Pane::Sidebar,
        }
    }

    /// The pane to the left, wrapping around.
    pub fn prev(self) -> (r: Pane)
        ensures
            r == self.prev_spec(),
    {
        match self {
            Pane::Sidebar => Pane::Detail,
            Pane::List => Pane::Sidebar,
            Pane::Detail => Pane::List,
        }
    }
}

/// Moving the focus right then left, or left then right, returns to the
/// same pane; three moves right go all the way round.
pub proof fn law_pane_cycle(p: Pane)
    ensures
        p.next_spec().prev_spec() == p,
        p.prev_spec().next_spec() == p,
        p.next_spec().next_spec().next_spec() == p,
{
}

/// Whether a status line message reports success or failure.
#[derive(Debug, Clone, Copy, PartialEq, Eq, Structural)]
pub enum ToastKind {
    Info,
    Error,
}

/// A message on the status line. (The runtime notes when it was shown, to
/// let it expire.)
#[derive(Debug, Clone)]
pub struct StatusToast {
    pub text: String,
    pub kind: ToastKind,
}

impl View for StatusToast {
    type V = (Seq<char>, ToastKind);

    open spec fn view(&self) -> (Seq<char>, ToastKind) {
        (self.text@, self.kind)
    }
}

/// A choice in the schedule dialog, or for a date field.
#[derive(Debug, Clone, Copy, PartialEq, Eq, Structural)]
pub enum DateChoice {
    Today,
    Tomorrow,
    ThisWeekend,
    NextWeek,
    Someday,
    Anytime,
    Clear,
    Specific,
}

/// A date field of a form: a choice, or text typed in.
#[derive(Debug, Clone)]
pub struct DateField {
    pub choice: Option<DateChoice>,
    pub specific: String,
}

impl View for DateField {
    type V = (Option<DateChoice>, Seq<char>);

    open spec fn view(&self) -> (Option<DateChoice>, Seq<char>) {
        (self.choice, self.specific@)
    }
}

impl DateField {
    /// No choice and no text.
    pub fn blank() -> (f: DateField)
        ensures
            f@ == (None::<DateChoice>, Seq::<char>::empty()),
    {
        DateField { choice: None, specific: String::new() }
    }
}

/// The fields of the to-do form, in Tab order.
#[derive(Debug, Clone, Copy, PartialEq, Eq, Structural)]
pub enum NewTaskField {
    Title,
    Notes,
    When,
    Deadline,
    Tags,
}

/// The Tab order of the to-do form.
pub open spec fn task_field_order() -> Seq<NewTaskField> {
    seq![NewTaskField::Title, NewTaskField::Notes, NewTaskField::When, NewTaskField::Deadline, NewTaskField::Tags]
}

/// The fields of the project form, in Tab order.
#[derive(Debug, Clone, Copy, PartialEq, Eq, Structural)]
pub enum NewProjectField {
    Title,
    Notes,
    Area,
}

/// The Tab order of the project form.
pub open spec fn project_field_order() -> Seq<NewProjectField> {
    seq![NewProjectField::Title, NewProjectField::Notes, NewProjectField::Area]
}

/// The form that creates a to-do.
#[derive(Debug, Clone)]
pub struct NewTaskForm {
    pub title: String,
    pub notes: String,
    pub when: DateField,
    pub deadline: DateField,
    pub tags: String,
    pub focused: NewTaskField,
}

/// The view of a [`NewTaskForm`].
pub struct NewTaskFormV {
    pub title: Seq<char>,
    pub notes: Seq<char>,
    pub when: (Option<DateChoice>, Seq<char>),
    pub deadline: (Option<DateChoice>, Seq<char>),
    pub tags: Seq<char>,
    pub focused: NewTaskField,
}

impl View for NewTaskForm {
    type V = NewTaskFormV;

    open spec fn view(&self) -> NewTaskFormV {
        NewTaskFormV {
            title: self.title@,
            notes: self.notes@,
            when: self.when@,
            deadline: self.deadline@,
            tags: self.tags@,
            focused: self.focused,
        }
    }
}

impl NewTaskForm {
    /// An empty form with the title focused.
    pub fn blank() -> (f: NewTaskForm)
        ensures
            f@ == (NewTaskFormV {
                title: Seq::empty(),
                notes: Seq::empty(),
                when: (None, Seq::empty()),
                deadline: (None, Seq::empty()),
                tags: Seq::empty(),
                focused: NewTaskField::Title,
            }),
    {
        NewTaskForm {
            title: String::new(),
            notes: String::new(),
            when: DateField::blank(),
            deadline: DateField::blank(),
            tags: String::new(),
            focused: NewTaskField::Title,
        }
    }
}

/// The form that edits a to-do.
#[derive(Debug, Clone)]
pub struct EditTaskForm {
    pub task_id: String,
    pub title: String,
    pub notes: String,
    pub when: DateField,
    pub deadline: DateField,
    pub tags: String,
    pub focused: NewTaskField,
}

/// The view of an [`EditTaskForm`].
pub struct EditTaskFormV {
    pub task_id: Seq<char>,
    pub title: Seq<char>,
    pub notes: Seq<char>,
    pub when: (Option<DateChoice>, Seq<char>),
    pub deadline: (Option<DateChoice>, Seq<char>),
    pub tags: Seq<char>,
    pub focused: NewTaskField,
}

impl View for EditTaskForm {
    type V = EditTaskFormV;

    open spec fn view(&self) -> EditTaskFormV {
        EditTaskFormV {
            task_id: self.task_id@,
            title: self.title@,
            notes: self.notes@,
            when: self.when@,
            deadline: self.deadline@,
            tags: self.tags@,
            focused: self.focused,
        }
    }
}

/// The form that creates a project.
#[derive(Debug, Clone)]
pub struct NewProjectForm {
    pub title: String,
    pub notes: String,
    pub area: String,
    pub focused: NewProjectField,
}

/// The view of a [`NewProjectForm`].
pub struct NewProjectFormV {
    pub title: Seq<char>,
    pub notes: Seq<char>,
    pub area: Seq<char>,
    pub focused: NewProjectField,
}

impl View for NewProjectForm {
    type V = NewProjectFormV;

    open spec fn view(&self) -> NewProjectFormV {
        NewProjectFormV { title: self.title@, notes: self.notes@, area: self.area@, focused: self.focused }
    }
}

impl NewProjectForm {
    /// An empty form with the title focused.
    pub fn blank() -> (f: NewProjectForm)
        ensures
            f@ == (NewProjectFormV {
                title: Seq::empty(),
                notes: Seq::empty(),
                area: Seq::empty(),
                focused: NewProjectField::Title,
            }),
    {
        NewProjectForm {
            title: String::new(),
            notes: String::new(),
            area: String::new(),
            focused: NewProjectField::Title,
        }
    }
}

/// The schedule dialog: a list of choices, and text for a specific date.
#[derive(Debug, Clone)]
pub struct ScheduleForm {
    pub task_id: String,
    pub task_title: String,
    pub choices: Vec<DateChoice>,
    pub selected: usize,
    pub specific_buffer: String,
    pub editing_specific: bool,
}

/// The view of a [`ScheduleForm`].
pub struct ScheduleFormV {
    pub task_id: Seq<char>,
    pub task_title: Seq<char>,
    pub choices: Seq<DateChoice>,
    pub selected: usize,
    pub specific_buffer: Seq<char>,
    pub editing_specific: bool,
}

impl View for ScheduleForm {
    type V = ScheduleFormV;

    open spec fn view(&self) -> ScheduleFormV {
        ScheduleFormV {
            task_id: self.task_id@,
            task_title: self.task_title@,
            choices: self.choices@,
            selected: self.selected,
            specific_buffer: self.specific_buffer@,
            editing_specific: self.editing_specific,
        }
    }
}

/// The tag dialog: the tags there are, which of them are ticked, and a cursor.
#[derive(Debug, Clone)]
pub struct TagsForm {
    pub task_id: String,
    pub task_title: String,
    pub available: Vec<String>,
    /// Positions in `available` of the ticked tags, in the order they were ticked.
    pub selected_indices: Vec<usize>,
    pub cursor: usize,
}

/// The view of a [`TagsForm`].
pub struct TagsFormV {
    pub task_id: Seq<char>,
    pub task_title: Seq<char>,
    pub available: Seq<Seq<char>>,
    pub selected_indices: Seq<usize>,
    pub cursor: usize,
}

impl View for TagsForm {
    type V = TagsFormV;

    open spec fn view(&self) -> TagsFormV {
        TagsFormV {
            task_id: self.task_id@,
            task_title: self.task_title@,
            available: self.available.deep_view(),
            selected_indices: self.selected_indices@,
            cursor: self.cursor,
        }
    }
}

/// Where the move dialog can send a to-do.
#[derive(Debug, Clone)]
pub enum MoveDest {
    List(SpecialList),
    /// A project: id and title.
    Project(String, String),
    /// An area: id and title.
    Area(String, String),
    /// Out of its project and area.
    Detach,
}

/// The view of a [`MoveDest`].
pub enum MoveDestV {
    List(SpecialList),
    Project(Seq<char>, Seq<char>),
    Area(Seq<char>, Seq<char>),
    Detach,
}

impl View for MoveDest {
    type V = MoveDestV;

    open spec fn view(&self) -> MoveDestV {
        match self {
            MoveDest::List(l) => MoveDestV::List(*l),
            MoveDest::Project(i, t) => MoveDestV::Project(i@, t@),
            MoveDest::Area(i, t) => MoveDestV::Area(i@, t@),
            MoveDest::Detach => MoveDestV::Detach,
        }
    }
}

/// The move dialog.
#[derive(Debug, Clone)]
pub struct MoveForm {
    pub task_id: String,
    pub task_title: String,
    pub destinations: Vec<MoveDest>,
    pub cursor: usize,
}

/// The view of a [`MoveForm`].
pub struct MoveFormV {
    pub task_id: Seq<char>,
    pub task_title: Seq<char>,
    pub destinations: Seq<MoveDestV>,
    pub cursor: usize,
}

impl View for MoveForm {
    type V = MoveFormV;

    open spec fn view(&self) -> MoveFormV {
        MoveFormV {
            task_id: self.task_id@,
            task_title: self.task_title@,
            destinations: self.destinations@.map_values(|d: MoveDest| d@),
            cursor: self.cursor,
        }
    }
}

/// The dialog in front of the panes.
#[derive(Debug, Clone)]
pub enum Modal {
    Help,
    NewTask(NewTaskForm),
    EditTask(EditTaskForm),
    NewProject(NewProjectForm),
    Schedule(ScheduleForm),
    Tags(TagsForm),
    MovePicker(MoveForm),
    /// The search text typed so far.
    Search(String),
    ConfirmEmptyTrash,
    /// The to-do's id and title.
    ConfirmDelete(String, String),
}

/// The view of a [`Modal`].
pub enum ModalV {
    Help,
    NewTask(NewTaskFormV),
    EditTask(EditTaskFormV),
    NewProject(NewProjectFormV),
    Schedule(ScheduleFormV),
    Tags(TagsFormV),
    MovePicker(MoveFormV),
    Search(Seq<char>),
    ConfirmEmptyTrash,
    ConfirmDelete(Seq<char>, Seq<char>),
}

impl View for Modal {
    type V = ModalV;

    open spec fn view(&self) -> ModalV {
        match self {
            Modal::Help => ModalV::Help,
            Modal::NewTask(f) => ModalV::NewTask(f@),
            Modal::EditTask(f) => ModalV::EditTask(f@),
            Modal::NewProject(f) => ModalV::NewProject(f@),
            Modal::Schedule(f) => ModalV::Schedule(f@),
            Modal::Tags(f) => ModalV::Tags(f@),
            Modal::MovePicker(f) => ModalV::MovePicker(f@),
            Modal::Search(s) => ModalV::Search(s@),
            Modal::ConfirmEmptyTrash => ModalV::ConfirmEmptyTrash,
            Modal::ConfirmDelete(i, t) => ModalV::ConfirmDelete(i@, t@),
        }
    }
}

/// A line of the sidebar.
#[derive(Debug, Clone)]
pub enum SidebarNode {
    SectionHeader(&'static str),
    List(SpecialList),
    Area { id: String, title: String },
    /// `nested` when the project is shown under its area.
    Project { id: String, title: String, nested: bool },
    Tag { id: String, name: String },
}

/// The view of a [`SidebarNode`].
pub enum SidebarNodeV {
    SectionHeader(Seq<char>),
    List(SpecialList),
    Area { id: Seq<char>, title: Seq<char> },
    Project { id: Seq<char>, title: Seq<char>, nested: bool },
    Tag { id: Seq<char>, name: Seq<char> },
}

impl View for SidebarNode {
    type V = SidebarNodeV;

    open spec fn view(&self) -> SidebarNodeV {
        match self {
            SidebarNode::SectionHeader(h) => SidebarNodeV::SectionHeader(h@),
            SidebarNode::List(l) => SidebarNodeV::List(*l),
            SidebarNode::Area { id, title } => SidebarNodeV::Area { id: id@, title: title@ },
            SidebarNode::Project { id, title, nested } => SidebarNodeV::Project {
                id: id@,
                title: title@,
                nested: *nested,
            },
            SidebarNode::Tag { id, name } => SidebarNodeV::Tag { id: id@, name: name@ },
        }
    }
}

/// Whether the cursor may rest on a sidebar line: every line but a section header.
pub open spec fn selectable(n: SidebarNodeV) -> bool {
    !(n is SectionHeader)
}

impl SidebarNode {
    /// Whether the cursor may rest on this line.
    pub fn is_selectable(&self) -> (b: bool)
        ensures
            b == selectable(self@),
    {
        match self {
            SidebarNode::SectionHeader(_) => false,
            _ => true,
        }
    }
}

/// A call the runtime makes to the server for the state machine.
#[derive(Debug, Clone)]
pub enum Call {
    Complete(String),
    Cancel(String),
    Delete(String),
    EmptyTrash,
    ShowQuickEntry,
    Update(String, UpdateTask),
    CreateTask(CreateTask),
    CreateProject(CreateProject),
}

/// The view of a [`Call`].
pub enum CallV {
    Complete(Seq<char>),
    Cancel(Seq<char>),
    Delete(Seq<char>),
    EmptyTrash,
    ShowQuickEntry,
    Update(Seq<char>, UpdateTaskV),
    CreateTask(CreateTaskV),
    CreateProject(CreateProjectV),
}

impl View for Call {
    type V = CallV;

    open spec fn view(&self) -> CallV {
        match self {
            Call::Complete(i) => CallV::Complete(i@),
            Call::Cancel(i) => CallV::Cancel(i@),
            Call::Delete(i) => CallV::Delete(i@),
            Call::EmptyTrash => CallV::EmptyTrash,
            Call::ShowQuickEntry => CallV::ShowQuickEntry,
            Call::Update(i, u) => CallV::Update(i@, u@),
            Call::CreateTask(c) => CallV::CreateTask(c@),
            Call::CreateProject(c) => CallV::CreateProject(c@),
        }
    }
}

/// Work the state machine hands the runtime: loads, whose results come back
/// as messages, and changes, whose outcome comes back as
/// `Message::MutationDone` with `done` on success and the error otherwise.
#[derive(Debug, Clone)]
pub enum Request {
    LoadSidebar,
    LoadTasks(Selection),
    Mutate { call: Call, done: String },
}

/// The view of a [`Request`].
pub enum RequestV {
    LoadSidebar,
    LoadTasks(SelectionV),
    Mutate { call: CallV, done: Seq<char> },
}

impl View for Request {
    type V = RequestV;

    open spec fn view(&self) -> RequestV {
        match self {
            Request::LoadSidebar => RequestV::LoadSidebar,
            Request::LoadTasks(s) => RequestV::LoadTasks(s@),
            Request::Mutate { call, done } => RequestV::Mutate { call: call@, done: done@ },
        }
    }
}

/// The views of a list of requests.
pub open spec fn requests_view(v: Seq<Request>) -> Seq<RequestV> {
    v.map_values(|r: Request| r@)
}

/// A result that arrives from the runtime.
#[derive(Debug)]
pub enum Message {
    Tick,
    TasksLoaded { for_selection: Selection, tasks: Result<Vec<Task>, String> },
    SidebarLoaded {
        areas: Result<Vec<Area>, String>,
        projects: Result<Vec<Project>, String>,
        tags: Result<Vec<Tag>, String>,
    },
    Toast(StatusToast),
    /// A change finished: the success text, or the error.
    MutationDone(Result<String, String>),
}

/// The client's whole state.
#[derive(Debug)]
pub struct App {
    pub config: TuiConfig,
    pub probe: Probe,
    pub focus: Pane,
    pub sidebar_cursor: usize,
    pub sidebar_nodes: Vec<SidebarNode>,
    pub selection: Selection,
    pub tasks: Vec<Task>,
    pub task_cursor: usize,
    pub tasks_loading: bool,
    pub areas: Vec<Area>,
    pub projects: Vec<Project>,
    pub tags: Vec<Tag>,
    pub modal: Option<Modal>,
    pub toast: Option<StatusToast>,
    pub should_quit: bool,
    pub filter: Option<String>,
}

/// The view of an [`App`]: everything the state machine reads and writes.
pub struct AppV {
    pub config: TuiConfigV,
    pub probe: ProbeV,
    pub focus: Pane,
    pub sidebar_cursor: usize,
    pub sidebar_nodes: Seq<SidebarNodeV>,
    pub selection: SelectionV,
    pub tasks: Seq<TaskV>,
    pub task_cursor: usize,
    pub tasks_loading: bool,
    pub areas: Seq<(Seq<char>, Seq<char>)>,
    pub projects: Seq<ProjectV>,
    pub tags: Seq<(Seq<char>, Seq<char>)>,
    pub modal: Option<ModalV>,
    pub toast: Option<(Seq<char>, ToastKind)>,
    pub should_quit: bool,
    pub filter: Option<Seq<char>>,
}

/// The views of the sidebar lines.
pub open spec fn nodes_view(v: Seq<SidebarNode>) -> Seq<SidebarNodeV> {
    v.map_values(|n: SidebarNode| n@)
}

/// The views of to-dos.
pub open spec fn tasks_view(v: Seq<Task>) -> Seq<TaskV> {
    v.map_values(|t: Task| t@)
}

/// The views of projects.
pub open spec fn projects_view(v: Seq<Project>) -> Seq<ProjectV> {
    v.map_values(|p: Project| p@)
}

/// The views of areas.
pub open spec fn areas_view(v: Seq<Area>) -> Seq<(Seq<char>, Seq<char>)> {
    v.map_values(|a: Area| a@)
}

/// The views of tags.
pub open spec fn tags_view(v: Seq<Tag>) -> Seq<(Seq<char>, Seq<char>)> {
    v.map_values(|t: Tag| t@)
}

impl View for App {
    type V = AppV;

    open spec fn view(&self) -> AppV {
        AppV {
            config: self.config@,
            probe: self.probe@,
            focus: self.focus,
            sidebar_cursor: self.sidebar_cursor,
            sidebar_nodes: nodes_view(self.sidebar_nodes@),
            selection: self.selection@,
            tasks: tasks_view(self.tasks@),
            task_cursor: self.task_cursor,
            tasks_loading: self.tasks_loading,
            areas: areas_view(self.areas@),
            projects: projects_view(self.projects@),
            tags: tags_view(self.tags@),
            modal: match self.modal {
                Some(m) => Some(m@),
                None => None,
            },
            toast: match self.toast {
                Some(t) => Some(t@),
                None => None,
            },
            should_quit: self.should_quit,
            filter: self.filter.deep_view(),
        }
    }
}

} // verus!
