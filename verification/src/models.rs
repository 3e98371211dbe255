//! The records the Things 3 API reads and writes.
//!
//! Each record that the library builds from script output has a view: the
//! same fields, with every `String` read as its characters.

use vstd::prelude::*;

verus! {

/// A to-do in Things 3.
#[derive(Debug, Clone)]
pub struct Task {
    pub id: String,
    pub title: String,
    pub notes: Option<String>,
    pub due_date: Option<String>,
    pub activation_date: Option<String>,
    pub list: Option<String>,
    pub project: Option<String>,
    pub area: Option<String>,
    pub contact: Option<String>,
    pub tags: Vec<String>,
    pub checklist_items: Vec<ChecklistItem>,
    pub completed: bool,
    pub canceled: bool,
    pub creation_date: Option<String>,
    pub modification_date: Option<String>,
    pub completion_date: Option<String>,
    pub cancellation_date: Option<String>,
}

/// The view of a [`Task`].
pub struct TaskV {
    pub id: Seq<char>,
    pub title: Seq<char>,
    pub notes: Option<Seq<char>>,
    pub due_date: Option<Seq<char>>,
    pub activation_date: Option<Seq<char>>,
    pub list: Option<Seq<char>>,
    pub project: Option<Seq<char>>,
    pub area: Option<Seq<char>>,
    pub contact: Option<Seq<char>>,
    pub tags: Seq<Seq<char>>,
    pub checklist_items: Seq<(Seq<char>, bool)>,
    pub completed: bool,
    pub canceled: bool,
    pub creation_date: Option<Seq<char>>,
    pub modification_date: Option<Seq<char>>,
    pub completion_date: Option<Seq<char>>,
    pub cancellation_date: Option<Seq<char>>,
}

impl View for Task {
    type V = TaskV;

    open spec fn view(&self) -> TaskV {
        TaskV {
            id: self.id@,
            title: self.title@,
            notes: self.notes.deep_view(),
            due_date: self.due_date.deep_view(),
            activation_date: self.activation_date.deep_view(),
            list: self.list.deep_view(),
            project: self.project.deep_view(),
            area: self.area.deep_view(),
            contact: self.contact.deep_view(),
            tags: self.tags.deep_view(),
            checklist_items: self.checklist_items@.map_values(|c: ChecklistItem| (c.title@, c.completed)),
            completed: self.completed,
            canceled: self.canceled,
            creation_date: self.creation_date.deep_view(),
            modification_date: self.modification_date.deep_view(),
            completion_date: self.completion_date.deep_view(),
            cancellation_date: self.cancellation_date.deep_view(),
        }
    }
}

/// One line of a to-do's checklist.
#[derive(Debug, Clone)]
pub struct ChecklistItem {
    pub title: String,
    pub completed: bool,
}

/// A project in Things 3.
#[derive(Debug, Clone)]
pub struct Project {
    pub id: String,
    pub title: String,
    pub notes: Option<String>,
    pub due_date: Option<String>,
    pub activation_date: Option<String>,
    pub area: Option<String>,
    pub tags: Vec<String>,
    pub completed: bool,
    pub canceled: bool,
    pub creation_date: Option<String>,
    pub modification_date: Option<String>,
    pub completion_date: Option<String>,
    pub cancellation_date: Option<String>,
}

/// The view of a [`Project`].
pub struct ProjectV {
    pub id: Seq<char>,
    pub title: Seq<char>,
    pub notes: Option<Seq<char>>,
    pub due_date: Option<Seq<char>>,
    pub activation_date: Option<Seq<char>>,
    pub area: Option<Seq<char>>,
    pub tags: Seq<Seq<char>>,
    pub completed: bool,
    pub canceled: bool,
    pub creation_date: Option<Seq<char>>,
    pub modification_date: Option<Seq<char>>,
    pub completion_date: Option<Seq<char>>,
    pub cancellation_date: Option<Seq<char>>,
}

impl View for Project {
    type V = ProjectV;

    open spec fn view(&self) -> ProjectV {
        ProjectV {
            id: self.id@,
            title: self.title@,
            notes: self.notes.deep_view(),
            due_date: self.due_date.deep_view(),
            activation_date: self.activation_date.deep_view(),
            area: self.area.deep_view(),
            tags: self.tags.deep_view(),
            completed: self.completed,
            canceled: self.canceled,
            creation_date: self.creation_date.deep_view(),
            modification_date: self.modification_date.deep_view(),
            completion_date: self.completion_date.deep_view(),
            cancellation_date: self.cancellation_date.deep_view(),
        }
    }
}

/// A tag in Things 3.
#[derive(Debug, Clone)]
pub struct Tag {
    pub id: String,
    pub name: String,
    pub keyboard_shortcut: Option<String>,
    pub parent_tag: Option<String>,
}

/// The view of a [`Tag`].
pub struct TagV {
    pub id: Seq<char>,
    pub name: Seq<char>,
    pub keyboard_shortcut: Option<Seq<char>>,
    pub parent_tag: Option<Seq<char>>,
}

impl View for Tag {
    type V = TagV;

    open spec fn view(&self) -> TagV {
        TagV {
            id: self.id@,
            name: self.name@,
            keyboard_shortcut: self.keyboard_shortcut.deep_view(),
            parent_tag: self.parent_tag.deep_view(),
        }
    }
}

/// An area of responsibility in Things 3.
#[derive(Debug, Clone)]
pub struct Area {
    pub id: String,
    pub title: String,
    pub collapsed: bool,
    pub tags: Vec<String>,
}

/// The view of an [`Area`].
pub struct AreaV {
    pub id: Seq<char>,
    pub title: Seq<char>,
    pub collapsed: bool,
    pub tags: Seq<Seq<char>>,
}

impl View for Area {
    type V = AreaV;

    open spec fn view(&self) -> AreaV {
        AreaV { id: self.id@, title: self.title@, collapsed: self.collapsed, tags: self.tags.deep_view() }
    }
}

/// A contact that to-dos can be assigned to.
#[derive(Debug, Clone)]
pub struct Contact {
    pub id: String,
    pub name: String,
}

impl View for Contact {
    type V = (Seq<char>, Seq<char>);

    open spec fn view(&self) -> (Seq<char>, Seq<char>) {
        (self.id@, self.name@)
    }
}

/// One of the seven built-in lists (Inbox, Today, ...).
#[derive(Debug, Clone)]
pub struct ListInfo {
    pub id: String,
    pub name: String,
}

impl View for ListInfo {
    type V = (Seq<char>, Seq<char>);

    open spec fn view(&self) -> (Seq<char>, Seq<char>) {
        (self.id@, self.name@)
    }
}

/// Query of `GET /tasks`: which list, and which page of it.
#[derive(Debug, Clone)]
pub struct TasksQuery {
    /// One of `inbox`, `today`, `upcoming`, `anytime`, `someday`, `logbook`, `trash`. Defaults to `inbox`.
    pub list: Option<String>,
    /// Maximum number of tasks to return.
    pub limit: Option<usize>,
    /// Number of tasks to skip from the start of the list.
    pub offset: Option<usize>,
}

/// Body of `POST /tasks`.
#[derive(Debug, Clone)]
pub struct CreateTask {
    pub title: String,
    pub notes: Option<String>,
    /// Date string parseable by AppleScript, e.g. `"March 25, 2026"`.
    pub due_date: Option<String>,
    /// Scheduled date ("when"), wired via the AppleScript `schedule` command.
    pub activation_date: Option<String>,
    /// One of `inbox`, `today`, `upcoming`, `anytime`, `someday`, wired via AppleScript `move`.
    pub list: Option<String>,
    pub tags: Option<Vec<String>>,
    /// Exact project name. Takes priority over `area`.
    pub project: Option<String>,
    /// Exact area name (alternative to `project`).
    pub area: Option<String>,
    /// Exact contact name (must exist in Things 3 contacts).
    pub contact: Option<String>,
    pub checklist_items: Option<Vec<String>>,
}

/// Body of `PATCH /tasks/{id}`; every field left `None` stays as it is.
#[derive(Debug, Clone)]
pub struct UpdateTask {
    pub title: Option<String>,
    pub notes: Option<String>,
    /// New due date. Empty string clears it.
    pub due_date: Option<String>,
    /// New scheduled date ("when"). Empty string moves the task back to Anytime.
    pub activation_date: Option<String>,
    /// Move to list: `inbox`, `today`, `upcoming`, `anytime`, `someday`.
    pub list: Option<String>,
    pub tags: Option<Vec<String>>,
    /// Move to project (by name). Empty string detaches the project.
    pub project: Option<String>,
    /// Move to area (by name). Empty string detaches the area.
    pub area: Option<String>,
    /// Assign to contact (by name). Empty string clears it.
    pub contact: Option<String>,
    pub completed: Option<bool>,
    /// Set the canceled status of the task.
    pub canceled: Option<bool>,
}

/// Body of `POST /projects`.
#[derive(Debug, Clone)]
pub struct CreateProject {
    pub title: String,
    pub notes: Option<String>,
    pub due_date: Option<String>,
    pub activation_date: Option<String>,
    pub area: Option<String>,
    pub tags: Option<Vec<String>>,
}

/// Body of `PATCH /projects/{id}`.
#[derive(Debug, Clone)]
pub struct UpdateProject {
    pub title: Option<String>,
    pub notes: Option<String>,
    pub due_date: Option<String>,
    pub activation_date: Option<String>,
    pub area: Option<String>,
    pub tags: Option<Vec<String>>,
    pub completed: Option<bool>,
    pub canceled: Option<bool>,
}

/// Body of `POST /areas`.
#[derive(Debug, Clone)]
pub struct CreateArea {
    pub title: String,
    pub tags: Option<Vec<String>>,
    pub collapsed: Option<bool>,
}

/// Body of `PATCH /areas/{id}`.
#[derive(Debug, Clone)]
pub struct UpdateArea {
    pub title: Option<String>,
    pub tags: Option<Vec<String>>,
    pub collapsed: Option<bool>,
}

/// Body of `POST /tags`.
#[derive(Debug, Clone)]
pub struct CreateTag {
    pub name: String,
    pub keyboard_shortcut: Option<String>,
    /// Parent tag name (for hierarchical tags).
    pub parent_tag: Option<String>,
}

/// Body of `PATCH /tags/{id}`.
#[derive(Debug, Clone)]
pub struct UpdateTag {
    pub name: Option<String>,
    pub keyboard_shortcut: Option<String>,
    /// Parent tag name. Empty string detaches from parent.
    pub parent_tag: Option<String>,
}

/// Body of `POST /contacts`.
#[derive(Debug, Clone)]
pub struct CreateContact {
    pub name: String,
}

/// Body of `POST /system/quick-entry`.
#[derive(Debug, Clone)]
pub struct QuickEntry {
    pub title: Option<String>,
    pub notes: Option<String>,
    pub due_date: Option<String>,
    pub tags: Option<Vec<String>>,
    /// If true, Things 3 autofills from the foreground app.
    pub autofill: Option<bool>,
}

/// Body of `POST /tasks/parse`.
#[derive(Debug, Clone)]
pub struct ParseInput {
    /// Natural-language Quicksilver input, e.g. `"Buy milk @home #shopping !tomorrow"`.
    pub text: String,
}

/// What `GET /info` reports about the Things 3 application.
#[derive(Debug, Clone)]
pub struct AppInfo {
    pub name: String,
    pub version: String,
    pub frontmost: bool,
    /// Name of the list/area/project currently focused in the Things UI.
    pub current_list_name: Option<String>,
    /// URL of the list/area/project currently focused in the Things UI.
    pub current_list_url: Option<String>,
}

/// The view of an [`AppInfo`].
pub struct AppInfoV {
    pub name: Seq<char>,
    pub version: Seq<char>,
    pub frontmost: bool,
    pub current_list_name: Option<Seq<char>>,
    pub current_list_url: Option<Seq<char>>,
}

impl View for AppInfo {
    type V = AppInfoV;

    open spec fn view(&self) -> AppInfoV {
        AppInfoV {
            name: self.name@,
            version: self.version@,
            frontmost: self.frontmost,
            current_list_name: self.current_list_name.deep_view(),
            current_list_url: self.current_list_url.deep_view(),
        }
    }
}

/// One Things 3 window.
#[derive(Debug, Clone)]
pub struct WindowInfo {
    pub id: i64,
    pub name: String,
    pub index: i64,
    pub bounds: [i64; 4],
    pub visible: bool,
    pub minimized: bool,
    pub zoomed: bool,
    pub closeable: bool,
    pub minimizable: bool,
    pub resizable: bool,
    pub zoomable: bool,
}

/// Body of `PATCH /windows/{id}`.
#[derive(Debug, Clone)]
pub struct UpdateWindow {
    /// Stacking order; 1 is frontmost.
    pub index: Option<i64>,
    /// `[x1, y1, x2, y2]` bounding rectangle in screen coordinates.
    pub bounds: Option<[i64; 4]>,
    pub visible: Option<bool>,
    pub minimized: Option<bool>,
    pub zoomed: Option<bool>,
}

/// Body of `POST /system/quit`.
#[derive(Debug, Clone)]
pub struct QuitRequest {
    /// Must be `true` to actually quit Things 3.
    pub confirm: bool,
}

/// Reply of the `/count` endpoints.
#[derive(Debug, Clone)]
pub struct CountResponse {
    pub count: usize,
    pub scope: String,
}

/// Reply of `GET /health`.
#[derive(Debug, Clone)]
pub struct HealthResponse {
    pub status: String,
    pub version: String,
}

/// Body of every error reply.
#[derive(Debug, Clone)]
pub struct ErrorResponse {
    pub error: String,
}

} // verus!
