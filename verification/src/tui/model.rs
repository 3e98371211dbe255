//! The server's records as the terminal client reads and sends them.
//!
//! Each record has a view: the same fields, with every `String` read as its
//! characters.

use vstd::prelude::*;

verus! {

/// A to-do as the server lists it.
#[derive(Debug, Clone, Default)]
pub struct Task {
    pub id: String,
    pub title: String,
    pub notes: Option<String>,
    pub due_date: Option<String>,
    pub activation_date: Option<String>,
    pub list: Option<String>,
    pub project: Option<String>,
    pub area: Option<String>,
    pub contact: Option<String>,
    pub tags: Vec<String>,
    pub checklist_items: Vec<ChecklistItem>,
    pub completed: bool,
    pub canceled: bool,
    pub creation_date: Option<String>,
    pub modification_date: Option<String>,
    pub completion_date: Option<String>,
    pub cancellation_date: Option<String>,
}

/// The view of a [`Task`]: the fields the client reads.
pub struct TaskV {
    pub id: Seq<char>,
    pub title: Seq<char>,
    pub notes: Option<Seq<char>>,
    pub due_date: Option<Seq<char>>,
    pub activation_date: Option<Seq<char>>,
    pub list: Option<Seq<char>>,
    pub project: Option<Seq<char>>,
    pub area: Option<Seq<char>>,
    pub contact: Option<Seq<char>>,
    pub tags: Seq<Seq<char>>,
    pub checklist_items: Seq<(Seq<char>, bool)>,
    pub completed: bool,
    pub canceled: bool,
    pub creation_date: Option<Seq<char>>,
    pub modification_date: Option<Seq<char>>,
    pub completion_date: Option<Seq<char>>,
    pub cancellation_date: Option<Seq<char>>,
}

/// The views of checklist lines: each title and whether it is ticked.
pub open spec fn checklist_view(items: Seq<ChecklistItem>) -> Seq<(Seq<char>, bool)> {
    items.map_values(|c: ChecklistItem| (c.title@, c.completed))
}

impl View for Task {
    type V = TaskV;

    open spec fn view(&self) -> TaskV {
        TaskV {
            id: self.id@,
            title: self.title@,
            notes: self.notes.deep_view(),
            due_date: self.due_date.deep_view(),
            activation_date: self.activation_date.deep_view(),
            list: self.list.deep_view(),
            project: self.project.deep_view(),
            area: self.area.deep_view(),
            contact: self.contact.deep_view(),
            tags: self.tags.deep_view(),
            checklist_items: checklist_view(self.checklist_items@),
            completed: self.completed,
            canceled: self.canceled,
            creation_date: self.creation_date.deep_view(),
            modification_date: self.modification_date.deep_view(),
            completion_date: self.completion_date.deep_view(),
            cancellation_date: self.cancellation_date.deep_view(),
        }
    }
}

/// One line of a to-do's checklist.
#[derive(Debug, Clone, Default)]
pub struct ChecklistItem {
    pub title: String,
    pub completed: bool,
}

/// A project as the server lists it.
#[derive(Debug, Clone)]
pub struct Project {
    pub id: String,
    pub title: String,
    pub notes: Option<String>,
    pub due_date: Option<String>,
    pub activation_date: Option<String>,
    pub area: Option<String>,
    pub tags: Vec<String>,
    pub completed: bool,
    pub canceled: bool,
}

/// The view of a [`Project`]: the fields the client reads.
pub struct ProjectV {
    pub id: Seq<char>,
    pub title: Seq<char>,
    pub area: Option<Seq<char>>,
    pub completed: bool,
    pub canceled: bool,
}

impl View for Project {
    type V = ProjectV;

    open spec fn view(&self) -> ProjectV {
        ProjectV {
            id: self.id@,
            title: self.title@,
            area: self.area.deep_view(),
            completed: self.completed,
            canceled: self.canceled,
        }
    }
}

/// An area as the server lists it.
#[derive(Debug, Clone)]
pub struct Area {
    pub id: String,
    pub title: String,
    pub collapsed: bool,
    pub tags: Vec<String>,
}

impl View for Area {
    type V = (Seq<char>, Seq<char>);

    /// Its id and title.
    open spec fn view(&self) -> (Seq<char>, Seq<char>) {
        (self.id@, self.title@)
    }
}

/// A tag as the server lists it.
#[derive(Debug, Clone)]
pub struct Tag {
    pub id: String,
    pub name: String,
    pub keyboard_shortcut: Option<String>,
    pub parent_tag: Option<String>,
}

impl View for Tag {
    type V = (Seq<char>, Seq<char>);

    /// Its id and name.
    open spec fn view(&self) -> (Seq<char>, Seq<char>) {
        (self.id@, self.name@)
    }
}

/// The body of a request that creates a to-do; `None` fields are left out.
#[derive(Debug, Clone, Default)]
pub struct CreateTask {
    pub title: String,
    pub notes: Option<String>,
    pub due_date: Option<String>,
    pub activation_date: Option<String>,
    pub list: Option<String>,
    pub tags: Option<Vec<String>>,
    pub project: Option<String>,
    pub area: Option<String>,
}

/// The view of a [`CreateTask`].
pub struct CreateTaskV {
    pub title: Seq<char>,
    pub notes: Option<Seq<char>>,
    pub due_date: Option<Seq<char>>,
    pub activation_date: Option<Seq<char>>,
    pub list: Option<Seq<char>>,
    pub tags: Option<Seq<Seq<char>>>,
    pub project: Option<Seq<char>>,
    pub area: Option<Seq<char>>,
}

impl View for CreateTask {
    type V = CreateTaskV;

    open spec fn view(&self) -> CreateTaskV {
        CreateTaskV {
            title: self.title@,
            notes: self.notes.deep_view(),
            due_date: self.due_date.deep_view(),
            activation_date: self.activation_date.deep_view(),
            list: self.list.deep_view(),
            tags: self.tags.deep_view(),
            project: self.project.deep_view(),
            area: self.area.deep_view(),
        }
    }
}

/// The body of a request that changes a to-do; `None` fields stay as they are.
#[derive(Debug, Clone, Default)]
pub struct UpdateTask {
    pub title: Option<String>,
    pub notes: Option<String>,
    pub due_date: Option<String>,
    pub activation_date: Option<String>,
    pub list: Option<String>,
    pub tags: Option<Vec<String>>,
    pub project: Option<String>,
    pub area: Option<String>,
}

/// The view of an [`UpdateTask`].
pub struct UpdateTaskV {
    pub title: Option<Seq<char>>,
    pub notes: Option<Seq<char>>,
    pub due_date: Option<Seq<char>>,
    pub activation_date: Option<Seq<char>>,
    pub list: Option<Seq<char>>,
    pub tags: Option<Seq<Seq<char>>>,
    pub project: Option<Seq<char>>,
    pub area: Option<Seq<char>>,
}

impl View for UpdateTask {
    type V = UpdateTaskV;

    open spec fn view(&self) -> UpdateTaskV {
        UpdateTaskV {
            title: self.title.deep_view(),
            notes: self.notes.deep_view(),
            due_date: self.due_date.deep_view(),
            activation_date: self.activation_date.deep_view(),
            list: self.list.deep_view(),
            tags: self.tags.deep_view(),
            project: self.project.deep_view(),
            area: self.area.deep_view(),
        }
    }
}

/// The empty change: every field left as it is.
pub open spec fn no_change() -> UpdateTaskV {
    UpdateTaskV {
        title: None,
        notes: None,
        due_date: None,
        activation_date: None,
        list: None,
        tags: None,
        project: None,
        area: None,
    }
}

impl UpdateTask {
    /// A change that sets nothing.
    pub fn empty() -> (u: UpdateTask)
        ensures
            u@ == no_change(),
    {
        UpdateTask {
            title: None,
            notes: None,
            due_date: None,
            activation_date: None,
            list: None,
            tags: None,
            project: None,
            area: None,
        }
    }
}

/// The body of a request that creates a project.
#[derive(Debug, Clone, Default)]
pub struct CreateProject {
    pub title: String,
    pub notes: Option<String>,
    pub area: Option<String>,
    pub tags: Option<Vec<String>>,
}

/// The view of a [`CreateProject`].
pub struct CreateProjectV {
    pub title: Seq<char>,
    pub notes: Option<Seq<char>>,
    pub area: Option<Seq<char>>,
    pub tags: Option<Seq<Seq<char>>>,
}

impl View for CreateProject {
    type V = CreateProjectV;

    open spec fn view(&self) -> CreateProjectV {
        CreateProjectV {
            title: self.title@,
            notes: self.notes.deep_view(),
            area: self.area.deep_view(),
            tags: self.tags.deep_view(),
        }
    }
}

/// The body the server sends with an error status.
#[derive(Debug, Clone)]
pub struct ServerError {
    pub error: String,
}

} // verus!
