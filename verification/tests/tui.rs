use things_api::tui::app::{handle_key_on, handle_modal_key};
use things_api::tui::config::{
    choose_endpoint, mode_for_choice, needs_remote_url, read_token_text, remote_url_answer,
    resolved_token, resolved_url, token_answer, Mode, Probe, TuiConfig,
};
use things_api::tui::dates::days_from_civil;
use things_api::tui::display::{error_message, list_title, short_date, status_label, truncate};
use things_api::tui::forms::{opt_string, parse_tags, when_to_date};
use things_api::tui::keys::{browse_action, Action, KeyCode, KeyPress};
use things_api::tui::model::{Area, Project, ServerError, Tag, Task};
use things_api::tui::sidebar::build_sidebar;
use things_api::tui::state::{
    App, Call, DateChoice, DateField, Message, Modal, Pane, Request, Selection, SidebarNode,
    SpecialList,
};

fn key(c: char) -> KeyPress {
    KeyPress { code: KeyCode::Char(c), ctrl: false, shift: false }
}

fn code(k: KeyCode) -> KeyPress {
    KeyPress { code: k, ctrl: false, shift: false }
}

fn ctrl(c: char) -> KeyPress {
    KeyPress { code: KeyCode::Char(c), ctrl: true, shift: false }
}

fn task(id: &str, title: &str) -> Task {
    Task { id: id.to_string(), title: title.to_string(), ..Task::default() }
}

fn project(id: &str, title: &str, area: Option<&str>) -> Project {
    Project {
        id: id.to_string(),
        title: title.to_string(),
        notes: None,
        due_date: None,
        activation_date: None,
        area: area.map(|a| a.to_string()),
        tags: vec![],
        completed: false,
        canceled: false,
    }
}

fn area(id: &str, title: &str) -> Area {
    Area { id: id.to_string(), title: title.to_string(), collapsed: false, tags: vec![] }
}

fn tag(id: &str, name: &str) -> Tag {
    Tag { id: id.to_string(), name: name.to_string(), keyboard_shortcut: None, parent_tag: None }
}

fn new_app() -> App {
    App::new(TuiConfig::default_config(), Probe { local_reachable: true, remote_url: None, remote_reachable: false })
}

const TODAY: i64 = 20557; // Tuesday 2026-04-14

fn press(app: &mut App, k: KeyPress) -> Vec<Request> {
    handle_key_on(app, k, TODAY)
}

fn load(app: &mut App, tasks: Vec<Task>) {
    let sel = app.selection.copy();
    app.handle_message(Message::TasksLoaded { for_selection: sel, tasks: Ok(tasks) });
}

#[test]
fn starts_on_today_with_the_lists() {
    let app = new_app();
    assert_eq!(app.focus, Pane::List);
    assert_eq!(app.sidebar_cursor, 1);
    assert_eq!(app.sidebar_nodes.len(), 8);
    assert!(matches!(app.selection, Selection::List(SpecialList::Today)));
    let reqs = app.schedule_initial_loads();
    assert!(matches!(reqs[0], Request::LoadSidebar));
    assert!(matches!(reqs[1], Request::LoadTasks(Selection::List(SpecialList::Today))));
}

#[test]
fn sidebar_tree() {
    let areas = vec![area("a1", "Work"), area("a2", "Home")];
    let projects = vec![
        project("p1", "Q1", Some("Work")),
        project("p2", "Loose", None),
        project("p3", "Gone", Some("Nowhere")),
        project("p4", "Blank", Some("")),
    ];
    let tags = vec![tag("t1", "urgent")];
    let nodes = build_sidebar(&areas, &projects, &tags);
    let names: Vec<String> = nodes
        .iter()
        .map(|n| match n {
            SidebarNode::SectionHeader(h) => format!("[{h}]"),
            SidebarNode::List(l) => l.label().to_string(),
            SidebarNode::Area { title, .. } => format!("area {title}"),
            SidebarNode::Project { title, nested, .. } => format!("project {title} {nested}"),
            SidebarNode::Tag { name, .. } => format!("tag {name}"),
        })
        .collect();
    assert_eq!(
        names,
        vec![
            "[Lists]", "Inbox", "Today", "Upcoming", "Anytime", "Someday", "Logbook", "Trash",
            "[Areas]", "area Work", "project Q1 true", "area Home", "[Projects]",
            "project Loose false", "project Gone false", "project Blank false", "[Tags]", "tag urgent",
        ]
    );
}

#[test]
fn sidebar_navigation_skips_headers() {
    let mut app = new_app();
    app.handle_message(Message::SidebarLoaded {
        areas: Ok(vec![area("a1", "Work")]),
        projects: Ok(vec![]),
        tags: Err("boom".to_string()),
    });
    assert_eq!(app.sidebar_nodes.len(), 10);
    app.focus = Pane::Sidebar;
    app.sidebar_cursor = 7; // Trash
    let reqs = press(&mut app, key('j'));
    // Skips the "Areas" header and selects the area.
    assert_eq!(app.sidebar_cursor, 9);
    assert!(matches!(&app.selection, Selection::Area(id) if id == "a1"));
    assert!(app.tasks_loading);
    assert!(matches!(&reqs[0], Request::LoadTasks(Selection::Area(id)) if id == "a1"));
    // Top lands on Inbox, below the first header.
    press(&mut app, key('g'));
    assert_eq!(app.sidebar_cursor, 1);
    assert!(matches!(app.selection, Selection::List(SpecialList::Inbox)));
    // Up from the first list stays there.
    press(&mut app, key('k'));
    assert_eq!(app.sidebar_cursor, 1);
}

#[test]
fn task_cursor_and_stale_loads() {
    let mut app = new_app();
    load(&mut app, vec![task("1", "a"), task("2", "b"), task("3", "c")]);
    press(&mut app, key('j'));
    press(&mut app, key('j'));
    press(&mut app, key('j'));
    assert_eq!(app.task_cursor, 2);
    press(&mut app, code(KeyCode::PageUp));
    assert_eq!(app.task_cursor, 0);
    press(&mut app, key('G'));
    assert_eq!(app.task_cursor, 2);
    // A load for another list is dropped.
    app.handle_message(Message::TasksLoaded {
        for_selection: Selection::List(SpecialList::Inbox),
        tasks: Ok(vec![]),
    });
    assert_eq!(app.tasks.len(), 3);
    // A shorter list pulls the cursor in.
    load(&mut app, vec![task("9", "z")]);
    assert_eq!(app.task_cursor, 0);
    let sel = app.selection.copy();
    app.handle_message(Message::TasksLoaded { for_selection: sel, tasks: Err("offline".to_string()) });
    assert_eq!(app.toast.as_ref().unwrap().text, "Load failed: offline");
}

#[test]
fn search_filter() {
    let mut app = new_app();
    let mut t = task("1", "Buy milk");
    t.tags = vec!["Errands".to_string()];
    load(&mut app, vec![t, task("2", "Write report")]);
    press(&mut app, key('/'));
    for c in "ERR".chars() {
        press(&mut app, key(c));
    }
    press(&mut app, code(KeyCode::Backspace));
    press(&mut app, key('r'));
    press(&mut app, code(KeyCode::Enter));
    assert_eq!(app.filter.as_deref(), Some("ERr"));
    let shown = app.visible_tasks();
    assert_eq!(shown.len(), 1);
    assert_eq!(shown[0].id, "1");
}

#[test]
fn complete_and_reopen() {
    let mut app = new_app();
    load(&mut app, vec![task("1", "a")]);
    let reqs = press(&mut app, key(' '));
    assert!(app.tasks[0].completed);
    match &reqs[0] {
        Request::Mutate { call: Call::Complete(id), done } => {
            assert_eq!(id, "1");
            assert_eq!(done, "Completed");
        },
        _ => panic!("expected completion"),
    }
    let reqs = press(&mut app, key(' '));
    match &reqs[0] {
        Request::Mutate { call: Call::Update(id, body), done } => {
            assert_eq!(id, "1");
            assert_eq!(body.list.as_deref(), Some("anytime"));
            assert_eq!(done, "Reopened");
        },
        _ => panic!("expected reopening"),
    }
}

#[test]
fn new_task_in_inbox() {
    let mut app = new_app();
    app.selection = Selection::List(SpecialList::Inbox);
    press(&mut app, key('n'));
    for c in " Milk ".chars() {
        press(&mut app, key(c));
    }
    press(&mut app, code(KeyCode::Tab));
    press(&mut app, code(KeyCode::Tab));
    press(&mut app, code(KeyCode::Tab));
    press(&mut app, code(KeyCode::Tab));
    for c in "home, #errands, ,".chars() {
        press(&mut app, key(c));
    }
    let reqs = press(&mut app, ctrl('s'));
    assert!(app.modal.is_none());
    match &reqs[0] {
        Request::Mutate { call: Call::CreateTask(body), done } => {
            assert_eq!(body.title, "Milk");
            assert_eq!(body.list.as_deref(), Some("inbox"));
            assert_eq!(body.tags, Some(vec!["home".to_string(), "errands".to_string()]));
            assert_eq!(body.notes, None);
            assert_eq!(done, "Task created");
        },
        _ => panic!("expected creation"),
    }
}

#[test]
fn new_task_needs_a_title() {
    let mut app = new_app();
    press(&mut app, key('n'));
    let reqs = press(&mut app, ctrl('s'));
    assert!(reqs.is_empty());
    assert_eq!(app.toast.as_ref().unwrap().text, "Title is required");
}

#[test]
fn new_task_in_today_is_scheduled_today() {
    let mut app = new_app();
    press(&mut app, key('n'));
    press(&mut app, key('x'));
    let reqs = press(&mut app, ctrl('s'));
    match &reqs[0] {
        Request::Mutate { call: Call::CreateTask(body), .. } => {
            assert_eq!(body.title, "x");
            assert_eq!(body.activation_date.as_deref(), Some("today"));
            assert_eq!(body.list, None);
        },
        _ => panic!(),
    }
}

#[test]
fn schedule_dialog() {
    let mut app = new_app();
    load(&mut app, vec![task("7", "a")]);
    press(&mut app, key('s'));
    press(&mut app, key('j'));
    let reqs = press(&mut app, code(KeyCode::Enter));
    match &reqs[0] {
        Request::Mutate { call: Call::Update(id, body), done } => {
            assert_eq!(id, "7");
            assert_eq!(body.activation_date.as_deref(), Some("April 15, 2026"));
            assert_eq!(done, "Rescheduled");
        },
        _ => panic!(),
    }
    // Anytime is a list move.
    press(&mut app, key('s'));
    for _ in 0..4 {
        press(&mut app, key('j'));
    }
    let reqs = press(&mut app, code(KeyCode::Enter));
    match &reqs[0] {
        Request::Mutate { call: Call::Update(_, body), .. } => assert_eq!(body.list.as_deref(), Some("anytime")),
        _ => panic!(),
    }
    // A specific date is typed first.
    press(&mut app, key('s'));
    press(&mut app, key('k'));
    press(&mut app, key('k'));
    assert!(press(&mut app, code(KeyCode::Enter)).is_empty());
    for c in "May 1".chars() {
        press(&mut app, key(c));
    }
    let reqs = press(&mut app, code(KeyCode::Enter));
    match &reqs[0] {
        Request::Mutate { call: Call::Update(_, body), .. } => assert_eq!(body.activation_date.as_deref(), Some("May 1")),
        _ => panic!(),
    }
}

#[test]
fn tags_dialog() {
    let mut app = new_app();
    app.tags = vec![tag("t1", "home"), tag("t2", "work"), tag("t3", "misc")];
    let mut t = task("1", "a");
    t.tags = vec!["work".to_string()];
    load(&mut app, vec![t]);
    press(&mut app, key('t'));
    match &app.modal {
        Some(Modal::Tags(f)) => assert_eq!(f.selected_indices, vec![1]),
        _ => panic!(),
    }
    press(&mut app, key('j'));
    press(&mut app, key(' '));
    press(&mut app, key('j'));
    press(&mut app, key(' '));
    let reqs = press(&mut app, code(KeyCode::Enter));
    match &reqs[0] {
        Request::Mutate { call: Call::Update(_, body), done } => {
            assert_eq!(body.tags, Some(vec!["misc".to_string()]));
            assert_eq!(done, "Tags updated");
        },
        _ => panic!(),
    }
}

#[test]
fn move_dialog() {
    let mut app = new_app();
    app.projects = vec![project("p1", "Plan", None)];
    app.areas = vec![area("a1", "Home")];
    load(&mut app, vec![task("1", "a")]);
    press(&mut app, key('m'));
    match &app.modal {
        Some(Modal::MovePicker(f)) => assert_eq!(f.destinations.len(), 7),
        _ => panic!(),
    }
    for _ in 0..4 {
        press(&mut app, key('j'));
    }
    let reqs = press(&mut app, code(KeyCode::Enter));
    match &reqs[0] {
        Request::Mutate { call: Call::Update(_, body), done } => {
            assert_eq!(body.project.as_deref(), Some(""));
            assert_eq!(body.area.as_deref(), Some(""));
            assert_eq!(done, "Moved");
        },
        _ => panic!(),
    }
}

#[test]
fn delete_and_trash() {
    let mut app = new_app();
    load(&mut app, vec![task("1", "a")]);
    press(&mut app, key('d'));
    assert!(press(&mut app, key('n')).is_empty());
    assert!(matches!(app.modal, Some(Modal::ConfirmDelete(_, _))));
    let reqs = press(&mut app, key('y'));
    assert!(matches!(&reqs[0], Request::Mutate { call: Call::Delete(id), .. } if id == "1"));
    // Emptying the trash is offered only from the Trash list.
    press(&mut app, key('D'));
    assert!(app.modal.is_none());
    app.selection = Selection::List(SpecialList::Trash);
    press(&mut app, key('D'));
    let reqs = press(&mut app, code(KeyCode::Enter));
    assert!(matches!(&reqs[0], Request::Mutate { call: Call::EmptyTrash, .. }));
}

#[test]
fn escape_and_quick_entry() {
    let mut app = new_app();
    press(&mut app, key('?'));
    assert!(matches!(app.modal, Some(Modal::Help)));
    press(&mut app, code(KeyCode::Esc));
    assert!(app.modal.is_none());
    let reqs = press(&mut app, ctrl('c'));
    assert!(!app.should_quit);
    assert!(matches!(&reqs[0], Request::Mutate { call: Call::ShowQuickEntry, done } if done == "Quick Entry opened"));
    press(&mut app, key('q'));
    assert!(app.should_quit);
    assert!(handle_modal_key(&mut app, key('x'), TODAY).is_empty());
}

#[test]
fn mutation_results() {
    let mut app = new_app();
    app.modal = Some(Modal::Help);
    let reqs = app.handle_message(Message::MutationDone(Ok("Saved".to_string())));
    assert!(app.modal.is_none());
    assert_eq!(app.toast.as_ref().unwrap().text, "Saved");
    assert!(matches!(reqs[0], Request::LoadTasks(_)));
    app.handle_message(Message::MutationDone(Err("nope".to_string())));
    assert_eq!(app.toast.as_ref().unwrap().text, "\u{2717} nope");
}

#[test]
fn key_map() {
    assert_eq!(browse_action(&key('j')), Some(Action::Down));
    assert_eq!(browse_action(&code(KeyCode::Up)), Some(Action::Up));
    assert_eq!(browse_action(&ctrl('r')), None);
    assert_eq!(browse_action(&key('r')), Some(Action::Refresh));
    assert_eq!(browse_action(&KeyPress { code: KeyCode::Char('n'), ctrl: false, shift: true }), None);
    assert_eq!(browse_action(&key('N')), Some(Action::NewProject));
    assert_eq!(browse_action(&ctrl('c')), Some(Action::ShowQuickEntry));
    assert_eq!(browse_action(&key('c')), None);
    assert_eq!(browse_action(&code(KeyCode::Other)), None);
}

#[test]
fn form_fields() {
    assert_eq!(opt_string("  hi "), Some("hi".to_string()));
    assert_eq!(opt_string("   "), None);
    assert_eq!(parse_tags(" a ,#b, ##, c "), Some(vec!["a".to_string(), "b".to_string(), "c".to_string()]));
    assert_eq!(parse_tags(" , ,"), None);
    let today = days_from_civil(2026, 4, 14);
    let f = |choice, s: &str| DateField { choice, specific: s.to_string() };
    assert_eq!(when_to_date(&f(Some(DateChoice::Today), ""), today), Some("today".to_string()));
    assert_eq!(when_to_date(&f(Some(DateChoice::NextWeek), ""), today), Some("April 20, 2026".to_string()));
    assert_eq!(when_to_date(&f(Some(DateChoice::Someday), "x"), today), None);
    assert_eq!(when_to_date(&f(Some(DateChoice::Clear), "x"), today), Some(String::new()));
    assert_eq!(when_to_date(&f(None, "  May 2 "), today), Some("May 2".to_string()));
    assert_eq!(when_to_date(&f(None, "  "), today), None);
}

#[test]
fn display_texts() {
    assert_eq!(truncate("hello", 5), "hello");
    assert_eq!(truncate("hello world", 5), "hello\u{2026}");
    assert_eq!(short_date("2026-04-14 09:00"), "2026-04-14");
    assert_eq!(short_date("Tuesday"), "Tuesday");
    assert_eq!(status_label(true, "http://x"), "reachable @ http://x");
    assert_eq!(status_label(false, "http://x"), "not reachable @ http://x");
    assert_eq!(error_message(404, "{}", Some(&ServerError { error: "gone".to_string() })), "404: gone");
    assert_eq!(error_message(500, "oops", None), "500: oops");
    assert_eq!(error_message(502, "", None), "HTTP 502");
    let mut app = new_app();
    app.tags = vec![tag("t1", "home")];
    app.selection = Selection::Tag("t1".to_string());
    assert_eq!(list_title(&app), "#home");
    app.selection = Selection::Project("p9".to_string());
    assert_eq!(list_title(&app), "Project");
}

#[test]
fn endpoints_and_tokens() {
    let cfg = TuiConfig::default_config();
    assert_eq!(cfg.local_url, "http://127.0.0.1:3333");
    let down = Probe { local_reachable: false, remote_url: Some("https://me.example".to_string()), remote_reachable: true };
    assert_eq!(resolved_url(&cfg, &down), Some("https://me.example".to_string()));
    let nothing = Probe { local_reachable: false, remote_url: None, remote_reachable: false };
    assert_eq!(resolved_url(&cfg, &nothing), Some("http://127.0.0.1:3333".to_string()));
    let mut remote = TuiConfig::default_config();
    remote.mode = Mode::Remote;
    assert_eq!(resolved_url(&remote, &nothing), None);
    assert_eq!(choose_endpoint(None, None, &remote, &nothing), Err("no endpoint to talk to".to_string()));
    assert_eq!(
        choose_endpoint(None, Some("lan"), &cfg, &nothing),
        Err("--endpoint must be 'local' or 'remote', got 'lan'".to_string())
    );
    assert_eq!(
        choose_endpoint(None, Some("remote"), &cfg, &nothing),
        Err("--endpoint remote requested but no remote URL configured".to_string())
    );
    assert_eq!(choose_endpoint(Some("http://h".to_string()), Some("lan"), &cfg, &nothing), Ok("http://h".to_string()));
    assert_eq!(mode_for_choice(" 1\n"), Mode::Local);
    assert_eq!(mode_for_choice("2"), Mode::Remote);
    assert_eq!(mode_for_choice(""), Mode::Auto);
    assert_eq!(read_token_text("  tok\n"), Some("tok".to_string()));
    assert_eq!(read_token_text(" \n"), None);
    let mut explicit = TuiConfig::default_config();
    explicit.explicit_token = Some("x".to_string());
    assert_eq!(resolved_token(&explicit, Some("y".to_string())), Some("x".to_string()));
    assert_eq!(resolved_token(&cfg, Some("y".to_string())), Some("y".to_string()));
}

#[test]
fn ctrl_c_in_a_dialog_quits() {
    let mut app = new_app();
    press(&mut app, key('n'));
    assert!(matches!(app.modal, Some(Modal::NewTask(_))));
    let reqs = press(&mut app, ctrl('c'));
    assert!(reqs.is_empty());
    assert!(app.should_quit);
}

#[test]
fn setup_answers() {
    let mut cfg = TuiConfig::default_config();
    assert!(!needs_remote_url(&cfg));
    cfg.mode = Mode::Remote;
    assert!(needs_remote_url(&cfg));
    cfg.remote_url = Some("https://me.example".to_string());
    assert!(!needs_remote_url(&cfg));
    assert_eq!(remote_url_answer("  https://x.example \n"), Ok("https://x.example".to_string()));
    assert_eq!(remote_url_answer(" \n"), Err("remote mode requires a URL".to_string()));
    assert_eq!(token_answer(" thingsapi_abc\n"), Some("thingsapi_abc".to_string()));
    assert_eq!(token_answer("\n"), None);
}

#[test]
fn loaded_tasks_keep_their_details() {
    let mut app = new_app();
    let mut t = task("T1", "Call");
    t.contact = Some("Sarah".to_string());
    t.project = Some("Plan".to_string());
    t.creation_date = Some("2026-04-01".to_string());
    load(&mut app, vec![t]);
    let shown = app.current_task().unwrap();
    assert_eq!(shown.contact.as_deref(), Some("Sarah"));
    assert_eq!(shown.project.as_deref(), Some("Plan"));
    assert_eq!(shown.creation_date.as_deref(), Some("2026-04-01"));
}
