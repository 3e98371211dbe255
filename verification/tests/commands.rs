use things_api::commands::{
    checklist_script, complete_task, count_tags, create_task, delete_tag, empty_trash, get_tasks,
    show_list, update_task,
};
use things_api::models::{CreateTask, UpdateTask};
use things_api::output::{parse_optional, parse_task_line, read_count, read_task_list};
use things_api::script::{esc, list_name};
use things_api::url::urlencode;

fn empty_create(title: &str) -> CreateTask {
    CreateTask {
        title: title.to_string(),
        notes: None,
        due_date: None,
        activation_date: None,
        list: None,
        tags: None,
        project: None,
        area: None,
        contact: None,
        checklist_items: None,
    }
}

fn empty_update() -> UpdateTask {
    UpdateTask {
        title: None,
        notes: None,
        due_date: None,
        activation_date: None,
        list: None,
        tags: None,
        project: None,
        area: None,
        contact: None,
        completed: None,
        canceled: None,
    }
}

#[test]
fn escaping_quotes_and_backslashes() {
    assert_eq!(esc(r#"say "hi" \ bye"#), r#"say \"hi\" \\ bye"#);
    assert_eq!(esc("plain"), "plain");
}

#[test]
fn list_names() {
    assert_eq!(list_name(None), "Inbox");
    assert_eq!(list_name(Some("")), "Inbox");
    assert_eq!(list_name(Some("today")), "Today");
    assert_eq!(list_name(Some("logbook")), "Logbook");
    assert_eq!(list_name(Some("My List")), "My List");
}

#[test]
fn simple_scripts() {
    assert_eq!(
        complete_task("ABC"),
        "tell application \"Things3\"\n    set t to to do id \"ABC\"\n    set status of t to completed\nend tell"
    );
    assert_eq!(empty_trash(), "tell application \"Things3\"\n    empty trash\nend tell");
    assert_eq!(
        show_list("To\"day"),
        "tell application \"Things3\"\n    show list \"To\\\"day\"\nend tell"
    );
    assert_eq!(
        count_tags(),
        "tell application \"Things3\"\n    return count of tags\nend tell"
    );
    assert_eq!(
        delete_tag("t1"),
        "tell application \"Things3\"\n    delete (tag id \"t1\")\nend tell"
    );
}

#[test]
fn task_page_bounds_in_script() {
    let s = get_tasks(Some("today"), Some(10), Some(20));
    assert!(s.contains("set theTasks to to dos of list \"Today\"\n"));
    assert!(s.contains("set startIdx to 21\n"));
    assert!(s.contains("set endIdx to 30\n"));
    let d = get_tasks(None, None, None);
    assert!(d.contains("to dos of list \"Inbox\""));
    assert!(d.contains("set startIdx to 1\n"));
    assert!(d.contains("set endIdx to 50\n"));
}

#[test]
fn create_task_minimal() {
    let s = create_task(&empty_create("Buy milk"));
    assert_eq!(
        s,
        "tell application \"Things3\"\n    set newTask to make new to do with properties {name:\"Buy milk\"}\n    return id of newTask\nend tell"
    );
}

#[test]
fn create_task_full() {
    let mut p = empty_create("Call \"Bob\"");
    p.notes = Some("re: Q1".to_string());
    p.due_date = Some("April 14, 2026".to_string());
    p.tags = Some(vec!["work".to_string(), "urgent".to_string()]);
    p.project = Some("Plan".to_string());
    p.area = Some("Ignored".to_string());
    p.activation_date = Some("today".to_string());
    p.list = Some("someday".to_string());
    p.contact = Some("Sarah".to_string());
    let s = create_task(&p);
    assert_eq!(
        s,
        "tell application \"Things3\"\n    set newTask to make new to do with properties {name:\"Call \\\"Bob\\\"\", notes:\"re: Q1\", due date:(date \"April 14, 2026\"), tag names:\"work, urgent\"}\n    set project of newTask to project \"Plan\"\n    schedule newTask for (date \"today\")\n    set contact of newTask to contact \"Sarah\"\n    return id of newTask\nend tell"
    );
}

#[test]
fn create_task_moves_to_list_without_date() {
    let mut p = empty_create("x");
    p.list = Some("anytime".to_string());
    p.area = Some("Home".to_string());
    let s = create_task(&p);
    assert_eq!(
        s,
        "tell application \"Things3\"\n    set newTask to make new to do with properties {name:\"x\"}\n    set area of newTask to area \"Home\"\n    move newTask to list \"Anytime\"\n    return id of newTask\nend tell"
    );
}

#[test]
fn create_task_project_takes_priority_over_list() {
    let mut p = empty_create("x");
    p.project = Some("P".to_string());
    p.list = Some("today".to_string());
    let s = create_task(&p);
    assert_eq!(
        s,
        "tell application \"Things3\"\n    set newTask to make new to do with properties {name:\"x\"}\n    set project of newTask to project \"P\"\n    return id of newTask\nend tell"
    );
    assert!(!s.contains("move newTask"));
}

#[test]
fn update_task_nothing_to_change() {
    assert_eq!(update_task("T1", &empty_update()), None);
}

#[test]
fn update_task_statements() {
    let mut u = empty_update();
    u.title = Some("New".to_string());
    u.due_date = Some(String::new());
    u.tags = Some(vec!["a".to_string(), "b\"c".to_string()]);
    u.project = Some(String::new());
    u.activation_date = Some(String::new());
    u.completed = Some(true);
    let s = update_task("T1", &u).unwrap();
    assert_eq!(
        s,
        "tell application \"Things3\"\n    set t to to do id \"T1\"\n    set name of t to \"New\"\n    set due date of t to missing value\n    set tag names of t to {\"a\", \"b\\\"c\"}\n    set project of t to missing value\n    move t to list \"Anytime\"\n    set status of t to completed\nend tell"
    );
}

#[test]
fn optional_fields() {
    assert_eq!(parse_optional("  missing value "), None);
    assert_eq!(parse_optional("   "), None);
    assert_eq!(parse_optional(" Notes "), Some("Notes".to_string()));
}

fn line(fields: &[&str]) -> String {
    fields.join("\u{241E}")
}

#[test]
fn task_line_fields() {
    let l = line(&[
        "id1", "Title", "missing value", "", "Tuesday, 14 April 2026", "Proj", "", "", "a, b",
        "true", "false", "c", "m", "", "",
    ]);
    let t = parse_task_line(&l).unwrap();
    assert_eq!(t.id, "id1");
    assert_eq!(t.title, "Title");
    assert_eq!(t.notes, None);
    assert_eq!(t.due_date, None);
    assert_eq!(t.activation_date.as_deref(), Some("Tuesday, 14 April 2026"));
    assert_eq!(t.project.as_deref(), Some("Proj"));
    assert_eq!(t.area, None);
    assert_eq!(t.tags, vec!["a".to_string(), "b".to_string()]);
    assert!(t.completed);
    assert!(!t.canceled);
    assert_eq!(t.creation_date.as_deref(), Some("c"));
}

#[test]
fn short_task_line_is_an_error() {
    let e = parse_task_line("a\u{241E}b").unwrap_err();
    assert_eq!(e, "Unexpected task format: a\u{241E}b");
}

#[test]
fn task_listing() {
    let one = line(&["1", "A", "", "", "", "", "", "", "", "false", "false", "", "", "", ""]);
    let two = line(&["2", "B", "", "", "", "", "", "", "", "false", "true", "", "", "", ""]);
    let raw = format!("{one}\u{241F}  {two}  \u{241F}\n");
    let ts = read_task_list(&raw).unwrap();
    assert_eq!(ts.len(), 2);
    assert_eq!(ts[0].id, "1");
    assert_eq!(ts[1].title, "B");
    assert!(ts[1].canceled);
    assert!(read_task_list("").unwrap().is_empty());
    assert!(read_task_list("bad\u{241F}").is_err());
}

#[test]
fn counts() {
    assert_eq!(read_count(" 42\n"), Ok(42));
    let e = read_count("x").unwrap_err();
    assert_eq!(e, "Failed to parse count: x (invalid digit found in string)");
}

#[test]
fn url_encoding() {
    assert_eq!(urlencode("a b/ü-_.~"), "a%20b%2F%C3%BC-_.~");
}

#[test]
fn checklist_through_url_scheme() {
    let mut p = empty_create("x");
    assert_eq!(checklist_script("ID", &p, ""), None);
    p.checklist_items = Some(vec!["one".to_string(), "it's".to_string()]);
    let s = checklist_script("ID", &p, "tok").unwrap();
    assert_eq!(
        s,
        "do shell script \"open -g 'things:///update?id=ID&checklist-items=%5B%7B%22type%22%3A%22checklist-item%22%2C%22attributes%22%3A%7B%22title%22%3A%22one%22%7D%7D%2C%7B%22type%22%3A%22checklist-item%22%2C%22attributes%22%3A%7B%22title%22%3A%22it%27s%22%7D%7D%5D&auth-token=tok'\""
    );
}
