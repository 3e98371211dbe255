//! The AppleScript programs behind each Things 3 operation.
//!
//! Each operation is a script that the caller runs through `osascript`; what
//! the script prints is read by the matching reader in [`crate::output`]. The
//! builders here are pure: each returns exactly the script that its
//! `*_script` specification spells out, with every caller-supplied name or
//! id escaped by [`esc`] (the few exceptions are noted where they occur).

use vstd::prelude::*;
use crate::models::{
    CreateArea, CreateContact, CreateProject, CreateTag, CreateTask, ParseInput, QuickEntry,
    UpdateArea, UpdateProject, UpdateTag, UpdateTask, UpdateWindow,
};
use crate::script::{
    bool_text, esc, esc_join, esc_spec, join, list_name, list_name_spec, opt_chars, push_bool,
    push_esc, push_esc_join, push_join, push_quoted_join, quoted_join,
};
use crate::text::{dec, dec_int, push_chars, push_dec, push_dec_i64, push_str, string_from_chars};
use crate::url::{percent_encode, url_encode};
use vstd::utf8::encode_utf8;

verus! {

/// The AppleScript statements that print the current to-do `t` as a
/// fifteen-field record into `taskOutput`.
pub open spec fn task_record_fragment_spec() -> Seq<char> {
    "\n        set tid to id of t\n        set ttitle to name of t\n        set tnotes to notes of t\n        if tnotes is missing value then set tnotes to \"\"\n        set tdue to due date of t\n        if tdue is missing value then\n            set tdue to \"\"\n        else\n            set tdue to (tdue as string)\n        end if\n        set tactivation to \"\"\n        try\n            set ad to activation date of t\n            if ad is not missing value then set tactivation to (ad as string)\n        end try\n        set tproject to \"\"\n        if project of t is not missing value then set tproject to name of project of t\n        set tarea to \"\"\n        if area of t is not missing value then set tarea to name of area of t\n        set tcontact to \"\"\n        if contact of t is not missing value then set tcontact to name of contact of t\n        set ttags to \"\"\n        set tagList to tags of t\n        repeat with tg in tagList\n            if ttags is \"\" then\n                set ttags to name of tg\n            else\n                set ttags to ttags & \",\" & name of tg\n            end if\n        end repeat\n        set tcompleted to (status of t is completed)\n        set tcanceled to (status of t is canceled)\n        set tcreation to creation date of t\n        if tcreation is missing value then\n            set tcreation to \"\"\n        else\n            set tcreation to (tcreation as string)\n        end if\n        set tmodification to \"\"\n        try\n            set md to modification date of t\n            if md is not missing value then set tmodification to (md as string)\n        end try\n        set tcompletion to completion date of t\n        if tcompletion is missing value then\n            set tcompletion to \"\"\n        else\n            set tcompletion to (tcompletion as string)\n        end if\n        set tcancellation to \"\"\n        try\n            set cd to cancellation date of t\n            if cd is not missing value then set tcancellation to (cd as string)\n        end try\n        set taskOutput to tid & \"␞\" & ttitle & \"␞\" & tnotes & \"␞\" & tdue & \"␞\" & tactivation & \"␞\" & tproject & \"␞\" & tarea & \"␞\" & tcontact & \"␞\" & ttags & \"␞\" & tcompleted & \"␞\" & tcanceled & \"␞\" & tcreation & \"␞\" & tmodification & \"␞\" & tcompletion & \"␞\" & tcancellation"@
}

/// The variables the to-do record statements print, in the order they
/// print them.
pub open spec fn task_record_vars() -> Seq<Seq<char>> {
    seq![
        "tid"@, "ttitle"@, "tnotes"@, "tdue"@, "tactivation"@, "tproject"@, "tarea"@, "tcontact"@,
        "ttags"@, "tcompleted"@, "tcanceled"@, "tcreation"@, "tmodification"@, "tcompletion"@,
        "tcancellation"@,
    ]
}

/// The to-do record statements end by printing their variables in the order
/// of [`task_record_vars`], separated by `␞`.
pub proof fn law_task_record_order()
    ensures
        ({
            let tail = "set taskOutput to "@ + crate::script::join(task_record_vars(), " & \"\u{241E}\" & "@);
            let f = task_record_fragment_spec();
            &&& tail.len() <= f.len()
            &&& f.subrange(f.len() - tail.len(), f.len() as int) == tail
        }),
{
    reveal_with_fuel(crate::script::join, 16);
    reveal_strlit("set taskOutput to ");
    reveal_strlit(" & \"\u{241E}\" & ");
    reveal_strlit("tid");
    reveal_strlit("ttitle");
    reveal_strlit("tnotes");
    reveal_strlit("tdue");
    reveal_strlit("tactivation");
    reveal_strlit("tproject");
    reveal_strlit("tarea");
    reveal_strlit("tcontact");
    reveal_strlit("ttags");
    reveal_strlit("tcompleted");
    reveal_strlit("tcanceled");
    reveal_strlit("tcreation");
    reveal_strlit("tmodification");
    reveal_strlit("tcompletion");
    reveal_strlit("tcancellation");
    reveal_strlit("\n        set tid to id of t\n        set ttitle to name of t\n        set tnotes to notes of t\n        if tnotes is missing value then set tnotes to \"\"\n        set tdue to due date of t\n        if tdue is missing value then\n            set tdue to \"\"\n        else\n            set tdue to (tdue as string)\n        end if\n        set tactivation to \"\"\n        try\n            set ad to activation date of t\n            if ad is not missing value then set tactivation to (ad as string)\n        end try\n        set tproject to \"\"\n        if project of t is not missing value then set tproject to name of project of t\n        set tarea to \"\"\n        if area of t is not missing value then set tarea to name of area of t\n        set tcontact to \"\"\n        if contact of t is not missing value then set tcontact to name of contact of t\n        set ttags to \"\"\n        set tagList to tags of t\n        repeat with tg in tagList\n            if ttags is \"\" then\n                set ttags to name of tg\n            else\n                set ttags to ttags & \",\" & name of tg\n            end if\n        end repeat\n        set tcompleted to (status of t is completed)\n        set tcanceled to (status of t is canceled)\n        set tcreation to creation date of t\n        if tcreation is missing value then\n            set tcreation to \"\"\n        else\n            set tcreation to (tcreation as string)\n        end if\n        set tmodification to \"\"\n        try\n            set md to modification date of t\n            if md is not missing value then set tmodification to (md as string)\n        end try\n        set tcompletion to completion date of t\n        if tcompletion is missing value then\n            set tcompletion to \"\"\n        else\n            set tcompletion to (tcompletion as string)\n        end if\n        set tcancellation to \"\"\n        try\n            set cd to cancellation date of t\n            if cd is not missing value then set tcancellation to (cd as string)\n        end try\n        set taskOutput to tid & \"\u{241E}\" & ttitle & \"\u{241E}\" & tnotes & \"\u{241E}\" & tdue & \"\u{241E}\" & tactivation & \"\u{241E}\" & tproject & \"\u{241E}\" & tarea & \"\u{241E}\" & tcontact & \"\u{241E}\" & ttags & \"\u{241E}\" & tcompleted & \"\u{241E}\" & tcanceled & \"\u{241E}\" & tcreation & \"\u{241E}\" & tmodification & \"\u{241E}\" & tcompletion & \"\u{241E}\" & tcancellation");
    let tail = "set taskOutput to "@ + crate::script::join(task_record_vars(), " & \"\u{241E}\" & "@);
    let f = task_record_fragment_spec();
    assert(f.subrange(f.len() - tail.len(), f.len() as int) =~= tail);
}

/// The to-do record statements, as text.
pub fn task_record_fragment() -> (s: &'static str)
    ensures
        s@ == task_record_fragment_spec(),
{
    "\n        set tid to id of t\n        set ttitle to name of t\n        set tnotes to notes of t\n        if tnotes is missing value then set tnotes to \"\"\n        set tdue to due date of t\n        if tdue is missing value then\n            set tdue to \"\"\n        else\n            set tdue to (tdue as string)\n        end if\n        set tactivation to \"\"\n        try\n            set ad to activation date of t\n            if ad is not missing value then set tactivation to (ad as string)\n        end try\n        set tproject to \"\"\n        if project of t is not missing value then set tproject to name of project of t\n        set tarea to \"\"\n        if area of t is not missing value then set tarea to name of area of t\n        set tcontact to \"\"\n        if contact of t is not missing value then set tcontact to name of contact of t\n        set ttags to \"\"\n        set tagList to tags of t\n        repeat with tg in tagList\n            if ttags is \"\" then\n                set ttags to name of tg\n            else\n                set ttags to ttags & \",\" & name of tg\n            end if\n        end repeat\n        set tcompleted to (status of t is completed)\n        set tcanceled to (status of t is canceled)\n        set tcreation to creation date of t\n        if tcreation is missing value then\n            set tcreation to \"\"\n        else\n            set tcreation to (tcreation as string)\n        end if\n        set tmodification to \"\"\n        try\n            set md to modification date of t\n            if md is not missing value then set tmodification to (md as string)\n        end try\n        set tcompletion to completion date of t\n        if tcompletion is missing value then\n            set tcompletion to \"\"\n        else\n            set tcompletion to (tcompletion as string)\n        end if\n        set tcancellation to \"\"\n        try\n            set cd to cancellation date of t\n            if cd is not missing value then set tcancellation to (cd as string)\n        end try\n        set taskOutput to tid & \"␞\" & ttitle & \"␞\" & tnotes & \"␞\" & tdue & \"␞\" & tactivation & \"␞\" & tproject & \"␞\" & tarea & \"␞\" & tcontact & \"␞\" & ttags & \"␞\" & tcompleted & \"␞\" & tcanceled & \"␞\" & tcreation & \"␞\" & tmodification & \"␞\" & tcompletion & \"␞\" & tcancellation"
}

/// The AppleScript statements that print the current project `p` as a
/// thirteen-field record into `projOutput`.
pub open spec fn project_record_fragment_spec() -> Seq<char> {
    "\n        set pid to id of p\n        set ptitle to name of p\n        set pnotes to notes of p\n        if pnotes is missing value then set pnotes to \"\"\n        set pdue to due date of p\n        if pdue is missing value then\n            set pdue to \"\"\n        else\n            set pdue to (pdue as string)\n        end if\n        set pactivation to \"\"\n        try\n            set ad to activation date of p\n            if ad is not missing value then set pactivation to (ad as string)\n        end try\n        set parea to \"\"\n        if area of p is not missing value then set parea to name of area of p\n        set ptags to \"\"\n        set tagList to tags of p\n        repeat with tg in tagList\n            if ptags is \"\" then\n                set ptags to name of tg\n            else\n                set ptags to ptags & \",\" & name of tg\n            end if\n        end repeat\n        set pcompleted to (status of p is completed)\n        set pcanceled to (status of p is canceled)\n        set pcreation to creation date of p\n        if pcreation is missing value then\n            set pcreation to \"\"\n        else\n            set pcreation to (pcreation as string)\n        end if\n        set pmodification to \"\"\n        try\n            set md to modification date of p\n            if md is not missing value then set pmodification to (md as string)\n        end try\n        set pcompletion to completion date of p\n        if pcompletion is missing value then\n            set pcompletion to \"\"\n        else\n            set pcompletion to (pcompletion as string)\n        end if\n        set pcancellation to \"\"\n        try\n            set cd to cancellation date of p\n            if cd is not missing value then set pcancellation to (cd as string)\n        end try\n        set projOutput to pid & \"␞\" & ptitle & \"␞\" & pnotes & \"␞\" & pdue & \"␞\" & pactivation & \"␞\" & parea & \"␞\" & ptags & \"␞\" & pcompleted & \"␞\" & pcanceled & \"␞\" & pcreation & \"␞\" & pmodification & \"␞\" & pcompletion & \"␞\" & pcancellation"@
}

/// The variables the project record statements print, in the order they
/// print them.
pub open spec fn project_record_vars() -> Seq<Seq<char>> {
    seq!["pid"@, "ptitle"@, "pnotes"@, "pdue"@, "pactivation"@, "parea"@, "ptags"@, "pcompleted"@, "pcanceled"@, "pcreation"@, "pmodification"@, "pcompletion"@, "pcancellation"@]
}

/// The project record statements end by printing their variables in the
/// order of [`project_record_vars`], separated by `␞`.
pub proof fn law_project_record_order()
    ensures
        ({
            let tail = "set projOutput to "@ + crate::script::join(project_record_vars(), " & \"\u{241E}\" & "@);
            let f = project_record_fragment_spec();
            &&& tail.len() <= f.len()
            &&& f.subrange(f.len() - tail.len(), f.len() as int) == tail
        }),
{
    reveal_with_fuel(crate::script::join, 14);
    reveal_strlit("set projOutput to ");
    reveal_strlit(" & \"\u{241E}\" & ");
    reveal_strlit("pid");
    reveal_strlit("ptitle");
    reveal_strlit("pnotes");
    reveal_strlit("pdue");
    reveal_strlit("pactivation");
    reveal_strlit("parea");
    reveal_strlit("ptags");
    reveal_strlit("pcompleted");
    reveal_strlit("pcanceled");
    reveal_strlit("pcreation");
    reveal_strlit("pmodification");
    reveal_strlit("pcompletion");
    reveal_strlit("pcancellation");
    reveal_strlit("\n        set pid to id of p\n        set ptitle to name of p\n        set pnotes to notes of p\n        if pnotes is missing value then set pnotes to \"\"\n        set pdue to due date of p\n        if pdue is missing value then\n            set pdue to \"\"\n        else\n            set pdue to (pdue as string)\n        end if\n        set pactivation to \"\"\n        try\n            set ad to activation date of p\n            if ad is not missing value then set pactivation to (ad as string)\n        end try\n        set parea to \"\"\n        if area of p is not missing value then set parea to name of area of p\n        set ptags to \"\"\n        set tagList to tags of p\n        repeat with tg in tagList\n            if ptags is \"\" then\n                set ptags to name of tg\n            else\n                set ptags to ptags & \",\" & name of tg\n            end if\n        end repeat\n        set pcompleted to (status of p is completed)\n        set pcanceled to (status of p is canceled)\n        set pcreation to creation date of p\n        if pcreation is missing value then\n            set pcreation to \"\"\n        else\n            set pcreation to (pcreation as string)\n        end if\n        set pmodification to \"\"\n        try\n            set md to modification date of p\n            if md is not missing value then set pmodification to (md as string)\n        end try\n        set pcompletion to completion date of p\n        if pcompletion is missing value then\n            set pcompletion to \"\"\n        else\n            set pcompletion to (pcompletion as string)\n        end if\n        set pcancellation to \"\"\n        try\n            set cd to cancellation date of p\n            if cd is not missing value then set pcancellation to (cd as string)\n        end try\n        set projOutput to pid & \"␞\" & ptitle & \"␞\" & pnotes & \"␞\" & pdue & \"␞\" & pactivation & \"␞\" & parea & \"␞\" & ptags & \"␞\" & pcompleted & \"␞\" & pcanceled & \"␞\" & pcreation & \"␞\" & pmodification & \"␞\" & pcompletion & \"␞\" & pcancellation");
    let tail = "set projOutput to "@ + crate::script::join(project_record_vars(), " & \"\u{241E}\" & "@);
    let f = project_record_fragment_spec();
    assert(f.subrange(f.len() - tail.len(), f.len() as int) =~= tail);
}

/// The project record statements, as text.
pub fn project_record_fragment() -> (s: &'static str)
    ensures
        s@ == project_record_fragment_spec(),
{
    "\n        set pid to id of p\n        set ptitle to name of p\n        set pnotes to notes of p\n        if pnotes is missing value then set pnotes to \"\"\n        set pdue to due date of p\n        if pdue is missing value then\n            set pdue to \"\"\n        else\n            set pdue to (pdue as string)\n        end if\n        set pactivation to \"\"\n        try\n            set ad to activation date of p\n            if ad is not missing value then set pactivation to (ad as string)\n        end try\n        set parea to \"\"\n        if area of p is not missing value then set parea to name of area of p\n        set ptags to \"\"\n        set tagList to tags of p\n        repeat with tg in tagList\n            if ptags is \"\" then\n                set ptags to name of tg\n            else\n                set ptags to ptags & \",\" & name of tg\n            end if\n        end repeat\n        set pcompleted to (status of p is completed)\n        set pcanceled to (status of p is canceled)\n        set pcreation to creation date of p\n        if pcreation is missing value then\n            set pcreation to \"\"\n        else\n            set pcreation to (pcreation as string)\n        end if\n        set pmodification to \"\"\n        try\n            set md to modification date of p\n            if md is not missing value then set pmodification to (md as string)\n        end try\n        set pcompletion to completion date of p\n        if pcompletion is missing value then\n            set pcompletion to \"\"\n        else\n            set pcompletion to (pcompletion as string)\n        end if\n        set pcancellation to \"\"\n        try\n            set cd to cancellation date of p\n            if cd is not missing value then set pcancellation to (cd as string)\n        end try\n        set projOutput to pid & \"␞\" & ptitle & \"␞\" & pnotes & \"␞\" & pdue & \"␞\" & pactivation & \"␞\" & parea & \"␞\" & ptags & \"␞\" & pcompleted & \"␞\" & pcanceled & \"␞\" & pcreation & \"␞\" & pmodification & \"␞\" & pcompletion & \"␞\" & pcancellation"
}
/// The script that prints the record of the to-do with the given id.
pub open spec fn get_task_by_id_script(task_id: Seq<char>) -> Seq<char> {
    "tell application \"Things3\"\n    set t to to do id \""@
        + esc_spec(task_id)
        + "\"\n"@
        + task_record_fragment_spec()
        + "\n    return taskOutput\nend tell"@
}

/// Builds the script that prints the record of the to-do with the given id.
pub fn get_task_by_id(task_id: &str) -> (script: String)
    ensures
        script@ == get_task_by_id_script(task_id@),
{
    let mut out: Vec<char> = Vec::new();
    push_str(&mut out, "tell application \"Things3\"\n    set t to to do id \"");
    push_esc(&mut out, task_id);
    push_str(&mut out, "\"\n");
    push_str(&mut out, task_record_fragment());
    push_str(&mut out, "\n    return taskOutput\nend tell");
    string_from_chars(out.as_slice())
}

/// The script that marks a to-do completed.
pub open spec fn complete_task_script(task_id: Seq<char>) -> Seq<char> {
    "tell application \"Things3\"\n    set t to to do id \""@
        + esc_spec(task_id)
        + "\"\n    set status of t to completed\nend tell"@
}

/// Builds the script that marks a to-do completed.
pub fn complete_task(task_id: &str) -> (script: String)
    ensures
        script@ == complete_task_script(task_id@),
{
    let mut out: Vec<char> = Vec::new();
    push_str(&mut out, "tell application \"Things3\"\n    set t to to do id \"");
    push_esc(&mut out, task_id);
    push_str(&mut out, "\"\n    set status of t to completed\nend tell");
    string_from_chars(out.as_slice())
}

/// The script that marks a to-do canceled.
pub open spec fn cancel_task_script(task_id: Seq<char>) -> Seq<char> {
    "tell application \"Things3\"\n    set t to to do id \""@
        + esc_spec(task_id)
        + "\"\n    set status of t to canceled\nend tell"@
}

/// Builds the script that marks a to-do canceled.
pub fn cancel_task(task_id: &str) -> (script: String)
    ensures
        script@ == cancel_task_script(task_id@),
{
    let mut out: Vec<char> = Vec::new();
    push_str(&mut out, "tell application \"Things3\"\n    set t to to do id \"");
    push_esc(&mut out, task_id);
    push_str(&mut out, "\"\n    set status of t to canceled\nend tell");
    string_from_chars(out.as_slice())
}

/// The script that deletes a to-do.
pub open spec fn delete_task_script(task_id: Seq<char>) -> Seq<char> {
    "tell application \"Things3\"\n    delete (to do id \""@
        + esc_spec(task_id)
        + "\")\nend tell"@
}

/// Builds the script that deletes a to-do.
pub fn delete_task(task_id: &str) -> (script: String)
    ensures
        script@ == delete_task_script(task_id@),
{
    let mut out: Vec<char> = Vec::new();
    push_str(&mut out, "tell application \"Things3\"\n    delete (to do id \"");
    push_esc(&mut out, task_id);
    push_str(&mut out, "\")\nend tell");
    string_from_chars(out.as_slice())
}

/// The script that shows a to-do in the Things window.
pub open spec fn show_task_script(task_id: Seq<char>) -> Seq<char> {
    "tell application \"Things3\"\n    show to do id \""@
        + esc_spec(task_id)
        + "\"\nend tell"@
}

/// Builds the script that shows a to-do in the Things window.
pub fn show_task(task_id: &str) -> (script: String)
    ensures
        script@ == show_task_script(task_id@),
{
    let mut out: Vec<char> = Vec::new();
    push_str(&mut out, "tell application \"Things3\"\n    show to do id \"");
    push_esc(&mut out, task_id);
    push_str(&mut out, "\"\nend tell");
    string_from_chars(out.as_slice())
}

/// The script that opens a to-do for editing.
pub open spec fn edit_task_script(task_id: Seq<char>) -> Seq<char> {
    "tell application \"Things3\"\n    edit to do id \""@
        + esc_spec(task_id)
        + "\"\nend tell"@
}

/// Builds the script that opens a to-do for editing.
pub fn edit_task(task_id: &str) -> (script: String)
    ensures
        script@ == edit_task_script(task_id@),
{
    let mut out: Vec<char> = Vec::new();
    push_str(&mut out, "tell application \"Things3\"\n    edit to do id \"");
    push_esc(&mut out, task_id);
    push_str(&mut out, "\"\nend tell");
    string_from_chars(out.as_slice())
}

/// The script that opens a project for editing.
pub open spec fn edit_project_script(project_id: Seq<char>) -> Seq<char> {
    "tell application \"Things3\"\n    edit (project id \""@
        + esc_spec(project_id)
        + "\")\nend tell"@
}

/// Builds the script that opens a project for editing.
pub fn edit_project(project_id: &str) -> (script: String)
    ensures
        script@ == edit_project_script(project_id@),
{
    let mut out: Vec<char> = Vec::new();
    push_str(&mut out, "tell application \"Things3\"\n    edit (project id \"");
    push_esc(&mut out, project_id);
    push_str(&mut out, "\")\nend tell");
    string_from_chars(out.as_slice())
}

/// The script that prints the records of the to-dos selected in the Things window.
pub open spec fn get_selected_tasks_script() -> Seq<char> {
    "tell application \"Things3\"\n    set output to \"\"\n    set theTasks to selected to dos\n    repeat with t in theTasks\n"@
        + task_record_fragment_spec()
        + "\n        set output to output & taskOutput & \"␟\"\n    end repeat\n    return output\nend tell"@
}

/// Builds the script that prints the records of the to-dos selected in the Things window.
pub fn get_selected_tasks() -> (script: String)
    ensures
        script@ == get_selected_tasks_script(),
{
    let mut out: Vec<char> = Vec::new();
    push_str(&mut out, "tell application \"Things3\"\n    set output to \"\"\n    set theTasks to selected to dos\n    repeat with t in theTasks\n");
    push_str(&mut out, task_record_fragment());
    push_str(&mut out, "\n        set output to output & taskOutput & \"␟\"\n    end repeat\n    return output\nend tell");
    string_from_chars(out.as_slice())
}

/// The script that empties the Trash.
pub open spec fn empty_trash_script() -> Seq<char> {
    "tell application \"Things3\"\n    empty trash\nend tell"@
}

/// Builds the script that empties the Trash.
pub fn empty_trash() -> (script: String)
    ensures
        script@ == empty_trash_script(),
{
    let mut out: Vec<char> = Vec::new();
    push_str(&mut out, "tell application \"Things3\"\n    empty trash\nend tell");
    string_from_chars(out.as_slice())
}

/// The script that moves completed to-dos to the Logbook.
pub open spec fn log_completed_now_script() -> Seq<char> {
    "tell application \"Things3\"\n    log completed now\nend tell"@
}

/// Builds the script that moves completed to-dos to the Logbook.
pub fn log_completed_now() -> (script: String)
    ensures
        script@ == log_completed_now_script(),
{
    let mut out: Vec<char> = Vec::new();
    push_str(&mut out, "tell application \"Things3\"\n    log completed now\nend tell");
    string_from_chars(out.as_slice())
}

/// The script that prints the id and name of each built-in list.
pub open spec fn get_lists_script() -> Seq<char> {
    "tell application \"Things3\"\n    set output to \"\"\n    set theLists to lists\n    repeat with l in theLists\n        set lid to id of l\n        set lname to name of l\n        set output to output & lid & \"␞\" & lname & \"␟\"\n    end repeat\n    return output\nend tell"@
}

/// Builds the script that prints the id and name of each built-in list.
pub fn get_lists() -> (script: String)
    ensures
        script@ == get_lists_script(),
{
    let mut out: Vec<char> = Vec::new();
    push_str(&mut out, "tell application \"Things3\"\n    set output to \"\"\n    set theLists to lists\n    repeat with l in theLists\n        set lid to id of l\n        set lname to name of l\n        set output to output & lid & \"␞\" & lname & \"␟\"\n    end repeat\n    return output\nend tell");
    string_from_chars(out.as_slice())
}

/// The script that shows a list in the Things window.
pub open spec fn show_list_script(name: Seq<char>) -> Seq<char> {
    "tell application \"Things3\"\n    show list \""@
        + esc_spec(name)
        + "\"\nend tell"@
}

/// Builds the script that shows a list in the Things window.
pub fn show_list(name: &str) -> (script: String)
    ensures
        script@ == show_list_script(name@),
{
    let mut out: Vec<char> = Vec::new();
    push_str(&mut out, "tell application \"Things3\"\n    show list \"");
    push_esc(&mut out, name);
    push_str(&mut out, "\"\nend tell");
    string_from_chars(out.as_slice())
}

/// The script that prints the record of every project.
pub open spec fn get_projects_script() -> Seq<char> {
    "tell application \"Things3\"\n    set output to \"\"\n    set theProjects to projects\n    repeat with p in theProjects\n"@
        + project_record_fragment_spec()
        + "\n        set output to output & projOutput & \"␟\"\n    end repeat\n    return output\nend tell"@
}

/// Builds the script that prints the record of every project.
pub fn get_projects() -> (script: String)
    ensures
        script@ == get_projects_script(),
{
    let mut out: Vec<char> = Vec::new();
    push_str(&mut out, "tell application \"Things3\"\n    set output to \"\"\n    set theProjects to projects\n    repeat with p in theProjects\n");
    push_str(&mut out, project_record_fragment());
    push_str(&mut out, "\n        set output to output & projOutput & \"␟\"\n    end repeat\n    return output\nend tell");
    string_from_chars(out.as_slice())
}

/// The script that prints the record of the project with the given id.
pub open spec fn get_project_by_id_script(project_id: Seq<char>) -> Seq<char> {
    "tell application \"Things3\"\n    set p to project id \""@
        + esc_spec(project_id)
        + "\"\n"@
        + project_record_fragment_spec()
        + "\n    return projOutput\nend tell"@
}

/// Builds the script that prints the record of the project with the given id.
pub fn get_project_by_id(project_id: &str) -> (script: String)
    ensures
        script@ == get_project_by_id_script(project_id@),
{
    let mut out: Vec<char> = Vec::new();
    push_str(&mut out, "tell application \"Things3\"\n    set p to project id \"");
    push_esc(&mut out, project_id);
    push_str(&mut out, "\"\n");
    push_str(&mut out, project_record_fragment());
    push_str(&mut out, "\n    return projOutput\nend tell");
    string_from_chars(out.as_slice())
}

/// The script that deletes a project.
pub open spec fn delete_project_script(project_id: Seq<char>) -> Seq<char> {
    "tell application \"Things3\"\n    delete (project id \""@
        + esc_spec(project_id)
        + "\")\nend tell"@
}

/// Builds the script that deletes a project.
pub fn delete_project(project_id: &str) -> (script: String)
    ensures
        script@ == delete_project_script(project_id@),
{
    let mut out: Vec<char> = Vec::new();
    push_str(&mut out, "tell application \"Things3\"\n    delete (project id \"");
    push_esc(&mut out, project_id);
    push_str(&mut out, "\")\nend tell");
    string_from_chars(out.as_slice())
}

/// The script that shows a project in the Things window.
pub open spec fn show_project_script(project_id: Seq<char>) -> Seq<char> {
    "tell application \"Things3\"\n    show project id \""@
        + esc_spec(project_id)
        + "\"\nend tell"@
}

/// Builds the script that shows a project in the Things window.
pub fn show_project(project_id: &str) -> (script: String)
    ensures
        script@ == show_project_script(project_id@),
{
    let mut out: Vec<char> = Vec::new();
    push_str(&mut out, "tell application \"Things3\"\n    show project id \"");
    push_esc(&mut out, project_id);
    push_str(&mut out, "\"\nend tell");
    string_from_chars(out.as_slice())
}

/// The script that prints the record of every tag.
pub open spec fn get_tags_script() -> Seq<char> {
    "tell application \"Things3\"\n    set output to \"\"\n    set theTags to tags\n    repeat with t in theTags\n        set tid to id of t\n        set tname to name of t\n        set tshort to \"\"\n        try\n            set ks to keyboard shortcut of t\n            if ks is not missing value then set tshort to ks\n        end try\n        set tparent to \"\"\n        try\n            if parent tag of t is not missing value then set tparent to name of parent tag of t\n        end try\n        set output to output & tid & \"␞\" & tname & \"␞\" & tshort & \"␞\" & tparent & \"␟\"\n    end repeat\n    return output\nend tell"@
}

/// Builds the script that prints the record of every tag.
pub fn get_tags() -> (script: String)
    ensures
        script@ == get_tags_script(),
{
    let mut out: Vec<char> = Vec::new();
    push_str(&mut out, "tell application \"Things3\"\n    set output to \"\"\n    set theTags to tags\n    repeat with t in theTags\n        set tid to id of t\n        set tname to name of t\n        set tshort to \"\"\n        try\n            set ks to keyboard shortcut of t\n            if ks is not missing value then set tshort to ks\n        end try\n        set tparent to \"\"\n        try\n            if parent tag of t is not missing value then set tparent to name of parent tag of t\n        end try\n        set output to output & tid & \"␞\" & tname & \"␞\" & tshort & \"␞\" & tparent & \"␟\"\n    end repeat\n    return output\nend tell");
    string_from_chars(out.as_slice())
}

/// The script that prints the record of the tag with the given id.
pub open spec fn get_tag_by_id_script(tag_id: Seq<char>) -> Seq<char> {
    "tell application \"Things3\"\n    set t to tag id \""@
        + esc_spec(tag_id)
        + "\"\n    set tid to id of t\n    set tname to name of t\n    set tshort to \"\"\n    try\n        set ks to keyboard shortcut of t\n        if ks is not missing value then set tshort to ks\n    end try\n    set tparent to \"\"\n    try\n        if parent tag of t is not missing value then set tparent to name of parent tag of t\n    end try\n    return tid & \"␞\" & tname & \"␞\" & tshort & \"␞\" & tparent\nend tell"@
}

/// Builds the script that prints the record of the tag with the given id.
pub fn get_tag_by_id(tag_id: &str) -> (script: String)
    ensures
        script@ == get_tag_by_id_script(tag_id@),
{
    let mut out: Vec<char> = Vec::new();
    push_str(&mut out, "tell application \"Things3\"\n    set t to tag id \"");
    push_esc(&mut out, tag_id);
    push_str(&mut out, "\"\n    set tid to id of t\n    set tname to name of t\n    set tshort to \"\"\n    try\n        set ks to keyboard shortcut of t\n        if ks is not missing value then set tshort to ks\n    end try\n    set tparent to \"\"\n    try\n        if parent tag of t is not missing value then set tparent to name of parent tag of t\n    end try\n    return tid & \"␞\" & tname & \"␞\" & tshort & \"␞\" & tparent\nend tell");
    string_from_chars(out.as_slice())
}

/// The script that deletes a tag.
pub open spec fn delete_tag_script(tag_id: Seq<char>) -> Seq<char> {
    "tell application \"Things3\"\n    delete (tag id \""@
        + esc_spec(tag_id)
        + "\")\nend tell"@
}

/// Builds the script that deletes a tag.
pub fn delete_tag(tag_id: &str) -> (script: String)
    ensures
        script@ == delete_tag_script(tag_id@),
{
    let mut out: Vec<char> = Vec::new();
    push_str(&mut out, "tell application \"Things3\"\n    delete (tag id \"");
    push_esc(&mut out, tag_id);
    push_str(&mut out, "\")\nend tell");
    string_from_chars(out.as_slice())
}

/// The script that prints the record of every area.
pub open spec fn get_areas_script() -> Seq<char> {
    "tell application \"Things3\"\n    set output to \"\"\n    set theAreas to areas\n    repeat with a in theAreas\n        set aid to id of a\n        set atitle to name of a\n        set acollapsed to (collapsed of a)\n        set atags to \"\"\n        set tagList to tags of a\n        repeat with tg in tagList\n            if atags is \"\" then\n                set atags to name of tg\n            else\n                set atags to atags & \",\" & name of tg\n            end if\n        end repeat\n        set output to output & aid & \"␞\" & atitle & \"␞\" & acollapsed & \"␞\" & atags & \"␟\"\n    end repeat\n    return output\nend tell"@
}

/// Builds the script that prints the record of every area.
pub fn get_areas() -> (script: String)
    ensures
        script@ == get_areas_script(),
{
    let mut out: Vec<char> = Vec::new();
    push_str(&mut out, "tell application \"Things3\"\n    set output to \"\"\n    set theAreas to areas\n    repeat with a in theAreas\n        set aid to id of a\n        set atitle to name of a\n        set acollapsed to (collapsed of a)\n        set atags to \"\"\n        set tagList to tags of a\n        repeat with tg in tagList\n            if atags is \"\" then\n                set atags to name of tg\n            else\n                set atags to atags & \",\" & name of tg\n            end if\n        end repeat\n        set output to output & aid & \"␞\" & atitle & \"␞\" & acollapsed & \"␞\" & atags & \"␟\"\n    end repeat\n    return output\nend tell");
    string_from_chars(out.as_slice())
}

/// The script that prints the record of the area with the given id.
pub open spec fn get_area_by_id_script(area_id: Seq<char>) -> Seq<char> {
    "tell application \"Things3\"\n    set a to area id \""@
        + esc_spec(area_id)
        + "\"\n    set aid to id of a\n    set atitle to name of a\n    set acollapsed to (collapsed of a)\n    set atags to \"\"\n    set tagList to tags of a\n    repeat with tg in tagList\n        if atags is \"\" then\n            set atags to name of tg\n        else\n            set atags to atags & \",\" & name of tg\n        end if\n    end repeat\n    return aid & \"␞\" & atitle & \"␞\" & acollapsed & \"␞\" & atags\nend tell"@
}

/// Builds the script that prints the record of the area with the given id.
pub fn get_area_by_id(area_id: &str) -> (script: String)
    ensures
        script@ == get_area_by_id_script(area_id@),
{
    let mut out: Vec<char> = Vec::new();
    push_str(&mut out, "tell application \"Things3\"\n    set a to area id \"");
    push_esc(&mut out, area_id);
    push_str(&mut out, "\"\n    set aid to id of a\n    set atitle to name of a\n    set acollapsed to (collapsed of a)\n    set atags to \"\"\n    set tagList to tags of a\n    repeat with tg in tagList\n        if atags is \"\" then\n            set atags to name of tg\n        else\n            set atags to atags & \",\" & name of tg\n        end if\n    end repeat\n    return aid & \"␞\" & atitle & \"␞\" & acollapsed & \"␞\" & atags\nend tell");
    string_from_chars(out.as_slice())
}

/// The script that deletes an area.
pub open spec fn delete_area_script(area_id: Seq<char>) -> Seq<char> {
    "tell application \"Things3\"\n    delete (area id \""@
        + esc_spec(area_id)
        + "\")\nend tell"@
}

/// Builds the script that deletes an area.
pub fn delete_area(area_id: &str) -> (script: String)
    ensures
        script@ == delete_area_script(area_id@),
{
    let mut out: Vec<char> = Vec::new();
    push_str(&mut out, "tell application \"Things3\"\n    delete (area id \"");
    push_esc(&mut out, area_id);
    push_str(&mut out, "\")\nend tell");
    string_from_chars(out.as_slice())
}

/// The script that shows an area in the Things window.
pub open spec fn show_area_script(area_id: Seq<char>) -> Seq<char> {
    "tell application \"Things3\"\n    show area id \""@
        + esc_spec(area_id)
        + "\"\nend tell"@
}

/// Builds the script that shows an area in the Things window.
pub fn show_area(area_id: &str) -> (script: String)
    ensures
        script@ == show_area_script(area_id@),
{
    let mut out: Vec<char> = Vec::new();
    push_str(&mut out, "tell application \"Things3\"\n    show area id \"");
    push_esc(&mut out, area_id);
    push_str(&mut out, "\"\nend tell");
    string_from_chars(out.as_slice())
}

/// The script that prints the id and name of every contact.
pub open spec fn get_contacts_script() -> Seq<char> {
    "tell application \"Things3\"\n    set output to \"\"\n    set theContacts to contacts\n    repeat with c in theContacts\n        set cid to id of c\n        set cname to name of c\n        set output to output & cid & \"␞\" & cname & \"␟\"\n    end repeat\n    return output\nend tell"@
}

/// Builds the script that prints the id and name of every contact.
pub fn get_contacts() -> (script: String)
    ensures
        script@ == get_contacts_script(),
{
    let mut out: Vec<char> = Vec::new();
    push_str(&mut out, "tell application \"Things3\"\n    set output to \"\"\n    set theContacts to contacts\n    repeat with c in theContacts\n        set cid to id of c\n        set cname to name of c\n        set output to output & cid & \"␞\" & cname & \"␟\"\n    end repeat\n    return output\nend tell");
    string_from_chars(out.as_slice())
}

/// The script that adds a contact and prints its id and name.
pub open spec fn create_contact_script(payload: CreateContact) -> Seq<char> {
    "tell application \"Things3\"\n    set newContact to add contact named \""@
        + esc_spec(payload.name@)
        + "\"\n    return (id of newContact) & \"␞\" & (name of newContact)\nend tell"@
}

/// Builds the script that adds a contact and prints its id and name.
pub fn create_contact(payload: &CreateContact) -> (script: String)
    ensures
        script@ == create_contact_script(*payload),
{
    let mut out: Vec<char> = Vec::new();
    push_str(&mut out, "tell application \"Things3\"\n    set newContact to add contact named \"");
    push_esc(&mut out, payload.name.as_str());
    push_str(&mut out, "\"\n    return (id of newContact) & \"␞\" & (name of newContact)\nend tell");
    string_from_chars(out.as_slice())
}

/// The script that deletes a contact.
pub open spec fn delete_contact_script(contact_id: Seq<char>) -> Seq<char> {
    "tell application \"Things3\"\n    delete (contact id \""@
        + esc_spec(contact_id)
        + "\")\nend tell"@
}

/// Builds the script that deletes a contact.
pub fn delete_contact(contact_id: &str) -> (script: String)
    ensures
        script@ == delete_contact_script(contact_id@),
{
    let mut out: Vec<char> = Vec::new();
    push_str(&mut out, "tell application \"Things3\"\n    delete (contact id \"");
    push_esc(&mut out, contact_id);
    push_str(&mut out, "\")\nend tell");
    string_from_chars(out.as_slice())
}

/// The script that prints how many projects there are.
pub open spec fn count_projects_script() -> Seq<char> {
    "tell application \"Things3\"\n    return count of projects\nend tell"@
}

/// Builds the script that prints how many projects there are.
pub fn count_projects() -> (script: String)
    ensures
        script@ == count_projects_script(),
{
    let mut out: Vec<char> = Vec::new();
    push_str(&mut out, "tell application \"Things3\"\n    return count of projects\nend tell");
    string_from_chars(out.as_slice())
}

/// The script that prints how many areas there are.
pub open spec fn count_areas_script() -> Seq<char> {
    "tell application \"Things3\"\n    return count of areas\nend tell"@
}

/// Builds the script that prints how many areas there are.
pub fn count_areas() -> (script: String)
    ensures
        script@ == count_areas_script(),
{
    let mut out: Vec<char> = Vec::new();
    push_str(&mut out, "tell application \"Things3\"\n    return count of areas\nend tell");
    string_from_chars(out.as_slice())
}

/// The script that prints how many tags there are.
pub open spec fn count_tags_script() -> Seq<char> {
    "tell application \"Things3\"\n    return count of tags\nend tell"@
}

/// Builds the script that prints how many tags there are.
pub fn count_tags() -> (script: String)
    ensures
        script@ == count_tags_script(),
{
    let mut out: Vec<char> = Vec::new();
    push_str(&mut out, "tell application \"Things3\"\n    return count of tags\nend tell");
    string_from_chars(out.as_slice())
}

/// The script that prints how many contacts there are.
pub open spec fn count_contacts_script() -> Seq<char> {
    "tell application \"Things3\"\n    return count of contacts\nend tell"@
}

/// Builds the script that prints how many contacts there are.
pub fn count_contacts() -> (script: String)
    ensures
        script@ == count_contacts_script(),
{
    let mut out: Vec<char> = Vec::new();
    push_str(&mut out, "tell application \"Things3\"\n    return count of contacts\nend tell");
    string_from_chars(out.as_slice())
}

/// The script that prints the record of every to-do of the object `scope_expr` names.
pub open spec fn tasks_of_script(scope_expr: Seq<char>) -> Seq<char> {
    "tell application \"Things3\"\n    set output to \"\"\n    set theTasks to to dos of "@
        + scope_expr
        + "\n    repeat with t in theTasks\n"@
        + task_record_fragment_spec()
        + "\n        set output to output & taskOutput & \"␟\"\n    end repeat\n    return output\nend tell"@
}

/// Builds the script that prints the record of every to-do of the object `scope_expr` names.
pub fn tasks_of(scope_expr: &str) -> (script: String)
    ensures
        script@ == tasks_of_script(scope_expr@),
{
    let mut out: Vec<char> = Vec::new();
    push_str(&mut out, "tell application \"Things3\"\n    set output to \"\"\n    set theTasks to to dos of ");
    push_str(&mut out, scope_expr);
    push_str(&mut out, "\n    repeat with t in theTasks\n");
    push_str(&mut out, task_record_fragment());
    push_str(&mut out, "\n        set output to output & taskOutput & \"␟\"\n    end repeat\n    return output\nend tell");
    string_from_chars(out.as_slice())
}

/// The script that prints the record of every child tag of a tag.
pub open spec fn get_tag_children_script(tag_id: Seq<char>) -> Seq<char> {
    "tell application \"Things3\"\n    set output to \"\"\n    set theTags to tags of tag id \""@
        + esc_spec(tag_id)
        + "\"\n    repeat with t in theTags\n        set tid to id of t\n        set tname to name of t\n        set tshort to \"\"\n        try\n            set ks to keyboard shortcut of t\n            if ks is not missing value then set tshort to ks\n        end try\n        set tparent to \"\"\n        try\n            if parent tag of t is not missing value then set tparent to name of parent tag of t\n        end try\n        set output to output & tid & \"␞\" & tname & \"␞\" & tshort & \"␞\" & tparent & \"␟\"\n    end repeat\n    return output\nend tell"@
}

/// Builds the script that prints the record of every child tag of a tag.
pub fn get_tag_children(tag_id: &str) -> (script: String)
    ensures
        script@ == get_tag_children_script(tag_id@),
{
    let mut out: Vec<char> = Vec::new();
    push_str(&mut out, "tell application \"Things3\"\n    set output to \"\"\n    set theTags to tags of tag id \"");
    push_esc(&mut out, tag_id);
    push_str(&mut out, "\"\n    repeat with t in theTags\n        set tid to id of t\n        set tname to name of t\n        set tshort to \"\"\n        try\n            set ks to keyboard shortcut of t\n            if ks is not missing value then set tshort to ks\n        end try\n        set tparent to \"\"\n        try\n            if parent tag of t is not missing value then set tparent to name of parent tag of t\n        end try\n        set output to output & tid & \"␞\" & tname & \"␞\" & tshort & \"␞\" & tparent & \"␟\"\n    end repeat\n    return output\nend tell");
    string_from_chars(out.as_slice())
}

/// The script that prints the application's name, version, focus and current list.
pub open spec fn get_app_info_script() -> Seq<char> {
    "tell application \"Things3\"\n    set aname to name\n    set aversion to version\n    set afront to frontmost\n    set acurname to \"\"\n    try\n        set cn to current list name\n        if cn is not missing value then set acurname to cn\n    end try\n    set acururl to \"\"\n    try\n        set cu to current list url\n        if cu is not missing value then set acururl to cu\n    end try\n    return aname & \"␞\" & aversion & \"␞\" & afront & \"␞\" & acurname & \"␞\" & acururl\nend tell"@
}

/// Builds the script that prints the application's name, version, focus and current list.
pub fn get_app_info() -> (script: String)
    ensures
        script@ == get_app_info_script(),
{
    let mut out: Vec<char> = Vec::new();
    push_str(&mut out, "tell application \"Things3\"\n    set aname to name\n    set aversion to version\n    set afront to frontmost\n    set acurname to \"\"\n    try\n        set cn to current list name\n        if cn is not missing value then set acurname to cn\n    end try\n    set acururl to \"\"\n    try\n        set cu to current list url\n        if cu is not missing value then set acururl to cu\n    end try\n    return aname & \"␞\" & aversion & \"␞\" & afront & \"␞\" & acurname & \"␞\" & acururl\nend tell");
    string_from_chars(out.as_slice())
}

/// The script that prints the record of every Things window.
pub open spec fn get_windows_script() -> Seq<char> {
    "tell application \"Things3\"\n    set output to \"\"\n    set theWindows to windows\n    repeat with w in theWindows\n        set wid to id of w\n        set wname to name of w\n        set widx to index of w\n        set wb to bounds of w\n        set wx to item 1 of wb\n        set wy to item 2 of wb\n        set ww to item 3 of wb\n        set wh to item 4 of wb\n        set wvis to visible of w\n        set wmin to minimized of w\n        set wzoom to zoomed of w\n        set wcl to closeable of w\n        set wmnb to minimizable of w\n        set wrsz to resizable of w\n        set wzmb to zoomable of w\n        set output to output & wid & \"␞\" & wname & \"␞\" & widx & \"␞\" & wx & \",\" & wy & \",\" & ww & \",\" & wh & \"␞\" & wvis & \"␞\" & wmin & \"␞\" & wzoom & \"␞\" & wcl & \"␞\" & wmnb & \"␞\" & wrsz & \"␞\" & wzmb & \"␟\"\n    end repeat\n    return output\nend tell"@
}

/// Builds the script that prints the record of every Things window.
pub fn get_windows() -> (script: String)
    ensures
        script@ == get_windows_script(),
{
    let mut out: Vec<char> = Vec::new();
    push_str(&mut out, "tell application \"Things3\"\n    set output to \"\"\n    set theWindows to windows\n    repeat with w in theWindows\n        set wid to id of w\n        set wname to name of w\n        set widx to index of w\n        set wb to bounds of w\n        set wx to item 1 of wb\n        set wy to item 2 of wb\n        set ww to item 3 of wb\n        set wh to item 4 of wb\n        set wvis to visible of w\n        set wmin to minimized of w\n        set wzoom to zoomed of w\n        set wcl to closeable of w\n        set wmnb to minimizable of w\n        set wrsz to resizable of w\n        set wzmb to zoomable of w\n        set output to output & wid & \"␞\" & wname & \"␞\" & widx & \"␞\" & wx & \",\" & wy & \",\" & ww & \",\" & wh & \"␞\" & wvis & \"␞\" & wmin & \"␞\" & wzoom & \"␞\" & wcl & \"␞\" & wmnb & \"␞\" & wrsz & \"␞\" & wzmb & \"␟\"\n    end repeat\n    return output\nend tell");
    string_from_chars(out.as_slice())
}

/// The script that closes a window.
pub open spec fn close_window_script(window_id: i64) -> Seq<char> {
    "tell application \"Things3\"\n    close window id "@
        + dec_int(window_id as int)
        + "\nend tell"@
}

/// Builds the script that closes a window.
pub fn close_window(window_id: i64) -> (script: String)
    ensures
        script@ == close_window_script(window_id),
{
    let mut out: Vec<char> = Vec::new();
    push_str(&mut out, "tell application \"Things3\"\n    close window id ");
    push_dec_i64(&mut out, window_id);
    push_str(&mut out, "\nend tell");
    string_from_chars(out.as_slice())
}

/// The script that quits Things 3.
pub open spec fn quit_app_script() -> Seq<char> {
    "tell application \"Things3\"\n    quit\nend tell"@
}

/// Builds the script that quits Things 3.
pub fn quit_app() -> (script: String)
    ensures
        script@ == quit_app_script(),
{
    let mut out: Vec<char> = Vec::new();
    push_str(&mut out, "tell application \"Things3\"\n    quit\nend tell");
    string_from_chars(out.as_slice())
}

/// The script that makes a to-do from Quicksilver text and prints its id.
pub open spec fn parse_quicksilver_script(payload: ParseInput) -> Seq<char> {
    "tell application \"Things3\"\n    set newTask to parse quicksilver input \""@
        + esc_spec(payload.text@)
        + "\"\n    return id of newTask\nend tell"@
}

/// Builds the script that makes a to-do from Quicksilver text and prints its id.
pub fn parse_quicksilver(payload: &ParseInput) -> (script: String)
    ensures
        script@ == parse_quicksilver_script(*payload),
{
    let mut out: Vec<char> = Vec::new();
    push_str(&mut out, "tell application \"Things3\"\n    set newTask to parse quicksilver input \"");
    push_esc(&mut out, payload.text.as_str());
    push_str(&mut out, "\"\n    return id of newTask\nend tell");
    string_from_chars(out.as_slice())
}

/// `list "<name>"` for a list filter, the name escaped.
pub open spec fn list_spec(list_filter: Option<Seq<char>>) -> Seq<char> {
    "list \""@ + esc_spec(list_name_spec(list_filter)) + "\""@
}

fn push_list_spec(out: &mut Vec<char>, list_filter: Option<&str>)
    ensures
        final(out)@ == old(out)@ + list_spec(opt_chars(list_filter)),
{
    push_str(out, "list \"");
    let name = list_name(list_filter);
    push_esc(out, name.as_str());
    push_str(out, "\"");
}

/// The first task position (1-based) and the last one that a page of tasks covers:
/// `offset` defaults to 0 and `limit` to 50.
pub open spec fn page_bounds(limit: Option<usize>, offset: Option<usize>) -> (int, int) {
    let off: int = match offset {
        Some(o) => o as int,
        None => 0,
    };
    let lim: int = match limit {
        Some(l) => l as int,
        None => 50,
    };
    (off + 1, off + lim)
}

/// The script that prints the records of one page of a list's to-dos.
pub open spec fn get_tasks_script(
    list_filter: Option<Seq<char>>,
    limit: Option<usize>,
    offset: Option<usize>,
) -> Seq<char> {
    let (start, end) = page_bounds(limit, offset);
    "tell application \"Things3\"\n    set output to \"\"\n    set theTasks to to dos of "@
        + list_spec(list_filter)
        + "\n    set taskCount to count of theTasks\n    set startIdx to "@
        + dec(start as nat)
        + "\n    set endIdx to "@
        + dec(end as nat)
        + "\n    if endIdx > taskCount then set endIdx to taskCount\n    if startIdx > taskCount then return \"\"\n    repeat with i from startIdx to endIdx\n        set t to item i of theTasks\n"@
        + task_record_fragment_spec()
        + "\n        set output to output & taskOutput & \"\u{241F}\"\n    end repeat\n    return output\nend tell"@
}

/// Builds the script that prints the records of one page of a list's to-dos.
/// The page's last position must fit in `usize`.
pub fn get_tasks(list_filter: Option<&str>, limit: Option<usize>, offset: Option<usize>) -> (script: String)
    requires
        page_bounds(limit, offset).1 <= usize::MAX,
        page_bounds(limit, offset).0 <= usize::MAX,
    ensures
        script@ == get_tasks_script(opt_chars(list_filter), limit, offset),
{
    let offset_val: usize = match offset {
        Some(o) => o,
        None => 0,
    };
    let limit_val: usize = match limit {
        Some(l) => l,
        None => 50,
    };
    let start = offset_val + 1;
    let end = offset_val + limit_val;
    let mut out: Vec<char> = Vec::new();
    push_str(&mut out, "tell application \"Things3\"\n    set output to \"\"\n    set theTasks to to dos of ");
    push_list_spec(&mut out, list_filter);
    push_str(&mut out, "\n    set taskCount to count of theTasks\n    set startIdx to ");
    push_dec(&mut out, start as u64);
    push_str(&mut out, "\n    set endIdx to ");
    push_dec(&mut out, end as u64);
    push_str(&mut out, "\n    if endIdx > taskCount then set endIdx to taskCount\n    if startIdx > taskCount then return \"\"\n    repeat with i from startIdx to endIdx\n        set t to item i of theTasks\n");
    push_str(&mut out, task_record_fragment());
    push_str(&mut out, "\n        set output to output & taskOutput & \"\u{241F}\"\n    end repeat\n    return output\nend tell");
    string_from_chars(out.as_slice())
}

/// The script that prints how many to-dos a list holds.
pub open spec fn count_tasks_script(list_filter: Option<Seq<char>>) -> Seq<char> {
    "tell application \"Things3\"\n    return count of to dos of "@ + list_spec(list_filter) + "\nend tell"@
}

/// Builds the script that prints how many to-dos a list holds.
pub fn count_tasks(list_filter: Option<&str>) -> (script: String)
    ensures
        script@ == count_tasks_script(opt_chars(list_filter)),
{
    let mut out: Vec<char> = Vec::new();
    push_str(&mut out, "tell application \"Things3\"\n    return count of to dos of ");
    push_list_spec(&mut out, list_filter);
    push_str(&mut out, "\nend tell");
    string_from_chars(out.as_slice())
}

/// The count script and the page script read the same list: each is a fixed
/// text, the same list reference [`list_spec`] for the filter, and a rest
/// that does not depend on the filter; and a first page of `k` to-dos covers
/// positions 1 to `k` of that list. So where Things 3 holds fewer than `k`
/// to-dos in it, the page holds them all, as many as the count.
pub proof fn law_count_reads_page_list(f: Option<Seq<char>>, k: usize)
    ensures
        count_tasks_script(f) == "tell application \"Things3\"\n    return count of to dos of "@ + list_spec(f)
            + "\nend tell"@,
        get_tasks_script(f, Some(k), Some(0)) == get_tasks_prefix() + list_spec(f) + page_rest(k),
        page_bounds(Some(k), Some(0)) == (1int, k as int),
{
    assert(get_tasks_script(f, Some(k), Some(0)) =~= get_tasks_prefix() + list_spec(f) + page_rest(k));
}

/// The text of the page script before the list reference.
pub open spec fn get_tasks_prefix() -> Seq<char> {
    "tell application \"Things3\"\n    set output to \"\"\n    set theTasks to to dos of "@
}

/// The text of the first-page script after the list reference.
pub open spec fn page_rest(k: usize) -> Seq<char> {
    "\n    set taskCount to count of theTasks\n    set startIdx to "@
        + dec(1nat)
        + "\n    set endIdx to "@
        + dec(k as nat)
        + "\n    if endIdx > taskCount then set endIdx to taskCount\n    if startIdx > taskCount then return \"\"\n    repeat with i from startIdx to endIdx\n        set t to item i of theTasks\n"@
        + task_record_fragment_spec()
        + "\n        set output to output & taskOutput & \"\u{241F}\"\n    end repeat\n    return output\nend tell"@
}

/// `<kind> id "<id>"`, the id escaped: the AppleScript reference to one object.
pub open spec fn object_ref(kind: Seq<char>, id: Seq<char>) -> Seq<char> {
    kind + " id \""@ + esc_spec(id) + "\""@
}

fn object_ref_exec(kind: &str, id: &str) -> (r: String)
    ensures
        r@ == object_ref(kind@, id@),
{
    let mut out: Vec<char> = Vec::new();
    push_str(&mut out, kind);
    push_str(&mut out, " id \"");
    push_esc(&mut out, id);
    push_str(&mut out, "\"");
    string_from_chars(out.as_slice())
}

/// Builds the script that prints the records of a project's to-dos.
pub fn get_project_tasks(project_id: &str) -> (script: String)
    ensures
        script@ == tasks_of_script(object_ref("project"@, project_id@)),
{
    tasks_of(object_ref_exec("project", project_id).as_str())
}

/// Builds the script that prints the records of an area's to-dos.
pub fn get_area_tasks(area_id: &str) -> (script: String)
    ensures
        script@ == tasks_of_script(object_ref("area"@, area_id@)),
{
    tasks_of(object_ref_exec("area", area_id).as_str())
}

/// Builds the script that prints the records of the to-dos carrying a tag.
pub fn get_tag_tasks(tag_id: &str) -> (script: String)
    ensures
        script@ == tasks_of_script(object_ref("tag"@, tag_id@)),
{
    tasks_of(object_ref_exec("tag", tag_id).as_str())
}

/// Builds the script that prints the records of the to-dos assigned to a contact.
pub fn get_contact_tasks(contact_id: &str) -> (script: String)
    ensures
        script@ == tasks_of_script(object_ref("contact"@, contact_id@)),
{
    tasks_of(object_ref_exec("contact", contact_id).as_str())
}

/// The characters of an optional text, empty when absent.
pub open spec fn text_or_empty(o: Option<String>) -> Seq<char> {
    match o {
        Some(s) => s@,
        None => Seq::empty(),
    }
}

/// `, notes:"<notes>"` when the notes are given and not empty.
pub open spec fn notes_prop(notes: Option<String>) -> Seq<char> {
    if text_or_empty(notes).len() > 0 {
        ", notes:\""@ + esc_spec(text_or_empty(notes)) + "\""@
    } else {
        Seq::empty()
    }
}

/// `, due date:(date "<due>")` when a due date is given and not empty. The
/// date text goes into the script as it stands, unescaped.
pub open spec fn due_prop(due: Option<String>) -> Seq<char> {
    if text_or_empty(due).len() > 0 {
        ", due date:(date \""@ + text_or_empty(due) + "\")"@
    } else {
        Seq::empty()
    }
}

/// `, tag names:"<t1>, <t2>, ..."` when tags are given and there is at least one.
pub open spec fn tags_prop(tags: Option<Vec<String>>) -> Seq<char> {
    match tags {
        Some(ts) => if ts@.len() > 0 {
            ", tag names:\""@ + esc_join(ts.deep_view()) + "\""@
        } else {
            Seq::empty()
        },
        None => Seq::empty(),
    }
}

fn push_notes_prop(out: &mut Vec<char>, notes: &Option<String>)
    ensures
        final(out)@ == old(out)@ + notes_prop(*notes),
{
    if let Some(n) = notes {
        if n.as_str().unicode_len() > 0 {
            push_str(out, ", notes:\"");
            push_esc(out, n.as_str());
            push_str(out, "\"");
            return;
        }
    }
    assert(old(out)@ + notes_prop(*notes) =~= old(out)@);
}

fn push_due_prop(out: &mut Vec<char>, due: &Option<String>)
    ensures
        final(out)@ == old(out)@ + due_prop(*due),
{
    if let Some(d) = due {
        if d.as_str().unicode_len() > 0 {
            push_str(out, ", due date:(date \"");
            push_str(out, d.as_str());
            push_str(out, "\")");
            return;
        }
    }
    assert(old(out)@ + due_prop(*due) =~= old(out)@);
}

fn push_tags_prop(out: &mut Vec<char>, tags: &Option<Vec<String>>)
    ensures
        final(out)@ == old(out)@ + tags_prop(*tags),
{
    if let Some(ts) = tags {
        if ts.len() > 0 {
            push_str(out, ", tag names:\"");
            push_esc_join(out, ts);
            push_str(out, "\"");
            return;
        }
    }
    assert(old(out)@ + tags_prop(*tags) =~= old(out)@);
}

/// The properties a new to-do is made with: its name, and its notes, due
/// date and tags where given.
pub open spec fn task_props(p: CreateTask) -> Seq<char> {
    "name:\""@ + esc_spec(p.title@) + "\""@ + notes_prop(p.notes) + due_prop(p.due_date) + tags_prop(p.tags)
}

/// `\n    <stmt> "<escaped value>"<close>` when `o` holds a non-empty text
/// (or any text, when `allow_empty`).
pub open spec fn stmt_line(o: Option<String>, allow_empty: bool, stmt: Seq<char>, close: Seq<char>) -> Seq<char> {
    match o {
        Some(v) => if allow_empty || v@.len() > 0 {
            "\n    "@ + stmt + "\""@ + esc_spec(v@) + close
        } else {
            Seq::empty()
        },
        None => Seq::empty(),
    }
}

fn push_stmt_line(out: &mut Vec<char>, o: &Option<String>, allow_empty: bool, stmt: &str, close: &str)
    ensures
        final(out)@ == old(out)@ + stmt_line(*o, allow_empty, stmt@, close@),
{
    if let Some(v) = o {
        if allow_empty || v.as_str().unicode_len() > 0 {
            push_str(out, "\n    ");
            push_str(out, stmt);
            push_str(out, "\"");
            push_esc(out, v.as_str());
            push_str(out, close);
            return;
        }
    }
    assert(old(out)@ + stmt_line(*o, allow_empty, stmt@, close@) =~= old(out)@);
}

/// Where a new to-do goes: into the named project if one is given, else into
/// the named area if one is given.
pub open spec fn task_container_line(p: CreateTask) -> Seq<char> {
    match p.project {
        Some(_) => stmt_line(p.project, true, "set project of newTask to project "@, "\""@),
        None => stmt_line(p.area, true, "set area of newTask to area "@, "\""@),
    }
}

/// When a new to-do is scheduled: for its activation date if one is given
/// (nothing for an empty one); else, unless a project is given (the project
/// takes priority over the list), moved to the named list if one is given.
pub open spec fn task_schedule_line(p: CreateTask) -> Seq<char> {
    match p.activation_date {
        Some(_) => stmt_line(p.activation_date, false, "schedule newTask for (date "@, "\")"@),
        None => match (p.project, p.list) {
            (None, Some(l)) => "\n    move newTask to list \""@ + esc_spec(list_name_spec(Some(l@))) + "\""@,
            _ => Seq::empty(),
        },
    }
}

/// The script that makes a new to-do and prints its id.
pub open spec fn create_task_script(p: CreateTask) -> Seq<char> {
    "tell application \"Things3\"\n    set newTask to make new to do with properties {"@
        + task_props(p)
        + "}"@
        + task_container_line(p)
        + task_schedule_line(p)
        + stmt_line(p.contact, false, "set contact of newTask to contact "@, "\""@)
        + "\n    return id of newTask\nend tell"@
}

/// Builds the script that makes a new to-do and prints its id. Checklist items
/// are not part of it: see [`checklist_script`].
pub fn create_task(payload: &CreateTask) -> (script: String)
    ensures
        script@ == create_task_script(*payload),
{
    let mut out: Vec<char> = Vec::new();
    push_str(&mut out, "tell application \"Things3\"\n    set newTask to make new to do with properties {");
    push_str(&mut out, "name:\"");
    push_esc(&mut out, payload.title.as_str());
    push_str(&mut out, "\"");
    push_notes_prop(&mut out, &payload.notes);
    push_due_prop(&mut out, &payload.due_date);
    push_tags_prop(&mut out, &payload.tags);
    push_str(&mut out, "}");
    if payload.project.is_some() {
        push_stmt_line(&mut out, &payload.project, true, "set project of newTask to project ", "\"");
    } else {
        push_stmt_line(&mut out, &payload.area, true, "set area of newTask to area ", "\"");
    }
    if payload.activation_date.is_some() {
        push_stmt_line(&mut out, &payload.activation_date, false, "schedule newTask for (date ", "\")");
    } else if payload.project.is_none() && payload.list.is_some() {
        let l = payload.list.as_ref().unwrap();
        push_str(&mut out, "\n    move newTask to list \"");
        let name = list_name(Some(l.as_str()));
        push_esc(&mut out, name.as_str());
        push_str(&mut out, "\"");
    }
    push_stmt_line(&mut out, &payload.contact, false, "set contact of newTask to contact ", "\"");
    push_str(&mut out, "\n    return id of newTask\nend tell");
    string_from_chars(out.as_slice())
}


/// No statement, or the one given.
pub open spec fn opt_line(o: Option<Seq<char>>) -> Seq<Seq<char>> {
    match o {
        Some(l) => seq![l],
        None => Seq::empty(),
    }
}

/// `clear` for an empty value; otherwise `prefix`, the escaped value and `close`.
pub open spec fn set_or_clear(v: Seq<char>, clear: Seq<char>, prefix: Seq<char>, close: Seq<char>) -> Seq<char> {
    if v.len() == 0 {
        clear
    } else {
        prefix + esc_spec(v) + close
    }
}

fn quoted_stmt(prefix: &str, v: &str, close: &str) -> (r: String)
    ensures
        r@ == prefix@ + esc_spec(v@) + close@,
{
    let mut o: Vec<char> = Vec::new();
    push_str(&mut o, prefix);
    push_esc(&mut o, v);
    push_str(&mut o, close);
    string_from_chars(o.as_slice())
}

fn set_or_clear_exec(v: &str, clear: &str, prefix: &str, close: &str) -> (r: String)
    ensures
        r@ == set_or_clear(v@, clear@, prefix@, close@),
{
    if v.unicode_len() == 0 {
        String::from_str(clear)
    } else {
        quoted_stmt(prefix, v, close)
    }
}

fn tag_list_stmt(prefix: &str, ts: &Vec<String>) -> (r: String)
    ensures
        r@ == prefix@ + "{"@ + quoted_join(ts.deep_view()) + "}"@,
{
    let mut o: Vec<char> = Vec::new();
    push_str(&mut o, prefix);
    push_str(&mut o, "{");
    push_quoted_join(&mut o, ts);
    push_str(&mut o, "}");
    string_from_chars(o.as_slice())
}

fn push_line(u: &mut Vec<String>, line: String)
    ensures
        final(u).deep_view() == old(u).deep_view().push(line@),
{
    u.push(line);
    assert(u.deep_view() =~= old(u).deep_view().push(line@));
}

/// The script that runs `updates` against the object `target` binds: `None`
/// when there is nothing to update (the object is then only read back).
pub open spec fn update_script(target: Seq<char>, updates: Seq<Seq<char>>) -> Option<Seq<char>> {
    if updates.len() == 0 {
        None
    } else {
        Some("tell application \"Things3\"\n    "@ + target + "\n    "@ + join(updates, "\n    "@) + "\nend tell"@)
    }
}

fn update_script_exec(target: &Vec<char>, updates: &Vec<String>) -> (r: Option<String>)
    ensures
        r.deep_view() == update_script(target@, updates.deep_view()),
{
    if updates.len() == 0 {
        return None;
    }
    let mut out: Vec<char> = Vec::new();
    push_str(&mut out, "tell application \"Things3\"\n    ");
    crate::text::push_chars(&mut out, target);
    push_str(&mut out, "\n    ");
    push_join(&mut out, updates, "\n    ");
    push_str(&mut out, "\nend tell");
    Some(string_from_chars(out.as_slice()))
}

/// `set <var> to <kind> id "<id>"`, the id escaped.
pub open spec fn bind_target(var_kind: Seq<char>, id: Seq<char>) -> Seq<char> {
    var_kind + " id \""@ + esc_spec(id) + "\""@
}

fn bind_target_exec(var_kind: &str, id: &str) -> (r: Vec<char>)
    ensures
        r@ == bind_target(var_kind@, id@),
{
    let mut o: Vec<char> = Vec::new();
    push_str(&mut o, var_kind);
    push_str(&mut o, " id \"");
    push_esc(&mut o, id);
    push_str(&mut o, "\"");
    o
}

/// Builds the script that applies an update to a to-do: `None` when the update
/// changes nothing (the caller then just reads the to-do back).
pub fn update_task(task_id: &str, payload: &UpdateTask) -> (script: Option<String>)
    ensures
        script.deep_view() == update_script(bind_target("set t to to do"@, task_id@), task_updates(*payload)),
{
    let u = task_updates_exec(payload);
    let t = bind_target_exec("set t to to do", task_id);
    update_script_exec(&t, &u)
}

/// Builds the script that applies an update to a project: `None` when the
/// update changes nothing.
pub fn update_project(project_id: &str, payload: &UpdateProject) -> (script: Option<String>)
    ensures
        script.deep_view() == update_script(bind_target("set p to project"@, project_id@), project_updates(*payload)),
{
    let u = project_updates_exec(payload);
    let t = bind_target_exec("set p to project", project_id);
    update_script_exec(&t, &u)
}

/// Builds the script that applies an update to a tag: `None` when the update
/// changes nothing.
pub fn update_tag(tag_id: &str, payload: &UpdateTag) -> (script: Option<String>)
    ensures
        script.deep_view() == update_script(bind_target("set t to tag"@, tag_id@), tag_updates(*payload)),
{
    let u = tag_updates_exec(payload);
    let t = bind_target_exec("set t to tag", tag_id);
    update_script_exec(&t, &u)
}

/// Builds the script that applies an update to an area: `None` when the update
/// changes nothing.
pub fn update_area(area_id: &str, payload: &UpdateArea) -> (script: Option<String>)
    ensures
        script.deep_view() == update_script(bind_target("set a to area"@, area_id@), area_updates(*payload)),
{
    let u = area_updates_exec(payload);
    let t = bind_target_exec("set a to area", area_id);
    update_script_exec(&t, &u)
}

/// Builds the script that moves, resizes or shows/hides a window: `None` when
/// the update changes nothing (and nothing needs to run).
pub fn update_window(window_id: i64, payload: &UpdateWindow) -> (script: Option<String>)
    ensures
        script.deep_view() == update_script("set w to window id "@ + dec_int(window_id as int), window_updates(*payload)),
{
    let u = window_updates_exec(payload);
    let mut t: Vec<char> = Vec::new();
    push_str(&mut t, "set w to window id ");
    push_dec_i64(&mut t, window_id);
    update_script_exec(&t, &u)
}

/// The properties a new project is made with: its name, and its notes, due
/// date and tags where given.
pub open spec fn project_props(p: CreateProject) -> Seq<char> {
    "name:\""@ + esc_spec(p.title@) + "\""@ + notes_prop(p.notes) + due_prop(p.due_date) + tags_prop(p.tags)
}

/// The script that makes a new project and prints its id.
pub open spec fn create_project_script(p: CreateProject) -> Seq<char> {
    "tell application \"Things3\"\n    set newProj to make new project with properties {"@
        + project_props(p)
        + "}"@
        + stmt_line(p.area, false, "set area of newProj to area "@, "\""@)
        + stmt_line(p.activation_date, false, "schedule newProj for (date "@, "\")"@)
        + "\n    return id of newProj\nend tell"@
}

/// Builds the script that makes a new project and prints its id.
pub fn create_project(payload: &CreateProject) -> (script: String)
    ensures
        script@ == create_project_script(*payload),
{
    let mut out: Vec<char> = Vec::new();
    push_str(&mut out, "tell application \"Things3\"\n    set newProj to make new project with properties {");
    push_str(&mut out, "name:\"");
    push_esc(&mut out, payload.title.as_str());
    push_str(&mut out, "\"");
    push_notes_prop(&mut out, &payload.notes);
    push_due_prop(&mut out, &payload.due_date);
    push_tags_prop(&mut out, &payload.tags);
    push_str(&mut out, "}");
    push_stmt_line(&mut out, &payload.area, false, "set area of newProj to area ", "\"");
    push_stmt_line(&mut out, &payload.activation_date, false, "schedule newProj for (date ", "\")");
    push_str(&mut out, "\n    return id of newProj\nend tell");
    string_from_chars(out.as_slice())
}

/// The script that makes a new tag (with its keyboard shortcut and parent
/// where given and not empty) and prints its id.
pub open spec fn create_tag_script(p: CreateTag) -> Seq<char> {
    "tell application \"Things3\"\n    set newTag to make new tag with properties {name:\""@
        + esc_spec(p.name@)
        + "\""@
        + (if text_or_empty(p.keyboard_shortcut).len() > 0 {
            ", keyboard shortcut:\""@ + esc_spec(text_or_empty(p.keyboard_shortcut)) + "\""@
        } else {
            Seq::empty()
        })
        + "}"@
        + stmt_line(p.parent_tag, false, "set parent tag of newTag to tag "@, "\""@)
        + "\n    return id of newTag\nend tell"@
}

/// Builds the script that makes a new tag and prints its id.
pub fn create_tag(payload: &CreateTag) -> (script: String)
    ensures
        script@ == create_tag_script(*payload),
{
    let mut out: Vec<char> = Vec::new();
    push_str(&mut out, "tell application \"Things3\"\n    set newTag to make new tag with properties {name:\"");
    push_esc(&mut out, payload.name.as_str());
    push_str(&mut out, "\"");
    let ghost mid = out@;
    if let Some(ks) = &payload.keyboard_shortcut {
        if ks.as_str().unicode_len() > 0 {
            push_str(&mut out, ", keyboard shortcut:\"");
            push_esc(&mut out, ks.as_str());
            push_str(&mut out, "\"");
        }
    }
    push_str(&mut out, "}");
    push_stmt_line(&mut out, &payload.parent_tag, false, "set parent tag of newTag to tag ", "\"");
    push_str(&mut out, "\n    return id of newTag\nend tell");
    string_from_chars(out.as_slice())
}

/// The script that makes a new area (with its tags and collapsed state where
/// given) and prints its id.
pub open spec fn create_area_script(p: CreateArea) -> Seq<char> {
    "tell application \"Things3\"\n    set newArea to make new area with properties {name:\""@
        + esc_spec(p.title@)
        + "\""@
        + tags_prop(p.tags)
        + (match p.collapsed {
            Some(b) => ", collapsed:"@ + bool_text(b),
            None => Seq::empty(),
        })
        + "}\n    return id of newArea\nend tell"@
}

/// Builds the script that makes a new area and prints its id.
pub fn create_area(payload: &CreateArea) -> (script: String)
    ensures
        script@ == create_area_script(*payload),
{
    let mut out: Vec<char> = Vec::new();
    push_str(&mut out, "tell application \"Things3\"\n    set newArea to make new area with properties {name:\"");
    push_esc(&mut out, payload.title.as_str());
    push_str(&mut out, "\"");
    push_tags_prop(&mut out, &payload.tags);
    if let Some(b) = payload.collapsed {
        push_str(&mut out, ", collapsed:");
        push_bool(&mut out, b);
    }
    push_str(&mut out, "}\n    return id of newArea\nend tell");
    string_from_chars(out.as_slice())
}

/// The properties of a Quick Entry panel: name, notes, due date (when not
/// empty) and tags (when there is at least one), each as given.
pub open spec fn quick_entry_props(p: QuickEntry) -> Seq<Seq<char>> {
    opt_line(match p.title { Some(t) => Some("name:\""@ + esc_spec(t@) + "\""@), None => None })
        + opt_line(match p.notes { Some(n) => Some("notes:\""@ + esc_spec(n@) + "\""@), None => None })
        + opt_line(match p.due_date { Some(d) => if d@.len() > 0 { Some("due date:(date \""@ + esc_spec(d@) + "\")"@) } else { None }, None => None })
        + opt_line(match p.tags { Some(ts) => if ts@.len() > 0 { Some("tag names:\""@ + esc_join(ts.deep_view()) + "\""@) } else { None }, None => None })
}

/// The clauses after `show quick entry panel`: autofill when asked for, then
/// the properties when there are any.
pub open spec fn quick_entry_parts(p: QuickEntry) -> Seq<Seq<char>> {
    opt_line(if p.autofill == Some(true) { Some("with autofill true"@) } else { None })
        + opt_line(if quick_entry_props(p).len() > 0 { Some("with properties {"@ + join(quick_entry_props(p), ", "@) + "}"@) } else { None })
}

/// The script that opens the Quick Entry panel.
pub open spec fn show_quick_entry_panel_script(p: QuickEntry) -> Seq<char> {
    "tell application \"Things3\"\n    show quick entry panel"@
        + (if quick_entry_parts(p).len() == 0 { Seq::empty() } else { " "@ + join(quick_entry_parts(p), " "@) })
        + "\nend tell"@
}

fn quick_entry_props_exec(p: &QuickEntry) -> (u: Vec<String>)
    ensures
        u.deep_view() == quick_entry_props(*p),
{
    let mut u: Vec<String> = Vec::new();
    let ghost g = Seq::<Seq<char>>::empty();
    assert(u.deep_view() =~= g);
    if let Some(t) = &p.title {
        push_line(&mut u, quoted_stmt("name:\"", t.as_str(), "\""));
    }
    proof {
        g = opt_line(match &p.title { Some(t) => Some("name:\""@ + esc_spec(t@) + "\""@), None => None });
    }
    assert(u.deep_view() =~= g);
    if let Some(n) = &p.notes {
        push_line(&mut u, quoted_stmt("notes:\"", n.as_str(), "\""));
    }
    proof {
        g = g + opt_line(match &p.notes { Some(n) => Some("notes:\""@ + esc_spec(n@) + "\""@), None => None });
    }
    assert(u.deep_view() =~= g);
    if let Some(d) = &p.due_date {
        if d.as_str().unicode_len() > 0 {
            push_line(&mut u, quoted_stmt("due date:(date \"", d.as_str(), "\")"));
        }
    }
    proof {
        g = g + opt_line(match &p.due_date { Some(d) => if d@.len() > 0 { Some("due date:(date \""@ + esc_spec(d@) + "\")"@) } else { None }, None => None });
    }
    assert(u.deep_view() =~= g);
    if let Some(ts) = &p.tags {
        if ts.len() > 0 {
            let mut o: Vec<char> = Vec::new();
            push_str(&mut o, "tag names:\"");
            push_esc_join(&mut o, ts);
            push_str(&mut o, "\"");
            push_line(&mut u, string_from_chars(o.as_slice()));
        }
    }
    proof {
        g = g + opt_line(match &p.tags { Some(ts) => if ts@.len() > 0 { Some("tag names:\""@ + esc_join(ts.deep_view()) + "\""@) } else { None }, None => None });
    }
    assert(u.deep_view() =~= g);
    u
}

/// Builds the script that opens the Quick Entry panel, prefilled as asked.
pub fn show_quick_entry_panel(payload: &QuickEntry) -> (script: String)
    ensures
        script@ == show_quick_entry_panel_script(*payload),
{
    let props = quick_entry_props_exec(payload);
    let mut parts: Vec<String> = Vec::new();
    assert(parts.deep_view() =~= Seq::<Seq<char>>::empty());
    let autofill = match payload.autofill {
        Some(b) => b,
        None => false,
    };
    if autofill {
        push_line(&mut parts, String::from_str("with autofill true"));
    }
    let ghost g = parts.deep_view();
    assert(g =~= opt_line(if payload.autofill == Some(true) { Some("with autofill true"@) } else { None }));
    if props.len() > 0 {
        let mut o: Vec<char> = Vec::new();
        push_str(&mut o, "with properties {");
        push_join(&mut o, &props, ", ");
        push_str(&mut o, "}");
        push_line(&mut parts, string_from_chars(o.as_slice()));
    }
    assert(parts.deep_view() =~= quick_entry_parts(*payload));
    let mut out: Vec<char> = Vec::new();
    push_str(&mut out, "tell application \"Things3\"\n    show quick entry panel");
    if parts.len() > 0 {
        push_str(&mut out, " ");
        push_join(&mut out, &parts, " ");
    }
    push_str(&mut out, "\nend tell");
    string_from_chars(out.as_slice())
}


/// `prefix`, the escaped text and a closing quote, when a text is given.
pub open spec fn text_line(o: Option<String>, prefix: Seq<char>) -> Option<Seq<char>> {
    match o {
        Some(v) => Some(prefix + esc_spec(v@) + "\""@),
        None => None,
    }
}

/// [`set_or_clear`] of the text, when one is given.
pub open spec fn clear_line(o: Option<String>, clear: Seq<char>, prefix: Seq<char>, close: Seq<char>) -> Option<Seq<char>> {
    match o {
        Some(v) => Some(set_or_clear(v@, clear, prefix, close)),
        None => None,
    }
}

/// `prefix`, the escaped text and `close`, when a non-empty text is given.
pub open spec fn sched_line(o: Option<String>, prefix: Seq<char>, close: Seq<char>) -> Option<Seq<char>> {
    match o {
        Some(v) => if v@.len() > 0 {
            Some(prefix + esc_spec(v@) + close)
        } else {
            None
        },
        None => None,
    }
}

/// `prefix` and the tags as an AppleScript list, when tags are given.
pub open spec fn tags_line(o: Option<Vec<String>>, prefix: Seq<char>) -> Option<Seq<char>> {
    match o {
        Some(ts) => Some(prefix + "{"@ + quoted_join(ts.deep_view()) + "}"@),
        None => None,
    }
}

/// One of two statements, by the flag, when a flag is given.
pub open spec fn flag_line(o: Option<bool>, on: Seq<char>, off: Seq<char>) -> Option<Seq<char>> {
    match o {
        Some(b) => Some(if b { on } else { off }),
        None => None,
    }
}

/// `prefix` and `true` or `false`, when a flag is given.
pub open spec fn bool_line(o: Option<bool>, prefix: Seq<char>) -> Option<Seq<char>> {
    match o {
        Some(b) => Some(prefix + bool_text(b)),
        None => None,
    }
}

/// `prefix` and the number, when one is given.
pub open spec fn int_line(o: Option<i64>, prefix: Seq<char>) -> Option<Seq<char>> {
    match o {
        Some(n) => Some(prefix + dec_int(n as int)),
        None => None,
    }
}

/// `prefix` and `{x1, y1, x2, y2}`, when bounds are given.
pub open spec fn bounds_line(o: Option<[i64; 4]>, prefix: Seq<char>) -> Option<Seq<char>> {
    match o {
        Some(b) => Some(prefix + "{"@ + dec_int(b[0] as int) + ", "@ + dec_int(b[1] as int) + ", "@
            + dec_int(b[2] as int) + ", "@ + dec_int(b[3] as int) + "}"@),
        None => None,
    }
}

/// `prefix`, the escaped name of the list the filter names, and a closing
/// quote, when a list is given.
pub open spec fn list_line(o: Option<String>, prefix: Seq<char>) -> Option<Seq<char>> {
    match o {
        Some(l) => Some(prefix + esc_spec(list_name_spec(Some(l@))) + "\""@),
        None => None,
    }
}

fn push_opt(u: &mut Vec<String>, line: Option<String>)
    ensures
        final(u).deep_view() == old(u).deep_view() + opt_line(line.deep_view()),
{
    if let Some(l) = line {
        u.push(l);
        assert(u.deep_view() =~= old(u).deep_view() + seq![l@]);
    } else {
        assert(u.deep_view() =~= old(u).deep_view() + Seq::<Seq<char>>::empty());
    }
}

fn push_text_line(u: &mut Vec<String>, o: &Option<String>, prefix: &str)
    ensures
        final(u).deep_view() == old(u).deep_view() + opt_line(text_line(*o, prefix@)),
{
    let line = match o {
        Some(v) => Some(quoted_stmt(prefix, v.as_str(), "\"")),
        None => None,
    };
    push_opt(u, line);
}

fn push_clear_line(u: &mut Vec<String>, o: &Option<String>, clear: &str, prefix: &str, close: &str)
    ensures
        final(u).deep_view() == old(u).deep_view() + opt_line(clear_line(*o, clear@, prefix@, close@)),
{
    let line = match o {
        Some(v) => Some(set_or_clear_exec(v.as_str(), clear, prefix, close)),
        None => None,
    };
    push_opt(u, line);
}

fn push_sched_line(u: &mut Vec<String>, o: &Option<String>, prefix: &str, close: &str)
    ensures
        final(u).deep_view() == old(u).deep_view() + opt_line(sched_line(*o, prefix@, close@)),
{
    let line = match o {
        Some(v) => if v.as_str().unicode_len() > 0 {
            Some(quoted_stmt(prefix, v.as_str(), close))
        } else {
            None
        },
        None => None,
    };
    push_opt(u, line);
}

fn push_tags_line(u: &mut Vec<String>, o: &Option<Vec<String>>, prefix: &str)
    ensures
        final(u).deep_view() == old(u).deep_view() + opt_line(tags_line(*o, prefix@)),
{
    let line = match o {
        Some(ts) => Some(tag_list_stmt(prefix, ts)),
        None => None,
    };
    push_opt(u, line);
}

fn push_flag_line(u: &mut Vec<String>, o: Option<bool>, on: &str, off: &str)
    ensures
        final(u).deep_view() == old(u).deep_view() + opt_line(flag_line(o, on@, off@)),
{
    let line = match o {
        Some(b) => Some(if b { String::from_str(on) } else { String::from_str(off) }),
        None => None,
    };
    push_opt(u, line);
}

fn push_bool_line(u: &mut Vec<String>, o: Option<bool>, prefix: &str)
    ensures
        final(u).deep_view() == old(u).deep_view() + opt_line(bool_line(o, prefix@)),
{
    let line = match o {
        Some(b) => {
            let mut t: Vec<char> = Vec::new();
            push_str(&mut t, prefix);
            push_bool(&mut t, b);
            Some(string_from_chars(t.as_slice()))
        },
        None => None,
    };
    push_opt(u, line);
}

fn push_int_line(u: &mut Vec<String>, o: Option<i64>, prefix: &str)
    ensures
        final(u).deep_view() == old(u).deep_view() + opt_line(int_line(o, prefix@)),
{
    let line = match o {
        Some(n) => {
            let mut t: Vec<char> = Vec::new();
            push_str(&mut t, prefix);
            push_dec_i64(&mut t, n);
            Some(string_from_chars(t.as_slice()))
        },
        None => None,
    };
    push_opt(u, line);
}

fn push_bounds_line(u: &mut Vec<String>, o: Option<[i64; 4]>, prefix: &str)
    ensures
        final(u).deep_view() == old(u).deep_view() + opt_line(bounds_line(o, prefix@)),
{
    let line = match o {
        Some(b) => {
            let mut t: Vec<char> = Vec::new();
            push_str(&mut t, prefix);
            push_str(&mut t, "{");
            push_dec_i64(&mut t, b[0]);
            push_str(&mut t, ", ");
            push_dec_i64(&mut t, b[1]);
            push_str(&mut t, ", ");
            push_dec_i64(&mut t, b[2]);
            push_str(&mut t, ", ");
            push_dec_i64(&mut t, b[3]);
            push_str(&mut t, "}");
            Some(string_from_chars(t.as_slice()))
        },
        None => None,
    };
    push_opt(u, line);
}

fn push_list_line(u: &mut Vec<String>, o: &Option<String>, prefix: &str)
    ensures
        final(u).deep_view() == old(u).deep_view() + opt_line(list_line(*o, prefix@)),
{
    let line = match o {
        Some(l) => {
            let name = list_name(Some(l.as_str()));
            Some(quoted_stmt(prefix, name.as_str(), "\""))
        },
        None => None,
    };
    push_opt(u, line);
}

/// The statements an `UpdateTask` asks for, in the order they run (one for
/// each field that is given).
pub open spec fn task_updates(p: UpdateTask) -> Seq<Seq<char>> {
    opt_line(text_line(p.title, "set name of t to \""@))
        + opt_line(text_line(p.notes, "set notes of t to \""@))
        + opt_line(clear_line(p.due_date, "set due date of t to missing value"@, "set due date of t to (date \""@, "\")"@))
        + opt_line(tags_line(p.tags, "set tag names of t to "@))
        + opt_line(clear_line(p.project, "set project of t to missing value"@, "set project of t to project \""@, "\""@))
        + opt_line(clear_line(p.area, "set area of t to missing value"@, "set area of t to area \""@, "\""@))
        + opt_line(clear_line(p.contact, "set contact of t to missing value"@, "set contact of t to contact \""@, "\""@))
        + opt_line(list_line(p.list, "move t to list \""@))
        + opt_line(clear_line(p.activation_date, "move t to list \"Anytime\""@, "schedule t for (date \""@, "\")"@))
        + opt_line(flag_line(p.completed, "set status of t to completed"@, "set status of t to open"@))
        + opt_line(flag_line(p.canceled, "set status of t to canceled"@, "set status of t to open"@))
}

fn task_updates_exec(p: &UpdateTask) -> (u: Vec<String>)
    ensures
        u.deep_view() == task_updates(*p),
{
    let mut u: Vec<String> = Vec::new();
    assert(u.deep_view() =~= Seq::<Seq<char>>::empty());
    push_text_line(&mut u, &p.title, "set name of t to \"");
    push_text_line(&mut u, &p.notes, "set notes of t to \"");
    push_clear_line(&mut u, &p.due_date, "set due date of t to missing value", "set due date of t to (date \"", "\")");
    push_tags_line(&mut u, &p.tags, "set tag names of t to ");
    push_clear_line(&mut u, &p.project, "set project of t to missing value", "set project of t to project \"", "\"");
    push_clear_line(&mut u, &p.area, "set area of t to missing value", "set area of t to area \"", "\"");
    push_clear_line(&mut u, &p.contact, "set contact of t to missing value", "set contact of t to contact \"", "\"");
    push_list_line(&mut u, &p.list, "move t to list \"");
    push_clear_line(&mut u, &p.activation_date, "move t to list \"Anytime\"", "schedule t for (date \"", "\")");
    push_flag_line(&mut u, p.completed, "set status of t to completed", "set status of t to open");
    push_flag_line(&mut u, p.canceled, "set status of t to canceled", "set status of t to open");
    assert(u.deep_view() =~= task_updates(*p));
    u
}

/// The statements an `UpdateProject` asks for, in the order they run (one for
/// each field that is given).
pub open spec fn project_updates(p: UpdateProject) -> Seq<Seq<char>> {
    opt_line(text_line(p.title, "set name of p to \""@))
        + opt_line(text_line(p.notes, "set notes of p to \""@))
        + opt_line(clear_line(p.due_date, "set due date of p to missing value"@, "set due date of p to (date \""@, "\")"@))
        + opt_line(tags_line(p.tags, "set tag names of p to "@))
        + opt_line(clear_line(p.area, "set area of p to missing value"@, "set area of p to area \""@, "\""@))
        + opt_line(sched_line(p.activation_date, "schedule p for (date \""@, "\")"@))
        + opt_line(flag_line(p.completed, "set status of p to completed"@, "set status of p to open"@))
        + opt_line(flag_line(p.canceled, "set status of p to canceled"@, "set status of p to open"@))
}

fn project_updates_exec(p: &UpdateProject) -> (u: Vec<String>)
    ensures
        u.deep_view() == project_updates(*p),
{
    let mut u: Vec<String> = Vec::new();
    assert(u.deep_view() =~= Seq::<Seq<char>>::empty());
    push_text_line(&mut u, &p.title, "set name of p to \"");
    push_text_line(&mut u, &p.notes, "set notes of p to \"");
    push_clear_line(&mut u, &p.due_date, "set due date of p to missing value", "set due date of p to (date \"", "\")");
    push_tags_line(&mut u, &p.tags, "set tag names of p to ");
    push_clear_line(&mut u, &p.area, "set area of p to missing value", "set area of p to area \"", "\"");
    push_sched_line(&mut u, &p.activation_date, "schedule p for (date \"", "\")");
    push_flag_line(&mut u, p.completed, "set status of p to completed", "set status of p to open");
    push_flag_line(&mut u, p.canceled, "set status of p to canceled", "set status of p to open");
    assert(u.deep_view() =~= project_updates(*p));
    u
}

/// The statements an `UpdateTag` asks for, in the order they run (one for
/// each field that is given).
pub open spec fn tag_updates(p: UpdateTag) -> Seq<Seq<char>> {
    opt_line(text_line(p.name, "set name of t to \""@))
        + opt_line(clear_line(p.keyboard_shortcut, "set keyboard shortcut of t to missing value"@, "set keyboard shortcut of t to \""@, "\""@))
        + opt_line(clear_line(p.parent_tag, "set parent tag of t to missing value"@, "set parent tag of t to tag \""@, "\""@))
}

fn tag_updates_exec(p: &UpdateTag) -> (u: Vec<String>)
    ensures
        u.deep_view() == tag_updates(*p),
{
    let mut u: Vec<String> = Vec::new();
    assert(u.deep_view() =~= Seq::<Seq<char>>::empty());
    push_text_line(&mut u, &p.name, "set name of t to \"");
    push_clear_line(&mut u, &p.keyboard_shortcut, "set keyboard shortcut of t to missing value", "set keyboard shortcut of t to \"", "\"");
    push_clear_line(&mut u, &p.parent_tag, "set parent tag of t to missing value", "set parent tag of t to tag \"", "\"");
    assert(u.deep_view() =~= tag_updates(*p));
    u
}

/// The statements an `UpdateArea` asks for, in the order they run (one for
/// each field that is given).
pub open spec fn area_updates(p: UpdateArea) -> Seq<Seq<char>> {
    opt_line(text_line(p.title, "set name of a to \""@))
        + opt_line(tags_line(p.tags, "set tag names of a to "@))
        + opt_line(bool_line(p.collapsed, "set collapsed of a to "@))
}

fn area_updates_exec(p: &UpdateArea) -> (u: Vec<String>)
    ensures
        u.deep_view() == area_updates(*p),
{
    let mut u: Vec<String> = Vec::new();
    assert(u.deep_view() =~= Seq::<Seq<char>>::empty());
    push_text_line(&mut u, &p.title, "set name of a to \"");
    push_tags_line(&mut u, &p.tags, "set tag names of a to ");
    push_bool_line(&mut u, p.collapsed, "set collapsed of a to ");
    assert(u.deep_view() =~= area_updates(*p));
    u
}

/// The statements an `UpdateWindow` asks for, in the order they run (one for
/// each field that is given).
pub open spec fn window_updates(p: UpdateWindow) -> Seq<Seq<char>> {
    opt_line(int_line(p.index, "set index of w to "@))
        + opt_line(bounds_line(p.bounds, "set bounds of w to "@))
        + opt_line(bool_line(p.visible, "set visible of w to "@))
        + opt_line(bool_line(p.minimized, "set minimized of w to "@))
        + opt_line(bool_line(p.zoomed, "set zoomed of w to "@))
}

fn window_updates_exec(p: &UpdateWindow) -> (u: Vec<String>)
    ensures
        u.deep_view() == window_updates(*p),
{
    let mut u: Vec<String> = Vec::new();
    assert(u.deep_view() =~= Seq::<Seq<char>>::empty());
    push_int_line(&mut u, p.index, "set index of w to ");
    push_bounds_line(&mut u, p.bounds, "set bounds of w to ");
    push_bool_line(&mut u, p.visible, "set visible of w to ");
    push_bool_line(&mut u, p.minimized, "set minimized of w to ");
    push_bool_line(&mut u, p.zoomed, "set zoomed of w to ");
    assert(u.deep_view() =~= window_updates(*p));
    u
}

/// The JSON array of checklist items the Things URL scheme takes: each item
/// `{"type":"checklist-item","attributes":{"title":"<item>"}}`, its title
/// escaped with [`esc`].
pub open spec fn checklist_json(items: Seq<Seq<char>>) -> Seq<char> {
    "["@ + join(items.map_values(|it: Seq<char>| "{\"type\":\"checklist-item\",\"attributes\":{\"title\":\""@ + esc_spec(it) + "\"}}"@), ","@) + "]"@
}

/// The Things URL that adds the checklist items to a to-do, carrying the auth
/// token when there is one.
pub open spec fn checklist_url(task_id: Seq<char>, items: Seq<Seq<char>>, token: Seq<char>) -> Seq<char> {
    "things:///update?id="@ + task_id + "&checklist-items="@ + percent_encode(encode_utf8(checklist_json(items)))
        + (if token.len() == 0 { Seq::empty() } else { "&auth-token="@ + token })
}

/// `s` with every `'` written as `'\''`, for a single-quoted shell word.
pub open spec fn shell_quote_body(s: Seq<char>) -> Seq<char>
    decreases s.len(),
{
    if s.len() == 0 {
        Seq::empty()
    } else {
        shell_quote_body(s.drop_last()) + (if s.last() == '\'' { "'\\''"@ } else { seq![s.last()] })
    }
}

/// The script that opens the checklist URL in the background: `None` when the
/// new to-do has no checklist items.
pub open spec fn checklist_script_spec(task_id: Seq<char>, p: CreateTask, token: Seq<char>) -> Option<Seq<char>> {
    match p.checklist_items {
        Some(items) => if items@.len() > 0 {
            Some("do shell script \"open -g '"@ + shell_quote_body(checklist_url(task_id, items.deep_view(), token)) + "'\""@)
        } else {
            None
        },
        None => None,
    }
}

fn push_shell_quoted(out: &mut Vec<char>, s: &str)
    ensures
        final(out)@ == old(out)@ + shell_quote_body(s@),
{
    let v = crate::text::chars_of(s);
    let mut i: usize = 0;
    while i < v.len()
        invariant
            i <= v.len(),
            v@ == s@,
            out@ == old(out)@ + shell_quote_body(v@.take(i as int)),
        decreases v.len() - i,
    {
        let ghost before = out@;
        if v[i] == '\'' {
            push_str(out, "'\\''");
        } else {
            out.push(v[i]);
        }
        i += 1;
        assert(v@.take(i as int).drop_last() =~= v@.take(i - 1));
        assert(out@ =~= before + (if v@[i - 1] == '\'' { "'\\''"@ } else { seq![v@[i - 1]] }));
    }
    assert(v@.take(v@.len() as int) =~= v@);
}

/// Builds the script that adds a new to-do's checklist items through the
/// Things URL scheme (AppleScript cannot reach checklists): `None` when there
/// are no items. `auth_token` is the Things URL-scheme token, possibly empty.
pub fn checklist_script(task_id: &str, payload: &CreateTask, auth_token: &str) -> (script: Option<String>)
    ensures
        script.deep_view() == checklist_script_spec(task_id@, *payload, auth_token@),
{
    let items = match &payload.checklist_items {
        Some(items) => items,
        None => return None,
    };
    if items.len() == 0 {
        return None;
    }
    let mut entries: Vec<String> = Vec::new();
    let ghost its = items.deep_view();
    let mut i: usize = 0;
    while i < items.len()
        invariant
            i <= items.len(),
            its == items.deep_view(),
            entries.deep_view() =~= its.take(i as int).map_values(|it: Seq<char>| "{\"type\":\"checklist-item\",\"attributes\":{\"title\":\""@ + esc_spec(it) + "\"}}"@),
        decreases items.len() - i,
    {
        let e = quoted_stmt("{\"type\":\"checklist-item\",\"attributes\":{\"title\":\"", items[i].as_str(), "\"}}");
        let ghost before = entries.deep_view();
        entries.push(e);
        assert(entries.deep_view() =~= before.push(e@));
        i += 1;
        assert(its.take(i as int) =~= its.take(i - 1).push(its[i - 1]));
    }
    assert(its.take(items.len() as int) =~= its);
    let mut json: Vec<char> = Vec::new();
    push_str(&mut json, "[");
    push_join(&mut json, &entries, ",");
    push_str(&mut json, "]");
    let json_str = string_from_chars(json.as_slice());
    let encoded = url_encode(json_str.as_str());
    let mut url: Vec<char> = Vec::new();
    push_str(&mut url, "things:///update?id=");
    push_str(&mut url, task_id);
    push_str(&mut url, "&checklist-items=");
    push_str(&mut url, encoded.as_str());
    if auth_token.unicode_len() > 0 {
        push_str(&mut url, "&auth-token=");
        push_str(&mut url, auth_token);
    }
    let url_str = string_from_chars(url.as_slice());
    assert(url_str@ == checklist_url(task_id@, its, auth_token@));
    let mut out: Vec<char> = Vec::new();
    push_str(&mut out, "do shell script \"open -g '");
    push_shell_quoted(&mut out, url_str.as_str());
    push_str(&mut out, "'\"");
    Some(string_from_chars(out.as_slice()))
}


proof fn lemma_contains_concat(a: Seq<Seq<char>>, b: Seq<Seq<char>>, x: Seq<char>)
    ensures
        (a + b).contains(x) <==> (a.contains(x) || b.contains(x)),
{
    if (a + b).contains(x) {
        let i = choose|i: int| 0 <= i < (a + b).len() && (a + b)[i] == x;
        if i < a.len() {
            assert(a[i] == x);
        } else {
            assert(b[i - a.len()] == x);
        }
    }
    if a.contains(x) {
        let i = choose|i: int| 0 <= i < a.len() && a[i] == x;
        assert((a + b)[i] == x);
    }
    if b.contains(x) {
        let i = choose|i: int| 0 <= i < b.len() && b[i] == x;
        assert((a + b)[i + a.len()] == x);
    }
}

proof fn lemma_opt_line_contains(o: Option<Seq<char>>, x: Seq<char>)
    ensures
        opt_line(o).contains(x) <==> o == Some(x),
{
    if o == Some(x) {
        assert(opt_line(o)[0] == x);
    }
}

/// Two texts that differ at position `k` differ.
proof fn lemma_differ_at(a: Seq<char>, b: Seq<char>, k: int)
    requires
        0 <= k < a.len(),
        k < b.len(),
        a[k] != b[k],
    ensures
        a != b,
{
}

/// The status statements of a project update: a `canceled` flag set to true
/// marks the project canceled and a `completed` flag set to true marks it
/// completed; no update marks it canceled or completed otherwise.
pub proof fn law_project_status(p: UpdateProject)
    ensures
        project_updates(p).contains("set status of p to canceled"@) <==> p.canceled == Some(true),
        project_updates(p).contains("set status of p to completed"@) <==> p.completed == Some(true),
{
    let c = "set status of p to completed"@;
    let k = "set status of p to canceled"@;
    let o = "set status of p to open"@;
    reveal_strlit("set status of p to completed");
    reveal_strlit("set status of p to canceled");
    reveal_strlit("set status of p to open");
    reveal_strlit("set name of p to \"");
    reveal_strlit("set notes of p to \"");
    reveal_strlit("set due date of p to missing value");
    reveal_strlit("set due date of p to (date \"");
    reveal_strlit("set tag names of p to ");
    reveal_strlit("set area of p to missing value");
    reveal_strlit("set area of p to area \"");
    reveal_strlit("schedule p for (date \"");
    let g1 = opt_line(text_line(p.title, "set name of p to \""@));
    let g2 = opt_line(text_line(p.notes, "set notes of p to \""@));
    let g3 = opt_line(clear_line(p.due_date, "set due date of p to missing value"@, "set due date of p to (date \""@, "\")"@));
    let g4 = opt_line(tags_line(p.tags, "set tag names of p to "@));
    let g5 = opt_line(clear_line(p.area, "set area of p to missing value"@, "set area of p to area \""@, "\""@));
    let g6 = opt_line(sched_line(p.activation_date, "schedule p for (date \""@, "\")"@));
    let g7 = opt_line(flag_line(p.completed, c, o));
    let g8 = opt_line(flag_line(p.canceled, k, o));
    assert(project_updates(p) == g1 + g2 + g3 + g4 + g5 + g6 + g7 + g8);
    assert forall|x: Seq<char>| x == c || x == k implies !(g1 + g2 + g3 + g4 + g5 + g6).contains(x) by {
        lemma_opt_line_contains(text_line(p.title, "set name of p to \""@), x);
        lemma_opt_line_contains(text_line(p.notes, "set notes of p to \""@), x);
        lemma_opt_line_contains(clear_line(p.due_date, "set due date of p to missing value"@, "set due date of p to (date \""@, "\")"@), x);
        lemma_opt_line_contains(tags_line(p.tags, "set tag names of p to "@), x);
        lemma_opt_line_contains(clear_line(p.area, "set area of p to missing value"@, "set area of p to area \""@, "\""@), x);
        lemma_opt_line_contains(sched_line(p.activation_date, "schedule p for (date \""@, "\")"@), x);
        match p.title {
            Some(v) => lemma_differ_at("set name of p to \""@ + esc_spec(v@) + "\""@, x, 4),
            None => {},
        }
        match p.notes {
            Some(v) => lemma_differ_at("set notes of p to \""@ + esc_spec(v@) + "\""@, x, 4),
            None => {},
        }
        match p.due_date {
            Some(v) => if v@.len() == 0 {
                lemma_differ_at("set due date of p to missing value"@, x, 4);
            } else {
                lemma_differ_at("set due date of p to (date \""@ + esc_spec(v@) + "\")"@, x, 4);
            },
            None => {},
        }
        match p.tags {
            Some(ts) => lemma_differ_at("set tag names of p to "@ + "{"@ + quoted_join(ts.deep_view()) + "}"@, x, 4),
            None => {},
        }
        match p.area {
            Some(v) => if v@.len() == 0 {
                lemma_differ_at("set area of p to missing value"@, x, 4);
            } else {
                lemma_differ_at("set area of p to area \""@ + esc_spec(v@) + "\""@, x, 4);
            },
            None => {},
        }
        match p.activation_date {
            Some(v) => if v@.len() > 0 {
                let l = "schedule p for (date \""@ + esc_spec(v@) + "\")"@;
                assert(l[1] == "schedule p for (date \""@[1]);
                lemma_differ_at(l, x, 1);
            },
            None => {},
        }
        lemma_contains_concat(g1, g2, x);
        lemma_contains_concat(g1 + g2, g3, x);
        lemma_contains_concat(g1 + g2 + g3, g4, x);
        lemma_contains_concat(g1 + g2 + g3 + g4, g5, x);
        lemma_contains_concat(g1 + g2 + g3 + g4 + g5, g6, x);
    }
    lemma_differ_at(o, c, 19);
    lemma_differ_at(o, k, 19);
    lemma_differ_at(c, k, 20);
    lemma_differ_at(k, c, 20);
    lemma_opt_line_contains(flag_line(p.completed, c, o), c);
    lemma_opt_line_contains(flag_line(p.completed, c, o), k);
    lemma_opt_line_contains(flag_line(p.canceled, k, o), c);
    lemma_opt_line_contains(flag_line(p.canceled, k, o), k);
    lemma_contains_concat(g1 + g2 + g3 + g4 + g5 + g6, g7, c);
    lemma_contains_concat(g1 + g2 + g3 + g4 + g5 + g6 + g7, g8, c);
    lemma_contains_concat(g1 + g2 + g3 + g4 + g5 + g6, g7, k);
    lemma_contains_concat(g1 + g2 + g3 + g4 + g5 + g6 + g7, g8, k);
}


/// The status statements of a to-do update: a `canceled` flag set to true
/// marks the to-do canceled and a `completed` flag set to true marks it
/// completed; no update marks it canceled or completed otherwise.
pub proof fn law_task_status(p: UpdateTask)
    ensures
        task_updates(p).contains("set status of t to canceled"@) <==> p.canceled == Some(true),
        task_updates(p).contains("set status of t to completed"@) <==> p.completed == Some(true),
{
    let c = "set status of t to completed"@;
    let k = "set status of t to canceled"@;
    let o = "set status of t to open"@;
    reveal_strlit("set status of t to completed");
    reveal_strlit("set status of t to canceled");
    reveal_strlit("set status of t to open");
    reveal_strlit("set name of t to \"");
    reveal_strlit("set notes of t to \"");
    reveal_strlit("set due date of t to missing value");
    reveal_strlit("set due date of t to (date \"");
    reveal_strlit("set tag names of t to ");
    reveal_strlit("set project of t to missing value");
    reveal_strlit("set project of t to project \"");
    reveal_strlit("set area of t to missing value");
    reveal_strlit("set area of t to area \"");
    reveal_strlit("set contact of t to missing value");
    reveal_strlit("set contact of t to contact \"");
    reveal_strlit("move t to list \"");
    reveal_strlit("move t to list \"Anytime\"");
    reveal_strlit("schedule t for (date \"");
    let o1 = text_line(p.title, "set name of t to \""@);
    let o2 = text_line(p.notes, "set notes of t to \""@);
    let o3 = clear_line(p.due_date, "set due date of t to missing value"@, "set due date of t to (date \""@, "\")"@);
    let o4 = tags_line(p.tags, "set tag names of t to "@);
    let o5 = clear_line(p.project, "set project of t to missing value"@, "set project of t to project \""@, "\""@);
    let o6 = clear_line(p.area, "set area of t to missing value"@, "set area of t to area \""@, "\""@);
    let o7 = clear_line(p.contact, "set contact of t to missing value"@, "set contact of t to contact \""@, "\""@);
    let o8 = list_line(p.list, "move t to list \""@);
    let o9 = clear_line(p.activation_date, "move t to list \"Anytime\""@, "schedule t for (date \""@, "\")"@);
    let g1 = opt_line(o1);
    let g2 = opt_line(o2);
    let g3 = opt_line(o3);
    let g4 = opt_line(o4);
    let g5 = opt_line(o5);
    let g6 = opt_line(o6);
    let g7 = opt_line(o7);
    let g8 = opt_line(o8);
    let g9 = opt_line(o9);
    let ga = opt_line(flag_line(p.completed, c, o));
    let gb = opt_line(flag_line(p.canceled, k, o));
    let pre = g1 + g2 + g3 + g4 + g5 + g6 + g7 + g8 + g9;
    assert(task_updates(p) == pre + ga + gb);
    assert forall|x: Seq<char>| x == c || x == k implies !pre.contains(x) by {
        assert(x[0] == 's' && x[1] == 'e' && x[4] == 's');
        lemma_opt_line_contains(o1, x);
        lemma_opt_line_contains(o2, x);
        lemma_opt_line_contains(o3, x);
        lemma_opt_line_contains(o4, x);
        lemma_opt_line_contains(o5, x);
        lemma_opt_line_contains(o6, x);
        lemma_opt_line_contains(o7, x);
        lemma_opt_line_contains(o8, x);
        lemma_opt_line_contains(o9, x);
        if let Some(l) = o1 {
            assert(l[4] == 'n');
        }
        if let Some(l) = o2 {
            assert(l[4] == 'n');
        }
        if let Some(l) = o3 {
            assert(l[4] == 'd');
        }
        if let Some(l) = o4 {
            assert(l[4] == 't');
        }
        if let Some(l) = o5 {
            assert(l[4] == 'p');
        }
        if let Some(l) = o6 {
            assert(l[4] == 'a');
        }
        if let Some(l) = o7 {
            assert(l[4] == 'c');
        }
        if let Some(l) = o8 {
            assert(l[0] == 'm');
        }
        if let Some(l) = o9 {
            assert(l[1] != 'e');
        }
        lemma_contains_concat(g1, g2, x);
        lemma_contains_concat(g1 + g2, g3, x);
        lemma_contains_concat(g1 + g2 + g3, g4, x);
        lemma_contains_concat(g1 + g2 + g3 + g4, g5, x);
        lemma_contains_concat(g1 + g2 + g3 + g4 + g5, g6, x);
        lemma_contains_concat(g1 + g2 + g3 + g4 + g5 + g6, g7, x);
        lemma_contains_concat(g1 + g2 + g3 + g4 + g5 + g6 + g7, g8, x);
        lemma_contains_concat(g1 + g2 + g3 + g4 + g5 + g6 + g7 + g8, g9, x);
    }
    lemma_differ_at(o, c, 19);
    lemma_differ_at(o, k, 19);
    lemma_differ_at(c, k, 20);
    lemma_differ_at(k, c, 20);
    lemma_opt_line_contains(flag_line(p.completed, c, o), c);
    lemma_opt_line_contains(flag_line(p.completed, c, o), k);
    lemma_opt_line_contains(flag_line(p.canceled, k, o), c);
    lemma_opt_line_contains(flag_line(p.canceled, k, o), k);
    lemma_contains_concat(pre, ga, c);
    lemma_contains_concat(pre + ga, gb, c);
    lemma_contains_concat(pre, ga, k);
    lemma_contains_concat(pre + ga, gb, k);
}

} // verus!
