//! The lines that the operations report, word for word.

use crate::task::Task;
use crate::task::TaskView;
use crate::text::decimal;
use crate::text::decimal_text;
use vstd::prelude::*;
use vstd::string::StringExecFns;

verus! {

/// Marks a task that is done.
pub const DONE: &'static str = "✓";

/// Marks a task that is not done.
pub const NOT_DONE: &'static str = "✕";

pub open spec fn created_message(name: Seq<char>) -> Seq<char> {
    "Created list \""@ + name + "\"."@
}

pub open spec fn already_exists_message(name: Seq<char>) -> Seq<char> {
    "List \""@ + name + "\" already exists."@
}

pub open spec fn deleted_message(name: Seq<char>) -> Seq<char> {
    "Deleted list \""@ + name + "\"."@
}

/// What deleting says of a list that is not there.
pub open spec fn nothing_to_delete_message(name: Seq<char>) -> Seq<char> {
    "List \""@ + name + "\" was not found."@
}

/// What reading and writing say of a list that is not there.
pub open spec fn not_found_message(name: Seq<char>) -> Seq<char> {
    "List \""@ + name + "\" not found."@
}

pub open spec fn empty_message(name: Seq<char>) -> Seq<char> {
    "List \""@ + name + "\" is empty."@
}

pub open spec fn added_message(title: Seq<char>, name: Seq<char>) -> Seq<char> {
    "Added \""@ + title + "\" to list \""@ + name + "\"."@
}

pub open spec fn removed_message(title: Seq<char>, name: Seq<char>) -> Seq<char> {
    "Removed \""@ + title + "\" from list \""@ + name + "\"."@
}

pub open spec fn changed_message(title: Seq<char>, name: Seq<char>) -> Seq<char> {
    "Changed status for \""@ + title + "\" in \""@ + name + "\"."@
}

pub open spec fn out_of_range_message() -> Seq<char> {
    "Selected index is out of range."@
}

pub open spec fn cleared_message(name: Seq<char>) -> Seq<char> {
    "List \""@ + name + "\" cleared."@
}

pub open spec fn no_lists_message() -> Seq<char> {
    "No lists found."@
}

/// The line that shows one list among the others.
pub open spec fn list_line(name: Seq<char>) -> Seq<char> {
    "- "@ + name
}

/// The mark in front of a task's title.
pub open spec fn marker(done: bool) -> Seq<char> {
    if done {
        DONE@
    } else {
        NOT_DONE@
    }
}

/// The line that shows the task at position `index` of its list: the index in
/// decimal, a colon, the mark, and the title.
pub open spec fn task_line(index: nat, task: TaskView) -> Seq<char> {
    decimal(index) + ": "@ + marker(task.done) + " "@ + task.title
}

/// The line that shows the task at a position of its list.
pub fn task_line_text(index: usize, task: &Task) -> (line: String)
    ensures
        line@ == task_line(index as nat, task@),
{
    let mut line = decimal_text(index);
    line.append(": ");
    line.append(if task.done { DONE } else { NOT_DONE });
    line.append(" ");
    line.append(task.title.as_str());
    line
}

} // verus!
