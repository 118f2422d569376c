//! The operations on the store: creating, deleting and showing lists, and
//! adding, removing, flipping and clearing their tasks.

use crate::error::ErrorKind;
use crate::error::ErrorView;
use crate::error::StoreError;
use crate::model::list_lines;
use crate::model::task_lines;
use crate::model::Outcome;
use crate::model::ReceiptView;
use crate::names::get_list_path;
use crate::names::path_of;
use crate::store::string_views;
use crate::store::Content;
use crate::store::ListStore;
use crate::store::Receipt;
use crate::task::copy_tasks;
use crate::task::task_views;
use crate::task::Task;
use crate::task::TaskView;
use crate::text::join3;
use crate::text::join5;
use crate::wording::task_line_text;
use vstd::prelude::*;
use vstd::string::StringExecFns;

verus! {

/// An answer with a receipt, as a mathematical value.
pub open spec fn receipt_result_view(result: Result<Receipt, StoreError>) -> Result<
    ReceiptView,
    ErrorView,
> {
    match result {
        Ok(receipt) => Ok(receipt@),
        Err(error) => Err(error@),
    }
}

/// An answer with tasks, as a mathematical value.
pub open spec fn tasks_result_view(result: Result<Vec<Task>, StoreError>) -> Result<
    Seq<TaskView>,
    ErrorView,
> {
    match result {
        Ok(tasks) => Ok(task_views(tasks@)),
        Err(error) => Err(error@),
    }
}

/// An answer with lines, as a mathematical value.
pub open spec fn lines_result_view(result: Result<Vec<String>, StoreError>) -> Result<
    Seq<Seq<char>>,
    ErrorView,
> {
    match result {
        Ok(lines) => Ok(string_views(lines@)),
        Err(error) => Err(error@),
    }
}

/// An answer without a value, as a mathematical value.
pub open spec fn unit_result_view(result: Result<(), StoreError>) -> Result<(), ErrorView> {
    match result {
        Ok(_) => Ok(()),
        Err(error) => Err(error@),
    }
}

/// The error for a list that is not there.
fn not_found_error(list_name: &str) -> (error: StoreError)
    ensures
        error@ == crate::model::not_found(list_name@),
{
    StoreError { kind: ErrorKind::NotFound, message: join3("List \"", list_name, "\" not found.") }
}

/// The path of the file that backs a list, if the list is there, and nothing if
/// it is not.
pub fn get_existing_list_path(store: &ListStore, list_name: &str) -> (path: Option<String>)
    ensures
        match path {
            Some(p) => store@.has(list_name@) && p@ == path_of(list_name@),
            None => !store@.has(list_name@),
        },
{
    if store.contains(list_name) {
        Some(get_list_path(list_name))
    } else {
        None
    }
}

/// Creates a list without tasks, behind the lists that are there. Where a list
/// of that name is there already, the store stays as it is and the error says
/// that the list exists.
pub fn create_list(store: &mut ListStore, list_name: &str) -> (result: Result<Receipt, StoreError>)
    ensures
        final(store)@ == old(store)@.create(list_name@).0,
        receipt_result_view(result) == old(store)@.create(list_name@).1,
        final(store)@.wf(),
{
    match store.find(list_name) {
        Some(_) => Err(
            StoreError {
                kind: ErrorKind::AlreadyExists,
                message: join3("List \"", list_name, "\" already exists."),
            },
        ),
        None => {
            let tasks: Vec<Task> = Vec::new();
            assert(task_views(tasks@) =~= Seq::empty());
            store.push_list(list_name, Content::Tasks(tasks));
            Ok(
                Receipt {
                    outcome: Outcome::Created,
                    message: join3("Created list \"", list_name, "\"."),
                },
            )
        },
    }
}

/// Deletes a list; the others stay in their order. Where no list of that name
/// is there, the store stays as it is and the error says that the list was not
/// found.
pub fn delete_list(store: &mut ListStore, list_name: &str) -> (result: Result<Receipt, StoreError>)
    ensures
        final(store)@ == old(store)@.delete(list_name@).0,
        receipt_result_view(result) == old(store)@.delete(list_name@).1,
        final(store)@.wf(),
{
    match store.find(list_name) {
        Some(i) => {
            store.take_out(i);
            Ok(
                Receipt {
                    outcome: Outcome::Deleted,
                    message: join3("Deleted list \"", list_name, "\"."),
                },
            )
        },
        None => Err(
            StoreError {
                kind: ErrorKind::NotFound,
                message: join3("List \"", list_name, "\" was not found."),
            },
        ),
    }
}

/// The lines that show the lists: one per list, with its name, in the order of
/// the store; or one line that says that there are no lists.
pub fn list_lists(store: &ListStore) -> (lines: Vec<String>)
    ensures
        string_views(lines@) == list_lines(store@.names()),
{
    let names = store.names();
    let mut lines: Vec<String> = Vec::new();
    if names.len() == 0 {
        lines.push(String::from_str("No lists found."));
        assert(string_views(lines@) =~= list_lines(store@.names()));
        return lines;
    }
    let mut i: usize = 0;
    while i < names.len()
        invariant
            i <= names@.len(),
            lines@.len() == i,
            string_views(names@) == store@.names(),
            forall|k: int|
                0 <= k < i ==> lines@[k]@ == crate::wording::list_line(store@.names()[k]),
        decreases names@.len() - i,
    {
        let mut line = String::from_str("- ");
        line.append(names[i].as_str());
        assert(names@[i as int]@ == string_views(names@)[i as int]);
        lines.push(line);
        i += 1;
    }
    assert(string_views(lines@) =~= list_lines(store@.names()));
    lines
}

/// Reads a list: a copy of its tasks, in order. Fails with the error that the
/// list is not found where it is not there, and with the error that the list
/// holds where its file cannot be read as tasks.
pub fn get_tasks(store: &ListStore, list_name: &str) -> (result: Result<Vec<Task>, StoreError>)
    ensures
        tasks_result_view(result) == store@.load(list_name@),
        store@.wf(),
{
    match store.find(list_name) {
        None => Err(not_found_error(list_name)),
        Some(i) => match store.content_at(i) {
            Content::Tasks(tasks) => Ok(copy_tasks(tasks)),
            Content::Unreadable(error) => Err(error.clone()),
        },
    }
}

/// Writes a list: it holds a copy of these tasks from now on, whatever it held
/// before, and the other lists stay as they are. A list that is not there is
/// not created: the store stays as it is and the error says that the list is
/// not found.
pub fn save_tasks(store: &mut ListStore, list_name: &str, tasks: &Vec<Task>) -> (result: Result<
    (),
    StoreError,
>)
    ensures
        final(store)@ == old(store)@.save(list_name@, task_views(tasks@)).0,
        unit_result_view(result) == old(store)@.save(list_name@, task_views(tasks@)).1,
        final(store)@.wf(),
{
    match store.find(list_name) {
        None => Err(not_found_error(list_name)),
        Some(i) => {
            store.set_content(i, Content::Tasks(copy_tasks(tasks)));
            Ok(())
        },
    }
}

/// Appends a task, not done, to a list. Where the list cannot be read, the
/// store stays as it is and the error is that of reading it.
pub fn add_task(store: &mut ListStore, list_name: &str, task: &str) -> (result: Result<
    Receipt,
    StoreError,
>)
    ensures
        final(store)@ == old(store)@.add(list_name@, task@).0,
        receipt_result_view(result) == old(store)@.add(list_name@, task@).1,
        final(store)@.wf(),
{
    let mut tasks = match get_tasks(store, list_name) {
        Ok(tasks) => tasks,
        Err(error) => {
            return Err(error);
        },
    };
    let ghost before = task_views(tasks@);
    tasks.push(Task::new(task));
    assert(task_views(tasks@) =~= before.push(TaskView { title: task@, done: false }));
    match save_tasks(store, list_name, &tasks) {
        Ok(_) => Ok(
            Receipt {
                outcome: Outcome::Added,
                message: join5("Added \"", task, "\" to list \"", list_name, "\"."),
            },
        ),
        Err(error) => Err(error),
    }
}

/// Removes the task at an index from a list; the tasks behind it move up. A
/// list without tasks is left alone, whatever the index, and the receipt says
/// that it is empty; so is a list without a task at the index, and the receipt
/// says that the index is out of range. Where the list cannot be read, the
/// store stays as it is and the error is that of reading it.
pub fn remove_task(store: &mut ListStore, list_name: &str, idx: usize) -> (result: Result<
    Receipt,
    StoreError,
>)
    ensures
        final(store)@ == old(store)@.remove(list_name@, idx as int).0,
        receipt_result_view(result) == old(store)@.remove(list_name@, idx as int).1,
        final(store)@.wf(),
{
    let mut tasks = match get_tasks(store, list_name) {
        Ok(tasks) => tasks,
        Err(error) => {
            return Err(error);
        },
    };
    if tasks.len() == 0 {
        Ok(Receipt { outcome: Outcome::Empty, message: join3("List \"", list_name, "\" is empty.") })
    } else if idx >= tasks.len() {
        Ok(
            Receipt {
                outcome: Outcome::OutOfRange,
                message: String::from_str("Selected index is out of range."),
            },
        )
    } else {
        let ghost before = task_views(tasks@);
        let removed = tasks.remove(idx);
        assert(task_views(tasks@) =~= before.remove(idx as int));
        assert(removed@ == before[idx as int]);
        match save_tasks(store, list_name, &tasks) {
            Ok(_) => Ok(
                Receipt {
                    outcome: Outcome::Removed,
                    message: join5(
                        "Removed \"",
                        removed.title.as_str(),
                        "\" from list \"",
                        list_name,
                        "\".",
                    ),
                },
            ),
            Err(error) => Err(error),
        }
    }
}

/// Flips the done flag of the task at an index of a list. A list without tasks
/// is left alone, and the receipt says that it is empty; so is a list without a
/// task at the index, and the receipt says that the index is out of range.
/// Where the list cannot be read, the store stays as it is and the error is
/// that of reading it.
pub fn change_task_status(store: &mut ListStore, list_name: &str, idx: usize) -> (result: Result<
    Receipt,
    StoreError,
>)
    ensures
        final(store)@ == old(store)@.toggle(list_name@, idx as int).0,
        receipt_result_view(result) == old(store)@.toggle(list_name@, idx as int).1,
        final(store)@.wf(),
{
    let mut tasks = match get_tasks(store, list_name) {
        Ok(tasks) => tasks,
        Err(error) => {
            return Err(error);
        },
    };
    if tasks.len() == 0 {
        Ok(Receipt { outcome: Outcome::Empty, message: join3("List \"", list_name, "\" is empty.") })
    } else if idx >= tasks.len() {
        Ok(
            Receipt {
                outcome: Outcome::OutOfRange,
                message: String::from_str("Selected index is out of range."),
            },
        )
    } else {
        let ghost before = task_views(tasks@);
        let flipped = Task { title: tasks[idx].title.clone(), done: !tasks[idx].done };
        let message = join5(
            "Changed status for \"",
            flipped.title.as_str(),
            "\" in \"",
            list_name,
            "\".",
        );
        tasks.set(idx, flipped);
        assert(task_views(tasks@) =~= before.update(
            idx as int,
            crate::model::toggled(before[idx as int]),
        ));
        match save_tasks(store, list_name, &tasks) {
            Ok(_) => Ok(Receipt { outcome: Outcome::Changed, message }),
            Err(error) => Err(error),
        }
    }
}

/// Takes all tasks out of a list, whatever it held, readable or not. The list
/// stays. Where no list of that name is there, the store stays as it is and the
/// error says that the list is not found.
pub fn clear_tasks(store: &mut ListStore, list_name: &str) -> (result: Result<Receipt, StoreError>)
    ensures
        final(store)@ == old(store)@.clear(list_name@).0,
        receipt_result_view(result) == old(store)@.clear(list_name@).1,
        final(store)@.wf(),
{
    let tasks: Vec<Task> = Vec::new();
    assert(task_views(tasks@) =~= Seq::empty());
    match save_tasks(store, list_name, &tasks) {
        Ok(_) => Ok(
            Receipt {
                outcome: Outcome::Cleared,
                message: join3("List \"", list_name, "\" cleared."),
            },
        ),
        Err(error) => Err(error),
    }
}

/// The lines that show a list: one per task, with its index, its mark and its
/// title, or one line that says that the list is empty. Fails as reading the
/// list does.
pub fn print_list(store: &ListStore, list_name: &str) -> (result: Result<Vec<String>, StoreError>)
    ensures
        lines_result_view(result) == store@.print(list_name@),
{
    let tasks = match get_tasks(store, list_name) {
        Ok(tasks) => tasks,
        Err(error) => {
            return Err(error);
        },
    };
    let mut lines: Vec<String> = Vec::new();
    if tasks.len() > 0 {
        let mut i: usize = 0;
        while i < tasks.len()
            invariant
                i <= tasks@.len(),
                lines@.len() == i,
                forall|k: int|
                    0 <= k < i ==> lines@[k]@ == crate::wording::task_line(
                        k as nat,
                        task_views(tasks@)[k],
                    ),
            decreases tasks@.len() - i,
        {
            lines.push(task_line_text(i, &tasks[i]));
            i += 1;
        }
        assert(string_views(lines@) =~= task_lines(list_name@, task_views(tasks@)));
    } else {
        lines.push(join3("List \"", list_name, "\" is empty."));
        assert(string_views(lines@) =~= task_lines(list_name@, task_views(tasks@)));
    }
    Ok(lines)
}

} // verus!
