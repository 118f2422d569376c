//! The store as a mathematical value, and what each operation makes of it.

use crate::error::ErrorKind;
use crate::error::ErrorView;
use crate::task::TaskView;
use crate::wording::added_message;
use crate::wording::already_exists_message;
use crate::wording::changed_message;
use crate::wording::cleared_message;
use crate::wording::created_message;
use crate::wording::deleted_message;
use crate::wording::empty_message;
use crate::wording::list_line;
use crate::wording::no_lists_message;
use crate::wording::not_found_message;
use crate::wording::nothing_to_delete_message;
use crate::wording::out_of_range_message;
use crate::wording::removed_message;
use crate::wording::task_line;
use vstd::prelude::*;

verus! {

/// What an operation did.
#[derive(Clone, Copy, Debug, PartialEq, Eq, Structural)]
pub enum Outcome {
    /// A list was created, empty.
    Created,
    /// A list was deleted.
    Deleted,
    /// A task was appended to a list.
    Added,
    /// A task was taken out of a list.
    Removed,
    /// A task's done flag was flipped.
    Changed,
    /// A list lost all its tasks.
    Cleared,
    /// Nothing was done: the list has no tasks.
    Empty,
    /// Nothing was done: the list has no task at that index.
    OutOfRange,
}

/// What is due to the file of the list that an operation was about, for the
/// disk to hold what the store holds.
#[derive(Clone, Copy, Debug, PartialEq, Eq, Structural)]
pub enum FileAction {
    /// The file stays as it is.
    Nothing,
    /// An empty file is made.
    Create,
    /// The file is taken away.
    Remove,
    /// The list's tasks are written over the file.
    Write,
}

/// What is due to the list's file after an outcome: nothing where nothing was
/// done.
pub open spec fn file_action(outcome: Outcome) -> FileAction {
    match outcome {
        Outcome::Created => FileAction::Create,
        Outcome::Deleted => FileAction::Remove,
        Outcome::Added => FileAction::Write,
        Outcome::Removed => FileAction::Write,
        Outcome::Changed => FileAction::Write,
        Outcome::Cleared => FileAction::Write,
        Outcome::Empty => FileAction::Nothing,
        Outcome::OutOfRange => FileAction::Nothing,
    }
}

/// What is due to the list's file after an outcome.
pub fn action_for(outcome: Outcome) -> (action: FileAction)
    ensures
        action == file_action(outcome),
{
    match outcome {
        Outcome::Created => FileAction::Create,
        Outcome::Deleted => FileAction::Remove,
        Outcome::Added => FileAction::Write,
        Outcome::Removed => FileAction::Write,
        Outcome::Changed => FileAction::Write,
        Outcome::Cleared => FileAction::Write,
        Outcome::Empty => FileAction::Nothing,
        Outcome::OutOfRange => FileAction::Nothing,
    }
}

/// What an operation answers when it does not fail: what it did, and the line to
/// show for it.
pub struct ReceiptView {
    pub outcome: Outcome,
    pub message: Seq<char>,
}

/// What a list's file holds, as far as reading it goes: a sequence of tasks, or
/// the error that reading it ends in.
pub enum ContentView {
    Tasks(Seq<TaskView>),
    Unreadable(ErrorView),
}

/// One list of the store.
pub struct ListView {
    pub name: Seq<char>,
    pub content: ContentView,
}

/// The store: its lists, in the order in which they are enumerated.
pub struct StoreView {
    pub lists: Seq<ListView>,
}

/// The error for a list that is not there.
pub open spec fn not_found(name: Seq<char>) -> ErrorView {
    ErrorView { kind: ErrorKind::NotFound, message: not_found_message(name) }
}

/// The task with its done flag flipped.
pub open spec fn toggled(task: TaskView) -> TaskView {
    TaskView { title: task.title, done: !task.done }
}

/// The lines that show a list's tasks: one per task, or one that says that there
/// are none.
pub open spec fn task_lines(name: Seq<char>, tasks: Seq<TaskView>) -> Seq<Seq<char>> {
    if tasks.len() == 0 {
        seq![empty_message(name)]
    } else {
        Seq::new(tasks.len(), |i: int| task_line(i as nat, tasks[i]))
    }
}

/// The lines that show the lists' names: one per list, or one that says that
/// there are none.
pub open spec fn list_lines(names: Seq<Seq<char>>) -> Seq<Seq<char>> {
    if names.len() == 0 {
        seq![no_lists_message()]
    } else {
        Seq::new(names.len(), |i: int| list_line(names[i]))
    }
}

impl StoreView {
    /// No two lists have the same name.
    pub open spec fn wf(self) -> bool {
        forall|i: int, j: int|
            0 <= i < j < self.lists.len() ==> self.lists[i].name != self.lists[j].name
    }

    /// The names of the lists, in order.
    pub open spec fn names(self) -> Seq<Seq<char>> {
        Seq::new(self.lists.len(), |i: int| self.lists[i].name)
    }

    /// Whether the store has a list of that name.
    pub open spec fn has(self, name: Seq<char>) -> bool {
        exists|i: int| 0 <= i < self.lists.len() && self.lists[i].name == name
    }

    /// Where the list of that name stands.
    pub open spec fn position(self, name: Seq<char>) -> int {
        choose|i: int| 0 <= i < self.lists.len() && self.lists[i].name == name
    }

    /// What the list of that name holds.
    pub open spec fn content(self, name: Seq<char>) -> ContentView {
        self.lists[self.position(name)].content
    }

    /// The store with one more list, behind the others.
    pub open spec fn with_list(self, name: Seq<char>, content: ContentView) -> StoreView {
        StoreView { lists: self.lists.push(ListView { name, content }) }
    }

    /// The store in which the list of that name holds something else.
    pub open spec fn with_content(self, name: Seq<char>, content: ContentView) -> StoreView {
        StoreView { lists: self.lists.update(self.position(name), ListView { name, content }) }
    }

    /// The store without the list of that name.
    pub open spec fn without(self, name: Seq<char>) -> StoreView {
        StoreView { lists: self.lists.remove(self.position(name)) }
    }

    /// Reading a list: its tasks, unless it is not there or cannot be read.
    pub open spec fn load(self, name: Seq<char>) -> Result<Seq<TaskView>, ErrorView> {
        if !self.has(name) {
            Err(not_found(name))
        } else {
            match self.content(name) {
                ContentView::Tasks(tasks) => Ok(tasks),
                ContentView::Unreadable(error) => Err(error),
            }
        }
    }

    /// Writing a list: it then holds exactly these tasks, whatever it held
    /// before. A list that is not there is not created.
    pub open spec fn save(self, name: Seq<char>, tasks: Seq<TaskView>) -> (
        StoreView,
        Result<(), ErrorView>,
    ) {
        if !self.has(name) {
            (self, Err(not_found(name)))
        } else {
            (self.with_content(name, ContentView::Tasks(tasks)), Ok(()))
        }
    }

    /// Creating a list: a new, empty one behind the others, unless the name is
    /// taken.
    pub open spec fn create(self, name: Seq<char>) -> (StoreView, Result<ReceiptView, ErrorView>) {
        if self.has(name) {
            (
                self,
                Err(
                    ErrorView {
                        kind: ErrorKind::AlreadyExists,
                        message: already_exists_message(name),
                    },
                ),
            )
        } else {
            (
                self.with_list(name, ContentView::Tasks(Seq::empty())),
                Ok(ReceiptView { outcome: Outcome::Created, message: created_message(name) }),
            )
        }
    }

    /// Deleting a list: it is gone, and the others stay as they are.
    pub open spec fn delete(self, name: Seq<char>) -> (StoreView, Result<ReceiptView, ErrorView>) {
        if !self.has(name) {
            (
                self,
                Err(
                    ErrorView {
                        kind: ErrorKind::NotFound,
                        message: nothing_to_delete_message(name),
                    },
                ),
            )
        } else {
            (
                self.without(name),
                Ok(ReceiptView { outcome: Outcome::Deleted, message: deleted_message(name) }),
            )
        }
    }

    /// Adding a task: the list's tasks, then the new one, not done.
    pub open spec fn add(self, name: Seq<char>, title: Seq<char>) -> (
        StoreView,
        Result<ReceiptView, ErrorView>,
    ) {
        match self.load(name) {
            Err(error) => (self, Err(error)),
            Ok(tasks) => (
                self.save(name, tasks.push(TaskView { title, done: false })).0,
                Ok(ReceiptView { outcome: Outcome::Added, message: added_message(title, name) }),
            ),
        }
    }

    /// Removing the task at an index: the others stay, in their order. An empty
    /// list, and a list without a task at that index, are left alone.
    pub open spec fn remove(self, name: Seq<char>, index: int) -> (
        StoreView,
        Result<ReceiptView, ErrorView>,
    ) {
        match self.load(name) {
            Err(error) => (self, Err(error)),
            Ok(tasks) => if tasks.len() == 0 {
                (self, Ok(ReceiptView { outcome: Outcome::Empty, message: empty_message(name) }))
            } else if index >= tasks.len() {
                (
                    self,
                    Ok(
                        ReceiptView {
                            outcome: Outcome::OutOfRange,
                            message: out_of_range_message(),
                        },
                    ),
                )
            } else {
                (
                    self.save(name, tasks.remove(index)).0,
                    Ok(
                        ReceiptView {
                            outcome: Outcome::Removed,
                            message: removed_message(tasks[index].title, name),
                        },
                    ),
                )
            },
        }
    }

    /// Flipping the done flag of the task at an index: every other task stays as
    /// it is. An empty list, and a list without a task at that index, are left
    /// alone.
    pub open spec fn toggle(self, name: Seq<char>, index: int) -> (
        StoreView,
        Result<ReceiptView, ErrorView>,
    ) {
        match self.load(name) {
            Err(error) => (self, Err(error)),
            Ok(tasks) => if tasks.len() == 0 {
                (self, Ok(ReceiptView { outcome: Outcome::Empty, message: empty_message(name) }))
            } else if index >= tasks.len() {
                (
                    self,
                    Ok(
                        ReceiptView {
                            outcome: Outcome::OutOfRange,
                            message: out_of_range_message(),
                        },
                    ),
                )
            } else {
                (
                    self.save(name, tasks.update(index, toggled(tasks[index]))).0,
                    Ok(
                        ReceiptView {
                            outcome: Outcome::Changed,
                            message: changed_message(tasks[index].title, name),
                        },
                    ),
                )
            },
        }
    }

    /// Clearing a list: it stays, without tasks, whatever it held before.
    pub open spec fn clear(self, name: Seq<char>) -> (StoreView, Result<ReceiptView, ErrorView>) {
        match self.save(name, Seq::empty()).1 {
            Err(error) => (self, Err(error)),
            Ok(_) => (
                self.save(name, Seq::empty()).0,
                Ok(ReceiptView { outcome: Outcome::Cleared, message: cleared_message(name) }),
            ),
        }
    }

    /// Showing a list: the lines of its tasks.
    pub open spec fn print(self, name: Seq<char>) -> Result<Seq<Seq<char>>, ErrorView> {
        match self.load(name) {
            Err(error) => Err(error),
            Ok(tasks) => Ok(task_lines(name, tasks)),
        }
    }
}

} // verus!
