//! Tasks and the operations on one list's sequence of tasks.

use vstd::prelude::*;

verus! {

/// One entry of a todo list.
#[derive(Debug, PartialEq, Eq)]
pub struct Task {
    pub title: String,
    pub done: bool,
}

/// What a task is: its title as a sequence of characters, and whether it is done.
pub struct TaskView {
    pub title: Seq<char>,
    pub done: bool,
}

impl View for Task {
    type V = TaskView;

    open spec fn view(&self) -> TaskView {
        TaskView { title: self.title@, done: self.done }
    }
}

impl Clone for Task {
    fn clone(&self) -> (res: Self)
        ensures
            res == *self,
    {
        Task { title: self.title.clone(), done: self.done }
    }
}

/// The views of a sequence of tasks, in order.
pub open spec fn task_views(tasks: Seq<Task>) -> Seq<TaskView> {
    Seq::new(tasks.len(), |i: int| tasks[i]@)
}

impl Task {
    /// A task that is not done yet.
    pub fn new(title: &str) -> (task: Task)
        ensures
            task@ == (TaskView { title: title@, done: false }),
    {
        Task { title: title.to_owned(), done: false }
    }
}

/// A copy of a sequence of tasks.
pub fn copy_tasks(tasks: &Vec<Task>) -> (copy: Vec<Task>)
    ensures
        copy@ == tasks@,
{
    let mut copy: Vec<Task> = Vec::new();
    let mut i: usize = 0;
    while i < tasks.len()
        invariant
            i <= tasks.len(),
            copy@ == tasks@.subrange(0, i as int),
        decreases tasks.len() - i,
    {
        copy.push(tasks[i].clone());
        assert(copy@ =~= tasks@.subrange(0, i + 1));
        i += 1;
    }
    assert(copy@ =~= tasks@);
    copy
}

} // verus!
