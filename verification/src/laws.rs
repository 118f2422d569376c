//! What holds of the operations taken together, for every store and every name.

use crate::error::ErrorKind;
use crate::error::ErrorView;
use crate::model::file_action;
use crate::model::list_lines;
use crate::model::toggled;
use crate::model::ContentView;
use crate::model::FileAction;
use crate::model::Outcome;
use crate::model::ReceiptView;
use crate::model::StoreView;
use crate::task::TaskView;
use crate::wording::list_line;
use vstd::prelude::*;

verus! {

/// In a store without two lists of one name, a list that is there stands where
/// `position` says, and nowhere else.
pub proof fn lemma_position(s: StoreView, i: int)
    requires
        s.wf(),
        0 <= i < s.lists.len(),
    ensures
        s.has(s.lists[i].name),
        s.position(s.lists[i].name) == i,
{
    let name = s.lists[i].name;
    assert(s.has(name));
    let p = s.position(name);
    if p < i {
        assert(s.lists[p].name != s.lists[i].name);
    } else if i < p {
        assert(s.lists[i].name != s.lists[p].name);
    }
}

/// A new list behind the others: it is there and holds what it was given, and
/// the lists that were there stay as they were.
pub proof fn lemma_with_list(s: StoreView, name: Seq<char>, content: ContentView)
    requires
        s.wf(),
        !s.has(name),
    ensures
        s.with_list(name, content).wf(),
        s.with_list(name, content).has(name),
        s.with_list(name, content).content(name) == content,
        s.with_list(name, content).names() == s.names().push(name),
        forall|other: Seq<char>|
            other != name ==> s.with_list(name, content).has(other) == s.has(other),
        forall|other: Seq<char>|
            other != name && s.has(other) ==> s.with_list(name, content).content(other)
                == s.content(other),
{
    let t = s.with_list(name, content);
    let n = s.lists.len() as int;
    assert forall|i: int, j: int| 0 <= i < j < t.lists.len() implies t.lists[i].name
        != t.lists[j].name by {
        if j == n {
            assert(s.lists[i].name != name);
        }
    }
    assert(t.lists[n].name == name);
    lemma_position(t, n);
    assert(t.names() =~= s.names().push(name));
    assert forall|other: Seq<char>| other != name implies t.has(other) == s.has(other) by {
        if s.has(other) {
            let p = s.position(other);
            assert(t.lists[p].name == other);
        }
        if t.has(other) {
            let p = t.position(other);
            assert(s.lists[p].name == other);
        }
    }
    assert forall|other: Seq<char>| other != name && s.has(other) implies t.content(other)
        == s.content(other) by {
        let p = s.position(other);
        assert(t.lists[p].name == other);
        lemma_position(t, p);
    }
}

/// Other content for a list that is there: the same lists under the same names
/// in the same order, this one with the new content, the others as they were.
pub proof fn lemma_with_content(s: StoreView, name: Seq<char>, content: ContentView)
    requires
        s.wf(),
        s.has(name),
    ensures
        s.with_content(name, content).wf(),
        s.with_content(name, content).names() == s.names(),
        s.with_content(name, content).content(name) == content,
        forall|other: Seq<char>| s.with_content(name, content).has(other) == s.has(other),
        forall|other: Seq<char>|
            other != name && s.has(other) ==> s.with_content(name, content).content(other)
                == s.content(other),
{
    let t = s.with_content(name, content);
    let p = s.position(name);
    assert(t.names() =~= s.names());
    assert forall|i: int, j: int| 0 <= i < j < t.lists.len() implies t.lists[i].name
        != t.lists[j].name by {
        assert(t.lists[i].name == s.lists[i].name);
        assert(t.lists[j].name == s.lists[j].name);
    }
    assert(t.lists[p].name == name);
    lemma_position(t, p);
    assert forall|other: Seq<char>| t.has(other) == s.has(other) by {
        if s.has(other) {
            let q = s.position(other);
            assert(t.lists[q].name == other);
        }
        if t.has(other) {
            let q = t.position(other);
            assert(s.lists[q].name == other);
        }
    }
    assert forall|other: Seq<char>| other != name && s.has(other) implies t.content(other)
        == s.content(other) by {
        let q = s.position(other);
        assert(t.lists[q].name == other);
        lemma_position(t, q);
    }
}

/// A store without one of its lists: that name is free, and the other lists
/// stay as they were, in their order.
pub proof fn lemma_without(s: StoreView, name: Seq<char>)
    requires
        s.wf(),
        s.has(name),
    ensures
        s.without(name).wf(),
        !s.without(name).has(name),
        s.without(name).names() == s.names().remove(s.position(name)),
        forall|other: Seq<char>| other != name ==> s.without(name).has(other) == s.has(other),
        forall|other: Seq<char>|
            other != name && s.has(other) ==> s.without(name).content(other) == s.content(
                other,
            ),
{
    let t = s.without(name);
    let p = s.position(name);
    assert(t.names() =~= s.names().remove(p));
    assert forall|i: int, j: int| 0 <= i < j < t.lists.len() implies t.lists[i].name
        != t.lists[j].name by {
        let i0 = if i < p { i } else { i + 1 };
        let j0 = if j < p { j } else { j + 1 };
        assert(t.lists[i] == s.lists[i0]);
        assert(t.lists[j] == s.lists[j0]);
    }
    if t.has(name) {
        let q = t.position(name);
        let q0 = if q < p { q } else { q + 1 };
        assert(t.lists[q] == s.lists[q0]);
        lemma_position(s, q0);
    }
    assert forall|other: Seq<char>| other != name implies t.has(other) == s.has(other) by {
        if s.has(other) {
            let q = s.position(other);
            let q1 = if q < p { q } else { q - 1 };
            assert(t.lists[q1] == s.lists[q]);
        }
        if t.has(other) {
            let q = t.position(other);
            let q0 = if q < p { q } else { q + 1 };
            assert(t.lists[q] == s.lists[q0]);
        }
    }
    assert forall|other: Seq<char>| other != name && s.has(other) implies t.content(other)
        == s.content(other) by {
        let q = s.position(other);
        let q1 = if q < p { q } else { q - 1 };
        assert(t.lists[q1] == s.lists[q]);
        lemma_position(t, q1);
    }
}

/// Creating a list that is not there succeeds; the list is then among the lists
/// that are shown, and creating it once more fails because it exists, and
/// changes nothing.
pub proof fn law_create_then_listed(s: StoreView, name: Seq<char>)
    requires
        s.wf(),
        !s.has(name),
    ensures
        s.create(name).1 is Ok,
        s.create(name).0.wf(),
        s.create(name).0.has(name),
        s.create(name).0.names().contains(name),
        list_lines(s.create(name).0.names()).contains(list_line(name)),
        s.create(name).0.create(name).1 is Err,
        s.create(name).0.create(name).1->Err_0.kind == ErrorKind::AlreadyExists,
        s.create(name).0.create(name).0 == s.create(name).0,
{
    let t = s.create(name).0;
    lemma_with_list(s, name, ContentView::Tasks(Seq::empty()));
    let n = s.lists.len() as int;
    assert(t.names()[n] == name);
    assert(list_lines(t.names())[n] == list_line(name));
}

/// Deleting a list that is not there fails because it is not found, and changes
/// nothing. Deleting one that is there succeeds; it is then no longer among the
/// lists that are shown, and the others still are, in their order.
pub proof fn law_delete(s: StoreView, name: Seq<char>)
    requires
        s.wf(),
    ensures
        !s.has(name) ==> s.delete(name).1 is Err && s.delete(name).1->Err_0.kind
            == ErrorKind::NotFound && s.delete(name).0 == s,
        s.has(name) ==> s.delete(name).1 is Ok && s.delete(name).1->Ok_0.outcome
            == Outcome::Deleted,
        s.has(name) ==> s.delete(name).0.wf() && !s.delete(name).0.has(name) && !s.delete(
            name,
        ).0.names().contains(name),
        s.has(name) ==> s.delete(name).0.names() == s.names().remove(s.position(name)),
        s.has(name) ==> forall|other: Seq<char>|
            other != name ==> s.delete(name).0.has(other) == s.has(other),
{
    if s.has(name) {
        lemma_without(s, name);
        let t = s.delete(name).0;
        if t.names().contains(name) {
            let i = choose|i: int| 0 <= i < t.names().len() && t.names()[i] == name;
            assert(t.lists[i].name == name);
        }
    }
}

/// A list that was just created reads as a list without tasks.
pub proof fn law_fresh_list_is_empty(s: StoreView, name: Seq<char>)
    requires
        s.wf(),
        !s.has(name),
    ensures
        s.create(name).0.load(name) == Ok::<Seq<TaskView>, crate::error::ErrorView>(Seq::empty()),
{
    lemma_with_list(s, name, ContentView::Tasks(Seq::empty()));
}

/// What was written to a list is what is read from it afterwards.
pub proof fn law_save_then_load(s: StoreView, name: Seq<char>, tasks: Seq<TaskView>)
    requires
        s.wf(),
        s.has(name),
    ensures
        s.save(name, tasks).1 is Ok,
        s.save(name, tasks).0.wf(),
        s.save(name, tasks).0.load(name) == Ok::<Seq<TaskView>, crate::error::ErrorView>(tasks),
        s.save(name, tasks).0.names() == s.names(),
{
    lemma_with_content(s, name, ContentView::Tasks(tasks));
}

/// Adding a task to a list that can be read succeeds, and the list then reads
/// as its tasks before, followed by the new one, not done.
pub proof fn law_add_then_load(s: StoreView, name: Seq<char>, title: Seq<char>)
    requires
        s.wf(),
        s.load(name) is Ok,
    ensures
        s.add(name, title).1 is Ok,
        s.add(name, title).1->Ok_0.outcome == Outcome::Added,
        s.add(name, title).0.load(name) == Ok::<Seq<TaskView>, crate::error::ErrorView>(
            s.load(name)->Ok_0.push(TaskView { title, done: false }),
        ),
{
    let tasks = s.load(name)->Ok_0;
    law_save_then_load(s, name, tasks.push(TaskView { title, done: false }));
}

/// Flipping the task at an index of a list flips the done flag of that task and
/// changes no other task and no title; flipping it once more gives the store as
/// it was.
pub proof fn law_toggle(s: StoreView, name: Seq<char>, index: int)
    requires
        s.wf(),
        s.load(name) is Ok,
        0 <= index < s.load(name)->Ok_0.len(),
    ensures
        s.toggle(name, index).1 is Ok,
        s.toggle(name, index).1->Ok_0.outcome == Outcome::Changed,
        s.toggle(name, index).0.load(name) is Ok,
        ({
            let before = s.load(name)->Ok_0;
            let after = s.toggle(name, index).0.load(name)->Ok_0;
            &&& after.len() == before.len()
            &&& after[index].done == !before[index].done
            &&& after[index].title == before[index].title
            &&& forall|k: int| 0 <= k < before.len() && k != index ==> after[k] == before[k]
        }),
        s.toggle(name, index).0.toggle(name, index).0 == s,
{
    let before = s.load(name)->Ok_0;
    let flipped = before.update(index, toggled(before[index]));
    law_save_then_load(s, name, flipped);
    let t = s.toggle(name, index).0;
    assert(t.load(name) == Ok::<Seq<TaskView>, crate::error::ErrorView>(flipped));
    let back = flipped.update(index, toggled(flipped[index]));
    assert(back =~= before);
    lemma_with_content(s, name, ContentView::Tasks(flipped));
    let p = s.position(name);
    assert(t.lists[p].name == name);
    lemma_position(t, p);
    let u = t.toggle(name, index).0;
    assert(u.lists =~= s.lists);
}

/// Removing at an index at or beyond the length of a list that has tasks
/// reports that the index is out of range, and changes nothing.
pub proof fn law_remove_out_of_range(s: StoreView, name: Seq<char>, index: int)
    requires
        s.load(name) is Ok,
        s.load(name)->Ok_0.len() > 0,
        index >= s.load(name)->Ok_0.len(),
    ensures
        s.remove(name, index).1 is Ok,
        s.remove(name, index).1->Ok_0.outcome == Outcome::OutOfRange,
        s.remove(name, index).0 == s,
{
}

/// Removing the task at an index of a list takes that task out and keeps the
/// others in their order; from a list of one task it leaves none.
pub proof fn law_remove(s: StoreView, name: Seq<char>, index: int)
    requires
        s.wf(),
        s.load(name) is Ok,
        0 <= index < s.load(name)->Ok_0.len(),
    ensures
        s.remove(name, index).1 is Ok,
        s.remove(name, index).1->Ok_0.outcome == Outcome::Removed,
        s.remove(name, index).0.load(name) == Ok::<Seq<TaskView>, crate::error::ErrorView>(
            s.load(name)->Ok_0.remove(index),
        ),
        ({
            let before = s.load(name)->Ok_0;
            let after = s.remove(name, index).0.load(name)->Ok_0;
            &&& after.len() == before.len() - 1
            &&& forall|k: int| 0 <= k < index ==> after[k] == before[k]
            &&& forall|k: int| index <= k < after.len() ==> after[k] == before[k + 1]
        }),
        s.load(name)->Ok_0.len() == 1 ==> s.remove(name, index).0.load(name)->Ok_0.len() == 0,
{
    let before = s.load(name)->Ok_0;
    law_save_then_load(s, name, before.remove(index));
}

/// Clearing a list that is there succeeds, whatever the list held; the list is
/// still there afterwards, among the same lists, and reads as a list without
/// tasks.
pub proof fn law_clear(s: StoreView, name: Seq<char>)
    requires
        s.wf(),
        s.has(name),
    ensures
        s.clear(name).1 is Ok,
        s.clear(name).1->Ok_0.outcome == Outcome::Cleared,
        s.clear(name).0.has(name),
        s.clear(name).0.names() == s.names(),
        s.clear(name).0.load(name) == Ok::<Seq<TaskView>, crate::error::ErrorView>(Seq::empty()),
{
    law_save_then_load(s, name, Seq::empty());
    lemma_with_content(s, name, ContentView::Tasks(Seq::empty()));
}

/// Flipping at an index at or beyond the length of a list that has tasks
/// reports that the index is out of range, and changes nothing.
pub proof fn law_toggle_out_of_range(s: StoreView, name: Seq<char>, index: int)
    requires
        s.load(name) is Ok,
        s.load(name)->Ok_0.len() > 0,
        index >= s.load(name)->Ok_0.len(),
    ensures
        s.toggle(name, index).1 is Ok,
        s.toggle(name, index).1->Ok_0.outcome == Outcome::OutOfRange,
        s.toggle(name, index).0 == s,
{
}

/// Every operation on a list that is not there, but for creating it, fails
/// because the list is not found, and changes nothing.
pub proof fn law_missing_list(
    s: StoreView,
    name: Seq<char>,
    tasks: Seq<TaskView>,
    title: Seq<char>,
    index: int,
)
    requires
        !s.has(name),
    ensures
        s.delete(name).1 is Err && s.delete(name).1->Err_0.kind == ErrorKind::NotFound,
        s.delete(name).0 == s,
        s.load(name) is Err && s.load(name)->Err_0.kind == ErrorKind::NotFound,
        s.print(name) is Err && s.print(name)->Err_0.kind == ErrorKind::NotFound,
        s.save(name, tasks).1 is Err && s.save(name, tasks).1->Err_0.kind == ErrorKind::NotFound,
        s.save(name, tasks).0 == s,
        s.add(name, title).1 is Err && s.add(name, title).1->Err_0.kind == ErrorKind::NotFound,
        s.add(name, title).0 == s,
        s.remove(name, index).1 is Err && s.remove(name, index).1->Err_0.kind
            == ErrorKind::NotFound,
        s.remove(name, index).0 == s,
        s.toggle(name, index).1 is Err && s.toggle(name, index).1->Err_0.kind
            == ErrorKind::NotFound,
        s.toggle(name, index).0 == s,
        s.clear(name).1 is Err && s.clear(name).1->Err_0.kind == ErrorKind::NotFound,
        s.clear(name).0 == s,
{
}

/// Whether a name stands for the same thing in two stores: a list in both,
/// holding the same, or a list in neither.
pub open spec fn same_list(a: StoreView, b: StoreView, name: Seq<char>) -> bool {
    a.has(name) == b.has(name) && (a.has(name) ==> a.content(name) == b.content(name))
}

/// An operation on one list leaves every list of another name as it is.
pub proof fn law_other_lists_untouched(
    s: StoreView,
    name: Seq<char>,
    other: Seq<char>,
    tasks: Seq<TaskView>,
    title: Seq<char>,
    index: int,
)
    requires
        s.wf(),
        other != name,
    ensures
        same_list(s.create(name).0, s, other),
        same_list(s.delete(name).0, s, other),
        same_list(s.save(name, tasks).0, s, other),
        same_list(s.add(name, title).0, s, other),
        same_list(s.remove(name, index).0, s, other),
        same_list(s.toggle(name, index).0, s, other),
        same_list(s.clear(name).0, s, other),
{
    if s.has(name) {
        lemma_without(s, name);
        lemma_with_content(s, name, ContentView::Tasks(tasks));
        lemma_with_content(s, name, ContentView::Tasks(Seq::empty()));
        if s.load(name) is Ok {
            let held = s.load(name)->Ok_0;
            lemma_with_content(
                s,
                name,
                ContentView::Tasks(held.push(TaskView { title, done: false })),
            );
            lemma_with_content(s, name, ContentView::Tasks(held.remove(index)));
            lemma_with_content(
                s,
                name,
                ContentView::Tasks(held.update(index, toggled(held[index]))),
            );
        }
    } else {
        lemma_with_list(s, name, ContentView::Tasks(Seq::empty()));
    }
}

/// Whether an answer leaves the list's file alone: a failure, or a receipt
/// after which nothing is due to the file.
pub open spec fn leaves_file_alone(result: Result<ReceiptView, ErrorView>) -> bool {
    match result {
        Ok(receipt) => file_action(receipt.outcome) == FileAction::Nothing,
        Err(_) => true,
    }
}

/// Where an operation fails, or answers with a receipt after which nothing is
/// due to the list's file, the store is as it was: the disk is touched only
/// for a change that the store has seen.
pub proof fn law_untouched_file_means_unchanged_store(
    s: StoreView,
    name: Seq<char>,
    title: Seq<char>,
    index: int,
)
    ensures
        leaves_file_alone(s.create(name).1) ==> s.create(name).0 == s,
        leaves_file_alone(s.delete(name).1) ==> s.delete(name).0 == s,
        leaves_file_alone(s.add(name, title).1) ==> s.add(name, title).0 == s,
        leaves_file_alone(s.remove(name, index).1) ==> s.remove(name, index).0 == s,
        leaves_file_alone(s.toggle(name, index).1) ==> s.toggle(name, index).0 == s,
        leaves_file_alone(s.clear(name).1) ==> s.clear(name).0 == s,
{
}

} // verus!
