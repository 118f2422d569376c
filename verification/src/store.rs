//! The store itself: the lists that are there, each with what its file holds.

use crate::error::StoreError;
use crate::model::ContentView;
use crate::model::ListView;
use crate::model::Outcome;
use crate::model::ReceiptView;
use crate::model::StoreView;
use crate::task::task_views;
use crate::task::Task;
use vstd::prelude::*;

verus! {

/// What a list's file holds, as far as reading it goes.
#[derive(Debug, PartialEq, Eq)]
pub enum Content {
    /// The tasks of the list, in order.
    Tasks(Vec<Task>),
    /// The file cannot be read as tasks: reading it ends in this error.
    Unreadable(StoreError),
}

impl View for Content {
    type V = ContentView;

    open spec fn view(&self) -> ContentView {
        match self {
            Content::Tasks(tasks) => ContentView::Tasks(task_views(tasks@)),
            Content::Unreadable(error) => ContentView::Unreadable(error@),
        }
    }
}

/// What an operation answers when it does not fail: what it did, and the line to
/// show for it.
#[derive(Debug, PartialEq, Eq)]
pub struct Receipt {
    pub outcome: Outcome,
    pub message: String,
}

impl View for Receipt {
    type V = ReceiptView;

    open spec fn view(&self) -> ReceiptView {
        ReceiptView { outcome: self.outcome, message: self.message@ }
    }
}

/// One list of the store.
struct StoredList {
    name: String,
    content: Content,
}

/// A set of named todo lists, in the order in which they were taken in.
pub struct ListStore {
    lists: Vec<StoredList>,
}

/// The store that a sequence of stored lists stands for.
spec fn store_view(lists: Seq<StoredList>) -> StoreView {
    StoreView {
        lists: Seq::new(
            lists.len(),
            |i: int| ListView { name: lists[i].name@, content: lists[i].content@ },
        ),
    }
}

impl View for ListStore {
    type V = StoreView;

    closed spec fn view(&self) -> StoreView {
        store_view(self.lists@)
    }
}

impl ListStore {
    #[verifier::type_invariant]
    spec fn distinct_names(self) -> bool {
        self@.wf()
    }

    /// A store without lists.
    pub fn new() -> (store: ListStore)
        ensures
            store@.lists == Seq::<ListView>::empty(),
            store@.wf(),
    {
        ListStore { lists: Vec::new() }
    }

    /// The number of lists.
    pub fn len(&self) -> (n: usize)
        ensures
            n == self@.lists.len(),
    {
        self.lists.len()
    }

    /// Where the list of that name stands, if it is there.
    pub fn find(&self, list_name: &str) -> (found: Option<usize>)
        ensures
            self@.wf(),
            match found {
                Some(i) => self@.has(list_name@) && i == self@.position(list_name@),
                None => !self@.has(list_name@),
            },
    {
        proof {
            use_type_invariant(self);
        }
        let wanted = list_name.to_owned();
        let mut i: usize = 0;
        while i < self.lists.len()
            invariant
                i <= self.lists@.len(),
                self@.wf(),
                wanted@ == list_name@,
                forall|k: int| 0 <= k < i ==> self@.lists[k].name != list_name@,
            decreases self.lists@.len() - i,
        {
            if self.lists[i].name == wanted {
                assert(self@.lists[i as int].name == list_name@);
                assert(self@.has(list_name@));
                return Some(i);
            }
            i += 1;
        }
        None
    }

    /// The name of the list at a position.
    pub fn name_at(&self, i: usize) -> (name: &String)
        requires
            i < self@.lists.len(),
        ensures
            name@ == self@.lists[i as int].name,
    {
        &self.lists[i].name
    }

    /// What the list at a position holds.
    pub fn content_at(&self, i: usize) -> (content: &Content)
        requires
            i < self@.lists.len(),
        ensures
            content@ == self@.lists[i as int].content,
    {
        &self.lists[i].content
    }

    /// Puts a new list behind the others.
    pub(crate) fn push_list(&mut self, list_name: &str, content: Content)
        requires
            !old(self)@.has(list_name@),
        ensures
            final(self)@ == old(self)@.with_list(list_name@, content@),
            final(self)@.wf(),
    {
        proof {
            use_type_invariant(&*self);
        }
        let ghost before = self@;
        let mut lists: Vec<StoredList> = Vec::new();
        std::mem::swap(&mut lists, &mut self.lists);
        lists.push(StoredList { name: list_name.to_owned(), content });
        proof {
            let after = store_view(lists@);
            assert(after.lists =~= before.with_list(list_name@, content@).lists);
            assert forall|i: int, j: int| 0 <= i < j < after.lists.len() implies after.lists[i].name
                != after.lists[j].name by {
                if j == before.lists.len() {
                    assert(before.lists[i].name != list_name@);
                }
            }
        }
        self.lists = lists;
    }

    /// Lets the list at a position hold something else.
    pub(crate) fn set_content(&mut self, i: usize, content: Content)
        requires
            i < old(self)@.lists.len(),
        ensures
            final(self)@.lists == old(self)@.lists.update(
                i as int,
                ListView { name: old(self)@.lists[i as int].name, content: content@ },
            ),
            final(self)@.wf(),
    {
        proof {
            use_type_invariant(&*self);
        }
        let ghost before = self@;
        let mut lists: Vec<StoredList> = Vec::new();
        std::mem::swap(&mut lists, &mut self.lists);
        let previous = lists.remove(i);
        lists.insert(i, StoredList { name: previous.name, content });
        proof {
            let after = store_view(lists@);
            assert(after.lists =~= before.lists.update(
                i as int,
                ListView { name: before.lists[i as int].name, content: content@ },
            ));
            assert forall|j: int, k: int| 0 <= j < k < after.lists.len() implies after.lists[j].name
                != after.lists[k].name by {
                assert(after.lists[j].name == before.lists[j].name);
                assert(after.lists[k].name == before.lists[k].name);
            }
        }
        self.lists = lists;
    }

    /// Takes the list at a position out of the store.
    pub(crate) fn take_out(&mut self, i: usize)
        requires
            i < old(self)@.lists.len(),
        ensures
            final(self)@.lists == old(self)@.lists.remove(i as int),
            final(self)@.wf(),
    {
        proof {
            use_type_invariant(&*self);
        }
        let ghost before = self@;
        let mut lists: Vec<StoredList> = Vec::new();
        std::mem::swap(&mut lists, &mut self.lists);
        lists.remove(i);
        proof {
            let after = store_view(lists@);
            assert(after.lists =~= before.lists.remove(i as int));
            assert forall|j: int, k: int| 0 <= j < k < after.lists.len() implies after.lists[j].name
                != after.lists[k].name by {
                let j0 = if j < i { j } else { j + 1 };
                let k0 = if k < i { k } else { k + 1 };
                assert(after.lists[j].name == before.lists[j0].name);
                assert(after.lists[k].name == before.lists[k0].name);
            }
        }
        self.lists = lists;
    }

    /// Whether the store has a list of that name.
    pub fn contains(&self, list_name: &str) -> (yes: bool)
        ensures
            yes == self@.has(list_name@),
    {
        self.find(list_name).is_some()
    }

    /// Takes a list in with what its file holds: a list of that name that is
    /// already there holds this from now on, and a new one comes behind the
    /// others.
    pub fn adopt(&mut self, list_name: &str, content: Content)
        ensures
            final(self)@ == if old(self)@.has(list_name@) {
                old(self)@.with_content(list_name@, content@)
            } else {
                old(self)@.with_list(list_name@, content@)
            },
            final(self)@.wf(),
    {
        match self.find(list_name) {
            Some(i) => {
                self.set_content(i, content);
            },
            None => {
                self.push_list(list_name, content);
            },
        }
    }

    /// The names of the lists, in order.
    pub fn names(&self) -> (names: Vec<String>)
        ensures
            string_views(names@) == self@.names(),
    {
        let mut names: Vec<String> = Vec::new();
        let mut i: usize = 0;
        while i < self.lists.len()
            invariant
                i <= self.lists@.len(),
                names@.len() == i,
                forall|k: int| 0 <= k < i ==> names@[k]@ == self@.lists[k].name,
            decreases self.lists@.len() - i,
        {
            names.push(self.lists[i].name.clone());
            i += 1;
        }
        assert(string_views(names@) =~= self@.names());
        names
    }
}

/// The texts of a sequence of strings, in order.
pub open spec fn string_views(strings: Seq<String>) -> Seq<Seq<char>> {
    Seq::new(strings.len(), |i: int| strings[i]@)
}

} // verus!
