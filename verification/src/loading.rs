//! From the attempt to read a list's file as JSON to what the list holds.

use crate::error::ErrorKind;
use crate::error::ErrorView;
use crate::error::StoreError;
use crate::json::classify;
use crate::json::describe;
use crate::json::fault_of;
use crate::json::ParseFault;
use crate::model::ContentView;
use crate::store::Content;
use crate::task::task_views;
use crate::task::Task;
use vstd::prelude::*;

verus! {

/// Whether bytes hold nothing but the white space that JSON allows between
/// values: space, tab, line feed and carriage return. No bytes at all are blank.
pub open spec fn blank(bytes: Seq<u8>) -> bool {
    forall|i: int|
        0 <= i < bytes.len() ==> bytes[i] == 0x20 || bytes[i] == 0x09 || bytes[i] == 0x0a
            || bytes[i] == 0x0d
}

/// Tells whether a file's bytes are blank.
pub fn is_blank(bytes: &[u8]) -> (yes: bool)
    ensures
        yes == blank(bytes@),
{
    let mut i: usize = 0;
    while i < bytes.len()
        invariant
            i <= bytes@.len(),
            forall|k: int|
                0 <= k < i ==> bytes@[k] == 0x20 || bytes@[k] == 0x09 || bytes@[k] == 0x0a
                    || bytes@[k] == 0x0d,
        decreases bytes@.len() - i,
    {
        let b = bytes[i];
        if !(b == 0x20 || b == 0x09 || b == 0x0a || b == 0x0d) {
            return false;
        }
        i += 1;
    }
    true
}

/// What a list holds whose file could not be read as tasks. Only a blank file
/// counts as a list without tasks: the text then ends before any value began.
/// A file that holds something and ends before its value is complete is
/// corrupt, as is one whose text is not JSON or is JSON of another shape. A
/// fault is kept as the error that reading the list ends in, with the line that
/// describes it.
pub open spec fn failure_content(fault: ParseFault, blank: bool, text: Seq<char>) -> ContentView {
    match fault {
        ParseFault::Eof => if blank {
            ContentView::Tasks(Seq::empty())
        } else {
            ContentView::Unreadable(ErrorView { kind: ErrorKind::InvalidData, message: text })
        },
        ParseFault::Io => ContentView::Unreadable(
            ErrorView { kind: ErrorKind::Io, message: text },
        ),
        ParseFault::Syntax => ContentView::Unreadable(
            ErrorView { kind: ErrorKind::InvalidData, message: text },
        ),
        ParseFault::Data => ContentView::Unreadable(
            ErrorView { kind: ErrorKind::InvalidData, message: text },
        ),
    }
}

/// What a list holds whose file could not be read as tasks, from the fault,
/// whether the file is blank, and the line that describes the fault.
pub fn content_of_failure(fault: ParseFault, blank: bool, text: String) -> (content: Content)
    ensures
        content@ == failure_content(fault, blank, text@),
{
    match fault {
        ParseFault::Eof => {
            if blank {
                let tasks: Vec<Task> = Vec::new();
                assert(task_views(tasks@) =~= Seq::empty());
                Content::Tasks(tasks)
            } else {
                Content::Unreadable(StoreError { kind: ErrorKind::InvalidData, message: text })
            }
        },
        ParseFault::Io => Content::Unreadable(StoreError { kind: ErrorKind::Io, message: text }),
        ParseFault::Syntax => Content::Unreadable(
            StoreError { kind: ErrorKind::InvalidData, message: text },
        ),
        ParseFault::Data => Content::Unreadable(
            StoreError { kind: ErrorKind::InvalidData, message: text },
        ),
    }
}

/// What a list holds, from whether its file is blank and the attempt to read
/// the file as a JSON array of tasks: the tasks where that went well, and else
/// what the fault of the error leads to, with some line that describes the
/// error.
pub fn content_of_parse(blank: bool, parsed: Result<Vec<Task>, serde_json::Error>) -> (content:
    Content)
    ensures
        match parsed {
            Ok(tasks) => content@ == ContentView::Tasks(task_views(tasks@)),
            Err(error) => exists|text: Seq<char>|
                content@ == failure_content(fault_of(error), blank, text),
        },
{
    match parsed {
        Ok(tasks) => Content::Tasks(tasks),
        Err(error) => {
            let fault = classify(&error);
            let text = describe(&error);
            content_of_failure(fault, blank, text)
        },
    }
}

} // verus!
