//! How a list's name relates to the file that backs it.

use vstd::prelude::*;
use vstd::string::StrSliceExecFns;
use vstd::string::StringExecFns;

verus! {

/// The directory that holds the lists' files, relative to the working directory.
pub const LISTS_DIR: &'static str = "lists";

/// What follows a list's name in the name of its file.
pub const EXT: &'static str = ".json";

/// The name of the file that backs a list: the list's name, then the extension.
pub open spec fn file_name_of(name: Seq<char>) -> Seq<char> {
    name + EXT@
}

/// The path of the file that backs a list, below the working directory.
pub open spec fn path_of(name: Seq<char>) -> Seq<char> {
    LISTS_DIR@ + "/"@ + file_name_of(name)
}

/// Whether a text ends with another.
pub open spec fn ends_with(text: Seq<char>, suffix: Seq<char>) -> bool {
    suffix.len() <= text.len() && text.subrange(text.len() - suffix.len(), text.len() as int)
        == suffix
}

/// The name of the file that backs the list `list_name`.
pub fn list_file_name(list_name: &str) -> (file_name: String)
    ensures
        file_name@ == file_name_of(list_name@),
{
    let mut file_name = String::from_str(list_name);
    file_name.append(EXT);
    file_name
}

/// The path of the file that backs the list `list_name`.
pub fn get_list_path(list_name: &str) -> (path: String)
    ensures
        path@ == path_of(list_name@),
{
    let mut path = String::from_str(LISTS_DIR);
    path.append("/");
    path.append(list_name);
    path.append(EXT);
    assert(path@ =~= path_of(list_name@));
    path
}

/// Tells whether `text` ends with `suffix`.
fn has_suffix(text: &str, suffix: &str) -> (yes: bool)
    ensures
        yes == ends_with(text@, suffix@),
{
    let n = text.unicode_len();
    let m = suffix.unicode_len();
    if m > n {
        return false;
    }
    let start = n - m;
    let mut i: usize = 0;
    while i < m
        invariant
            n == text@.len(),
            m == suffix@.len(),
            m <= n,
            start == n - m,
            i <= m,
            forall|k: int| 0 <= k < i ==> text@[start + k] == suffix@[k],
        decreases m - i,
    {
        if text.get_char(start + i) != suffix.get_char(i) {
            assert(text@.subrange(n - m, n as int)[i as int] != suffix@[i as int]);
            return false;
        }
        i += 1;
    }
    assert(text@.subrange(n - m, n as int) =~= suffix@);
    true
}

/// The list that a file of the lists' directory backs, if it backs one: the
/// file's name without the extension, where the name ends with it.
pub fn list_name_of_file(file_name: &str) -> (list_name: Option<String>)
    ensures
        match list_name {
            Some(name) => file_name@ == file_name_of(name@),
            None => !ends_with(file_name@, EXT@),
        },
{
    if has_suffix(file_name, EXT) {
        let n = file_name.unicode_len();
        let m = EXT.unicode_len();
        let name = file_name.substring_char(0, n - m).to_owned();
        assert(file_name@ =~= name@ + EXT@);
        Some(name)
    } else {
        None
    }
}

/// A file backs a list exactly if its name ends with the extension, and then it
/// backs the list whose name is the rest: mapping a list to its file and back
/// gives the list again, and no other file leads to a list.
pub proof fn law_file_names_match_lists(name: Seq<char>, file_name: Seq<char>)
    ensures
        ends_with(file_name_of(name), EXT@),
        file_name_of(name).subrange(0, file_name_of(name).len() - EXT@.len()) == name,
        file_name == file_name_of(name) <==> ends_with(file_name, EXT@) && name
            == file_name.subrange(0, file_name.len() - EXT@.len()),
{
    let full = file_name_of(name);
    assert(full.subrange(full.len() - EXT@.len(), full.len() as int) =~= EXT@);
    assert(full.subrange(0, full.len() - EXT@.len()) =~= name);
    if ends_with(file_name, EXT@) && name == file_name.subrange(
        0,
        file_name.len() - EXT@.len(),
    ) {
        assert(file_name =~= name + EXT@);
    }
}

} // verus!
