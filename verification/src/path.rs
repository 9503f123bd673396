//! File-system locations, kept as plain text with `/` between components.

use crate::launcher::optional_text;
use crate::text::to_chars;
use vstd::prelude::*;
use vstd::string::*;

verus! {

/// `component` placed below the directory `base`: a single `/` goes between
/// them unless `base` is empty or already ends in one.
pub open spec fn join_text(base: Seq<char>, component: Seq<char>) -> Seq<char> {
    if base.len() == 0 || base.last() == '/' {
        base + component
    } else {
        base + seq!['/'] + component
    }
}

/// The file name of the executable `name` on the platform at hand.
pub open spec fn binary_file_text(name: Seq<char>, windows: bool) -> Seq<char> {
    if windows {
        name + ".exe"@
    } else {
        name
    }
}

/// Places `component` below the directory `base`.
pub fn join_path(base: &str, component: &str) -> (joined: String)
    ensures
        joined@ == join_text(base@, component@),
{
    let n = base.unicode_len();
    let mut joined = String::from_str(base);
    if n > 0 && base.get_char(n - 1) != '/' {
        proof {
            reveal_strlit("/");
        }
        joined.append("/");
        assert("/"@ =~= seq!['/']);
    }
    joined.append(component);
    joined
}

/// Names the file of the executable `name`, with the suffix that Windows
/// expects where `windows` is set.
pub fn binary_file_name(name: &str, windows: bool) -> (file: String)
    ensures
        file@ == binary_file_text(name@, windows),
{
    let mut file = String::from_str(name);
    if windows {
        file.append(".exe");
    }
    file
}

/// Where the component that ends at `end` begins: behind the nearest `/`
/// before `end`, or at the start of the path.
pub open spec fn component_start(path: Seq<char>, end: int) -> int
    decreases end,
{
    if 0 < end <= path.len() && path[end - 1] != '/' {
        component_start(path, end - 1)
    } else {
        end
    }
}

/// The file name of what `path` holds before position `end`.
pub open spec fn file_name_upto(path: Seq<char>, end: int) -> Option<Seq<char>>
    decreases end,
{
    if end <= 0 || end > path.len() {
        None
    } else {
        let start = component_start(path, end);
        let len = end - start;
        if len == 0 || (len == 1 && path[start] == '.') {
            if start <= 0 {
                None
            } else {
                proof {
                    lemma_component_start(path, end);
                }
                file_name_upto(path, start - 1)
            }
        } else if len == 2 && path[start] == '.' && path[start + 1] == '.' {
            None
        } else {
            Some(path.subrange(start, end))
        }
    }
}

/// The file name of a path: its last component, where empty components and
/// the component `.` do not count. A path without components has none, and
/// neither has one that ends in `..`.
pub open spec fn file_name_text(path: Seq<char>) -> Option<Seq<char>> {
    file_name_upto(path, path.len() as int)
}

/// A component begins inside the path, at or before its end, and holds no
/// `/`; a `/` stands right before it unless it begins the path.
pub proof fn lemma_component_start(path: Seq<char>, end: int)
    requires
        0 <= end <= path.len(),
    ensures
        0 <= component_start(path, end) <= end,
        forall|k: int| component_start(path, end) <= k < end ==> path[k] != '/',
        component_start(path, end) > 0 ==> path[component_start(path, end) - 1] == '/',
    decreases end,
{
    if 0 < end && path[end - 1] != '/' {
        lemma_component_start(path, end - 1);
    }
}

/// A file name is never empty, holds no `/`, and is neither `.` nor `..`.
pub proof fn lemma_file_name_is_a_component(path: Seq<char>, end: int)
    requires
        0 <= end <= path.len(),
        file_name_upto(path, end) is Some,
    ensures
        ({
            let name = file_name_upto(path, end)->0;
            &&& name.len() > 0
            &&& forall|k: int| 0 <= k < name.len() ==> name[k] != '/'
            &&& name != seq!['.']
            &&& name != seq!['.', '.']
        }),
    decreases end,
{
    lemma_component_start(path, end);
    let start = component_start(path, end);
    let len = end - start;
    if len == 0 || (len == 1 && path[start] == '.') {
        lemma_file_name_is_a_component(path, start - 1);
    } else {
        let name = path.subrange(start, end);
        assert(name[0] == path[start]);
        if len >= 2 {
            assert(name[1] == path[start + 1]);
        }
        assert(seq!['.'].len() == 1);
        assert(seq!['.', '.'].len() == 2);
        assert(seq!['.'][0] == '.');
        assert(seq!['.', '.'][0] == '.' && seq!['.', '.'][1] == '.');
    }
}

/// The file name of `path`, a path with `/` between its components.
pub fn file_name(path: &str) -> (name: Option<String>)
    ensures
        optional_text(name) == file_name_text(path@),
{
    let chars = to_chars(path);
    let n = chars.len();
    let mut end: usize = n;
    while end > 0
        invariant
            end <= n,
            n == chars@.len(),
            chars@ == path@,
            file_name_text(path@) == file_name_upto(path@, end as int),
        decreases end,
    {
        let mut start: usize = end;
        while start > 0 && chars[start - 1] != '/'
            invariant
                start <= end <= n,
                n == chars@.len(),
                chars@ == path@,
                component_start(path@, end as int) == component_start(path@, start as int),
            decreases start,
        {
            start = start - 1;
        }
        let len = end - start;
        if len == 0 || (len == 1 && chars[start] == '.') {
            if start == 0 {
                return None;
            }
            end = start - 1;
        } else if len == 2 && chars[start] == '.' && chars[start + 1] == '.' {
            return None;
        } else {
            return Some(String::from_str(path.substring_char(start, end)));
        }
    }
    None
}

} // verus!
