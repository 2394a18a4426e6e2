//! Where the session log file goes: the `test` folder of the project when the
//! program runs from a project checkout, never a folder inside a build tree.
use vstd::prelude::*;

use crate::text::{chars_eq, chars_of};

verus! {

/// Whether a folder lies in a build tree: it is itself named `target`,
/// `debug` or `release`, or one of its ancestors (or itself) is named
/// `target`. `file_name` is the folder's own name; `ancestor_names` the names
/// of the folder and of all its ancestors.
pub open spec fn spec_inside_target(file_name: Option<Seq<char>>, ancestor_names: Seq<Seq<char>>) -> bool {
    let name = match file_name {
        Some(n) => n,
        None => Seq::empty(),
    };
    name == "target"@ || name == "debug"@ || name == "release"@ || ancestor_names.contains("target"@)
}

pub open spec fn names_view(v: Seq<String>) -> Seq<Seq<char>> {
    v.map_values(|s: String| s@)
}

/// Whether a folder lies in a build tree.
pub fn is_inside_target(file_name: Option<String>, ancestor_names: &Vec<String>) -> (r: bool)
    ensures
        r == spec_inside_target(
            match file_name {
                Some(n) => Some(n@),
                None => None,
            },
            names_view(ancestor_names@),
        ),
{
    let name = match file_name {
        Some(n) => chars_of(n.as_str()),
        None => Vec::new(),
    };
    if chars_eq(&name, &chars_of("target")) || chars_eq(&name, &chars_of("debug")) || chars_eq(
        &name,
        &chars_of("release"),
    ) {
        return true;
    }
    let target = chars_of("target");
    let ghost names = names_view(ancestor_names@);
    let mut i: usize = 0;
    while i < ancestor_names.len()
        invariant
            i <= ancestor_names.len(),
            names == names_view(ancestor_names@),
            target@ == "target"@,
            forall|k: int| 0 <= k < i ==> names[k] != "target"@,
        decreases ancestor_names.len() - i,
    {
        if chars_eq(&chars_of(ancestor_names[i].as_str()), &target) {
            proof {
                assert(names[i as int] == "target"@);
            }
            return true;
        }
        i += 1;
    }
    false
}

/// What the search for the log folder knows of one folder on the way up from
/// the executable: whether it holds `src-tauri`, whether it holds `test`, and
/// whether it lies in a build tree.
pub open spec fn is_project_root(f: (bool, bool, bool)) -> bool {
    f.0
}

pub open spec fn has_usable_test_dir(f: (bool, bool, bool)) -> bool {
    f.1 && !f.2
}

/// The folder whose `test/last_logs.txt` is the log, among the folders from
/// the executable's own up to the root (nearest first): the first project
/// root (a folder holding `src-tauri`) if there is one; otherwise the first
/// folder holding `test` outside a build tree; otherwise none, and the log
/// goes next to the executable.
pub open spec fn spec_log_dir_index(folders: Seq<(bool, bool, bool)>) -> Option<int> {
    if exists|i: int| 0 <= i < folders.len() && is_project_root(#[trigger] folders[i]) {
        Some(
            choose|i: int|
                0 <= i < folders.len() && is_project_root(#[trigger] folders[i]) && forall|j: int|
                    0 <= j < i ==> !is_project_root(#[trigger] folders[j]),
        )
    } else if exists|i: int| 0 <= i < folders.len() && has_usable_test_dir(#[trigger] folders[i]) {
        Some(
            choose|i: int|
                0 <= i < folders.len() && has_usable_test_dir(#[trigger] folders[i]) && forall|j: int|
                    0 <= j < i ==> !has_usable_test_dir(#[trigger] folders[j]),
        )
    } else {
        None
    }
}

/// Picks the log folder among the folders from the executable's up to the
/// root: a project root anywhere on the way beats a `test` folder nearer to
/// the executable.
pub fn log_dir_index(folders: &Vec<(bool, bool, bool)>) -> (r: Option<usize>)
    ensures
        match r {
            Some(k) => {
                &&& k < folders@.len()
                &&& (is_project_root(folders@[k as int]) && forall|j: int|
                    0 <= j < k ==> !is_project_root(#[trigger] folders@[j]))
                    || ((forall|j: int|
                    0 <= j < folders@.len() ==> !is_project_root(#[trigger] folders@[j]))
                    && has_usable_test_dir(folders@[k as int]) && forall|j: int|
                    0 <= j < k ==> !has_usable_test_dir(#[trigger] folders@[j]))
            },
            None => forall|j: int|
                0 <= j < folders@.len() ==> !is_project_root(#[trigger] folders@[j])
                    && !has_usable_test_dir(folders@[j]),
        },
        r matches Some(k) ==> spec_log_dir_index(folders@) == Some(k as int),
        r is None ==> spec_log_dir_index(folders@) is None,
{
    let mut i: usize = 0;
    while i < folders.len()
        invariant
            i <= folders.len(),
            forall|j: int| 0 <= j < i ==> !is_project_root(#[trigger] folders@[j]),
        decreases folders.len() - i,
    {
        if folders[i].0 {
            proof {
                assert(is_project_root(folders@[i as int]));
                let c = choose|c: int|
                    0 <= c < folders@.len() && is_project_root(#[trigger] folders@[c]) && forall|j: int|
                        0 <= j < c ==> !is_project_root(#[trigger] folders@[j]);
                assert(c == i) by {
                    if c < i {
                        assert(!is_project_root(folders@[c]));
                    } else if c > i {
                        assert(!is_project_root(folders@[i as int]));
                    }
                }
            }
            return Some(i);
        }
        i += 1;
    }
    let mut k: usize = 0;
    while k < folders.len()
        invariant
            k <= folders.len(),
            forall|j: int| 0 <= j < folders@.len() ==> !is_project_root(#[trigger] folders@[j]),
            forall|j: int| 0 <= j < k ==> !has_usable_test_dir(#[trigger] folders@[j]),
        decreases folders.len() - k,
    {
        if folders[k].1 && !folders[k].2 {
            proof {
                assert(has_usable_test_dir(folders@[k as int]));
                let c = choose|c: int|
                    0 <= c < folders@.len() && has_usable_test_dir(#[trigger] folders@[c]) && forall|j: int|
                        0 <= j < c ==> !has_usable_test_dir(#[trigger] folders@[j]);
                assert(c == k) by {
                    if c < k {
                        assert(!has_usable_test_dir(folders@[c]));
                    } else if c > k {
                        assert(!has_usable_test_dir(folders@[k as int]));
                    }
                }
            }
            return Some(k);
        }
        k += 1;
    }
    None
}

} // verus!
