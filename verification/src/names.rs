//! Validation for user-supplied project identifiers.

use vstd::prelude::*;
use vstd::string::*;

use crate::errors::{AgentDevexError, ErrorView};
use crate::text::{eq_str, is_ascii_alphabetic, is_ascii_alphanumeric};

verus! {

/// Characters that some platform does not allow in a directory name.
pub open spec fn is_forbidden_dir_char(c: char) -> bool {
    c == '/' || c == '\\' || c == ':' || c == '*' || c == '?' || c == '"' || c == '<' || c == '>'
        || c == '|'
}

/// Characters a project name may consist of.
pub open spec fn is_name_char(c: char) -> bool {
    is_ascii_alphanumeric(c) || c == '_' || c == '-'
}

/// Why `name` is refused as a project name, or `None` when it is accepted.
/// The checks are made in this order and the first that fails decides.
pub open spec fn name_rejection(name: Seq<char>) -> Option<Seq<char>> {
    if name.len() == 0 {
        Some("name must not be empty"@)
    } else if name == "."@ || name == ".."@ {
        Some("use a dedicated directory name, not `.` or `..`"@)
    } else if exists|i: int| 0 <= i < name.len() && is_forbidden_dir_char(#[trigger] name[i]) {
        Some("name contains characters that are not valid in a directory"@)
    } else if !(is_ascii_alphabetic(name[0]) || name[0] == '_') {
        Some("name should start with a letter or underscore"@)
    } else if !(forall|i: int| 0 <= i < name.len() ==> is_name_char(#[trigger] name[i])) {
        Some("use only letters, digits, hyphens, and underscores"@)
    } else {
        None
    }
}

fn char_is_forbidden_dir_char(c: char) -> (b: bool)
    ensures
        b == is_forbidden_dir_char(c),
{
    c == '/' || c == '\\' || c == ':' || c == '*' || c == '?' || c == '"' || c == '<' || c == '>'
        || c == '|'
}

fn char_is_name_char(c: char) -> (b: bool)
    ensures
        b == is_name_char(c),
{
    ('A' <= c && c <= 'Z') || ('a' <= c && c <= 'z') || ('0' <= c && c <= '9') || c == '_' || c
        == '-'
}

fn rejected(name: &str, reason: &str) -> (r: Result<(), AgentDevexError>)
    ensures
        r matches Err(e) && e@ == (ErrorView::InvalidProjectName { name: name@, reason: reason@ }),
{
    Err(
        AgentDevexError::InvalidProjectName {
            name: String::from_str(name),
            reason: String::from_str(reason),
        },
    )
}

/// Accept directory names that work on Windows and Unix and as cargo package names.
pub fn validate_project_name(name: &str) -> (r: Result<(), AgentDevexError>)
    ensures
        match name_rejection(name@) {
            None => r is Ok,
            Some(reason) => r matches Err(e) && e@ == (ErrorView::InvalidProjectName {
                name: name@,
                reason,
            }),
        },
{
    let n = name.unicode_len();
    if n == 0 {
        return rejected(name, "name must not be empty");
    }
    if eq_str(name, ".") || eq_str(name, "..") {
        return rejected(name, "use a dedicated directory name, not `.` or `..`");
    }
    let mut i: usize = 0;
    while i < n
        invariant
            i <= n,
            n == name@.len(),
            n > 0,
            !(name@ == "."@ || name@ == ".."@),
            forall|k: int| 0 <= k < i ==> !is_forbidden_dir_char(#[trigger] name@[k]),
        decreases n - i,
    {
        if char_is_forbidden_dir_char(name.get_char(i)) {
            return rejected(name, "name contains characters that are not valid in a directory");
        }
        i = i + 1;
    }
    let first = name.get_char(0);
    if !(('A' <= first && first <= 'Z') || ('a' <= first && first <= 'z') || first == '_') {
        return rejected(name, "name should start with a letter or underscore");
    }
    let mut j: usize = 0;
    while j < n
        invariant
            j <= n,
            n == name@.len(),
            n > 0,
            !(name@ == "."@ || name@ == ".."@),
            forall|k: int| 0 <= k < n ==> !is_forbidden_dir_char(#[trigger] name@[k]),
            is_ascii_alphabetic(name@[0]) || name@[0] == '_',
            forall|k: int| 0 <= k < j ==> is_name_char(#[trigger] name@[k]),
        decreases n - j,
    {
        if !char_is_name_char(name.get_char(j)) {
            assert(!is_name_char(name@[j as int]));
            return rejected(name, "use only letters, digits, hyphens, and underscores");
        }
        j = j + 1;
    }
    Ok(())
}

/// An accepted project name is a single plain path component: it is not
/// empty, holds no separator, colon or dot, and so is neither `.` nor `..`.
pub proof fn lemma_accepted_name_is_plain_component(name: Seq<char>)
    requires
        name_rejection(name) is None,
    ensures
        name.len() > 0,
        forall|i: int|
            0 <= i < name.len() ==> {
                &&& #[trigger] name[i] != '/'
                &&& name[i] != '\\'
                &&& name[i] != ':'
                &&& name[i] != '.'
                &&& is_name_char(name[i])
            },
        is_ascii_alphabetic(name[0]) || name[0] == '_',
        name != "."@,
        name != ".."@,
{
    assert forall|i: int| 0 <= i < name.len() implies name[i] != '.' by {
        assert(is_name_char(name[i]));
    }
}

/// The names accepted are exactly the non-empty ones that start with an
/// ASCII letter or `_` and consist only of ASCII letters, digits, `_` and
/// `-`; every other name is refused with a reason.
pub proof fn lemma_accepted_names(name: Seq<char>)
    ensures
        name_rejection(name) is None <==> {
            &&& name.len() > 0
            &&& ('a' <= name[0] <= 'z' || 'A' <= name[0] <= 'Z' || name[0] == '_')
            &&& forall|i: int|
                0 <= i < name.len() ==> {
                    let c = #[trigger] name[i];
                    'a' <= c <= 'z' || 'A' <= c <= 'Z' || '0' <= c <= '9' || c == '_' || c == '-'
                }
        },
{
    reveal_strlit(".");
    reveal_strlit("..");
    if name.len() > 0 && ('a' <= name[0] <= 'z' || 'A' <= name[0] <= 'Z' || name[0] == '_') {
        assert(name != "."@ && name != ".."@) by {
            assert("."@[0] == '.');
            assert(".."@[0] == '.');
        }
    }
}

} // verus!
