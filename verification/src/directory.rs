//! Deciding whether an existing target directory may be reused.

use crate::text::{eq_ignore_ascii_case, folded, texts};
use vstd::prelude::*;

verus! {

/// What a target directory holds before anything is written to it.
#[derive(Debug, Clone, Copy, PartialEq, Eq, Structural)]
pub enum DirectoryState {
    /// Nothing exists at the path.
    Absent,
    /// The directory exists and has no entries.
    EmptyExisting,
    /// The directory exists and every entry is a recognised piece of repository scaffolding.
    ScaffoldableExisting,
    /// The directory exists and holds at least one entry that is not repository scaffolding.
    Occupied,
}

/// The names of the repository scaffolding that may already be present in a target
/// directory: version-control data, editor and CI settings, and the usual top-level
/// documents. Entries are compared with these names without regard to ASCII letter case.
pub open spec fn allow_list() -> Seq<Seq<char>> {
    seq![
        ".git"@,
        ".gitignore"@,
        ".gitattributes"@,
        ".github"@,
        ".editorconfig"@,
        ".vscode"@,
        ".otto.yml"@,
        "README"@,
        "README.md"@,
        "README.txt"@,
        "LICENSE"@,
        "LICENSE.md"@,
        "LICENSE.txt"@,
        "LICENSE-MIT"@,
        "LICENSE-APACHE"@,
        "CODEOWNERS"@,
        "CONTRIBUTING"@,
        "CONTRIBUTING.md"@,
        "CODE_OF_CONDUCT"@,
        "CODE_OF_CONDUCT.md"@,
        "SECURITY"@,
        "SECURITY.md"@,
    ]
}

/// `name` is on the allow-list, letter case aside.
pub open spec fn is_allowed(name: Seq<char>) -> bool {
    exists|i: int| 0 <= i < allow_list().len() && folded(name) == folded(#[trigger] allow_list()[i])
}

/// Every entry is on the allow-list.
pub open spec fn all_allowed(children: Seq<Seq<char>>) -> bool {
    forall|i: int| 0 <= i < children.len() ==> is_allowed(#[trigger] children[i])
}

/// The state of a directory given whether it exists and what its direct entries are called.
pub open spec fn directory_state(exists: bool, children: Seq<Seq<char>>) -> DirectoryState {
    if !exists {
        DirectoryState::Absent
    } else if children.len() == 0 {
        DirectoryState::EmptyExisting
    } else if all_allowed(children) {
        DirectoryState::ScaffoldableExisting
    } else {
        DirectoryState::Occupied
    }
}

fn allowed_names() -> (names: Vec<&'static str>)
    ensures
        names@.len() == allow_list().len(),
        forall|i: int| 0 <= i < names@.len() ==> (#[trigger] names@[i])@ == allow_list()[i],
{
    let names = vec![
        ".git",
        ".gitignore",
        ".gitattributes",
        ".github",
        ".editorconfig",
        ".vscode",
        ".otto.yml",
        "README",
        "README.md",
        "README.txt",
        "LICENSE",
        "LICENSE.md",
        "LICENSE.txt",
        "LICENSE-MIT",
        "LICENSE-APACHE",
        "CODEOWNERS",
        "CONTRIBUTING",
        "CONTRIBUTING.md",
        "CODE_OF_CONDUCT",
        "CODE_OF_CONDUCT.md",
        "SECURITY",
        "SECURITY.md",
    ];
    names
}

/// Whether an entry called `name` is a recognised piece of repository scaffolding.
pub fn is_allowed_name(name: &str) -> (allowed: bool)
    ensures
        allowed == is_allowed(name@),
{
    let names = allowed_names();
    let mut i: usize = 0;
    while i < names.len()
        invariant
            i <= names.len(),
            names@.len() == allow_list().len(),
            forall|k: int| 0 <= k < names@.len() ==> (#[trigger] names@[k])@ == allow_list()[k],
            forall|k: int| 0 <= k < i ==> folded(name@) != folded(#[trigger] allow_list()[k]),
        decreases names.len() - i,
    {
        if eq_ignore_ascii_case(name, names[i]) {
            assert(folded(name@) == folded(allow_list()[i as int]));
            return true;
        }
        i += 1;
    }
    false
}

/// The position of the first entry that is not on the allow-list, if there is one.
pub fn first_unrecognized(children: &Vec<String>) -> (found: Option<usize>)
    ensures
        found matches Some(i) ==> {
            &&& i < children@.len()
            &&& !is_allowed(children@[i as int]@)
            &&& forall|k: int| 0 <= k < i ==> is_allowed(#[trigger] children@[k]@)
        },
        found is None <==> all_allowed(texts(children@)),
{
    let mut i: usize = 0;
    while i < children.len()
        invariant
            i <= children.len(),
            forall|k: int| 0 <= k < i ==> is_allowed(#[trigger] children@[k]@),
        decreases children.len() - i,
    {
        if !is_allowed_name(children[i].as_str()) {
            assert(texts(children@)[i as int] == children@[i as int]@);
            return Some(i);
        }
        i += 1;
    }
    assert forall|k: int| 0 <= k < texts(children@).len() implies is_allowed(
        #[trigger] texts(children@)[k],
    ) by {
        assert(is_allowed(children@[k]@));
    }
    None
}

/// Whether a directory with these entries can take a new project: true exactly when every
/// entry is on the allow-list (so also when there are none).
pub fn is_scaffoldable_directory(children: &Vec<String>) -> (ok: bool)
    ensures
        ok == all_allowed(texts(children@)),
{
    first_unrecognized(children).is_none()
}

/// Classifies a target directory from what was found at its path: whether anything exists
/// there, and the names of its direct entries.
pub fn classify(exists: bool, children: &Vec<String>) -> (state: DirectoryState)
    ensures
        state == directory_state(exists, texts(children@)),
{
    if !exists {
        DirectoryState::Absent
    } else if children.len() == 0 {
        DirectoryState::EmptyExisting
    } else if is_scaffoldable_directory(children) {
        DirectoryState::ScaffoldableExisting
    } else {
        DirectoryState::Occupied
    }
}

} // verus!
