//! Syntactic rules for project names.

use vstd::prelude::*;
use vstd::string::StrSliceExecFns;

verus! {

/// Why a candidate project name was rejected.
#[derive(Debug, Clone, Copy, PartialEq, Eq, Structural)]
pub enum ValidationError {
    /// The name has no characters.
    Empty,
    /// The name begins with `-` or `_`.
    LeadingDashOrUnderscore,
    /// Some character is not an ASCII letter, an ASCII digit, `-` or `_`.
    InvalidCharacter,
}

/// The characters a project name may be made of: ASCII letters, ASCII digits, `-` and `_`.
pub open spec fn is_name_char(c: char) -> bool {
    ||| 'a' <= c <= 'z'
    ||| 'A' <= c <= 'Z'
    ||| '0' <= c <= '9'
    ||| c == '-'
    ||| c == '_'
}

/// Every character of `name` may appear in a project name.
pub open spec fn only_name_chars(name: Seq<char>) -> bool {
    forall|i: int| 0 <= i < name.len() ==> is_name_char(#[trigger] name[i])
}

/// `name` begins with a character that downstream tools read as the start of an option
/// (`-`) or of a hidden item (`_`).
pub open spec fn starts_like_flag(name: Seq<char>) -> bool {
    name.len() > 0 && (name[0] == '-' || name[0] == '_')
}

/// A usable project name: one or more name characters, the first of them neither `-` nor `_`.
pub open spec fn is_valid_name(name: Seq<char>) -> bool {
    &&& name.len() > 0
    &&& !starts_like_flag(name)
    &&& only_name_chars(name)
}

/// The result of checking `name` against the rules in order; the first rule that fails
/// decides the error.
pub open spec fn name_verdict(name: Seq<char>) -> Result<(), ValidationError> {
    if name.len() == 0 {
        Err(ValidationError::Empty)
    } else if starts_like_flag(name) {
        Err(ValidationError::LeadingDashOrUnderscore)
    } else if !only_name_chars(name) {
        Err(ValidationError::InvalidCharacter)
    } else {
        Ok(())
    }
}

/// The message shown for each rejection.
pub open spec fn validation_message(error: ValidationError) -> Seq<char> {
    match error {
        ValidationError::Empty => "Project name cannot be empty"@,
        ValidationError::LeadingDashOrUnderscore =>
            "Project name cannot start with '-' or '_' (these look like CLI flags)"@,
        ValidationError::InvalidCharacter =>
            "Project name must contain only alphanumeric characters, hyphens, and underscores"@,
    }
}

impl ValidationError {
    /// The message naming the rule that the name broke.
    pub fn message(&self) -> (text: String)
        ensures
            text@ == validation_message(*self),
    {
        match self {
            ValidationError::Empty => "Project name cannot be empty".to_owned(),
            ValidationError::LeadingDashOrUnderscore =>
                "Project name cannot start with '-' or '_' (these look like CLI flags)".to_owned(),
            ValidationError::InvalidCharacter =>
                "Project name must contain only alphanumeric characters, hyphens, and underscores".to_owned(),
        }
    }
}

fn name_char(c: char) -> (ok: bool)
    ensures
        ok == is_name_char(c),
{
    ('a' <= c && c <= 'z') || ('A' <= c && c <= 'Z') || ('0' <= c && c <= '9') || c == '-' || c
        == '_'
}

fn has_only_name_chars(name: &str) -> (ok: bool)
    ensures
        ok == only_name_chars(name@),
{
    broadcast use vstd::string::group_string_axioms;

    let mut ok = true;
    for c in it: name.chars()
        invariant
            it.seq() == name@,
            ok == only_name_chars(name@.take(it.index())),
    {
        let ghost seen = name@.take(it.index());
        let ghost next = name@.take(it.index() + 1);
        assert(next.drop_last() =~= seen);
        assert(next.last() == c);
        assert(only_name_chars(next) == (only_name_chars(seen) && is_name_char(c))) by {
            if only_name_chars(seen) && is_name_char(c) {
                assert forall|i: int| 0 <= i < next.len() implies is_name_char(
                    #[trigger] next[i],
                ) by {
                    if i < seen.len() {
                        assert(next[i] == seen[i]);
                    }
                }
            } else if !is_name_char(c) {
                assert(!is_name_char(next[next.len() - 1]));
            } else {
                let bad = choose|i: int| 0 <= i < seen.len() && !is_name_char(#[trigger] seen[i]);
                assert(next[bad] == seen[bad]);
            }
        }
        if !name_char(c) {
            ok = false;
        }
    }
    assert(name@.take(name@.len() as int) =~= name@);
    ok
}

/// Checks a candidate project name. The rules are tried in order: the name is not empty,
/// it does not begin with `-` or `_`, and each of its characters is an ASCII letter, an
/// ASCII digit, `-` or `_`. There is no upper bound on the length.
pub fn validate_project_name(name: &str) -> (verdict: Result<(), ValidationError>)
    ensures
        verdict == name_verdict(name@),
        verdict is Ok <==> is_valid_name(name@),
{
    if name.is_empty() {
        return Err(ValidationError::Empty);
    }
    let first = name.get_char(0);
    if first == '-' || first == '_' {
        return Err(ValidationError::LeadingDashOrUnderscore);
    }
    if !has_only_name_chars(name) {
        return Err(ValidationError::InvalidCharacter);
    }
    Ok(())
}

} // verus!
