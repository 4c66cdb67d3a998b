//! Validation rules for the free-text prompts.
//!
//! The backtick character is reserved for downstream formatting of the
//! commit text, so no user-supplied fragment may contain one. Title and
//! issue are mandatory parts of the final commit message, so they must
//! additionally be non-empty.

use vstd::prelude::*;

verus! {

/// A scope is acceptable when it contains no backtick; it may be empty.
pub open spec fn scope_valid(s: Seq<char>) -> bool {
    !s.contains('`')
}

/// A title is acceptable when it is non-empty and contains no backtick.
pub open spec fn title_valid(s: Seq<char>) -> bool {
    s.len() > 0 && !s.contains('`')
}

/// A message body is acceptable when it contains no backtick; it may be empty.
pub open spec fn message_valid(s: Seq<char>) -> bool {
    !s.contains('`')
}

/// An issue reference is acceptable when it is non-empty and contains no backtick.
pub open spec fn issue_valid(s: Seq<char>) -> bool {
    s.len() > 0 && !s.contains('`')
}

/// Whether the string contains a backtick character.
pub fn contains_backtick(s: &str) -> (r: bool)
    ensures
        r == s@.contains('`'),
{
    let n = s.unicode_len();
    let mut i: usize = 0;
    while i < n
        invariant
            n == s@.len(),
            i <= n,
            forall|j: int| 0 <= j < i ==> s@[j] != '`',
        decreases n - i,
    {
        if s.get_char(i) == '`' {
            assert(s@.contains('`'));
            return true;
        }
        i += 1;
    }
    assert(!s@.contains('`')) by {
        assert(forall|j: int| 0 <= j < s@.len() ==> s@[j] != '`');
    }
    false
}

/// Accepts a candidate scope exactly when it has no backtick.
pub fn validate_scope(s: &str) -> (r: bool)
    ensures
        r == scope_valid(s@),
{
    !contains_backtick(s)
}

/// Accepts a candidate title exactly when it is non-empty and has no backtick.
pub fn validate_title(s: &str) -> (r: bool)
    ensures
        r == title_valid(s@),
{
    !s.is_empty() && !contains_backtick(s)
}

/// Accepts a candidate message body exactly when it has no backtick.
pub fn validate_message(s: &str) -> (r: bool)
    ensures
        r == message_valid(s@),
{
    !contains_backtick(s)
}

/// Accepts a candidate issue reference exactly when it is non-empty and has
/// no backtick.
pub fn validate_issue(s: &str) -> (r: bool)
    ensures
        r == issue_valid(s@),
{
    !s.is_empty() && !contains_backtick(s)
}

} // verus!
