//! Looking for one text in another.

use vstd::prelude::*;
use vstd::string::StrSliceExecFns;

verus! {

/// Whether `mark` stands in `text` at the index `at`.
pub open spec fn occurs_at(text: Seq<char>, mark: Seq<char>, at: int) -> bool {
    &&& 0 <= at
    &&& at + mark.len() <= text.len()
    &&& text.subrange(at, at + mark.len()) == mark
}

/// Whether `at` is where `mark` stands in `text` for the last time.
pub open spec fn occurs_last_at(text: Seq<char>, mark: Seq<char>, at: int) -> bool {
    &&& occurs_at(text, mark, at)
    &&& forall|later: int| at < later ==> !occurs_at(text, mark, later)
}

/// Whether `text[at..]` starts with `mark`.
pub(crate) fn starts_at(text: &str, mark: &str, at: usize) -> (found: bool)
    requires
        at + mark@.len() <= text@.len() <= usize::MAX,
    ensures
        found == occurs_at(text@, mark@, at as int),
{
    let width = mark.unicode_len();
    let mut same: usize = 0;
    while same < width
        invariant
            width == mark@.len(),
            at + width <= text@.len() <= usize::MAX,
            same <= width,
            forall|k: int| 0 <= k < same ==> text@[at + k] == mark@[k],
        decreases width - same,
    {
        if text.get_char(at + same) != mark.get_char(same) {
            return false;
        }
        same = same + 1;
    }
    assert(text@.subrange(at as int, at + width) =~= mark@);
    true
}

/// Whether `text` starts with `prefix`.
pub(crate) fn starts_with(text: &str, prefix: &str) -> (found: bool)
    ensures
        found == prefix@.is_prefix_of(text@),
{
    if prefix.unicode_len() > text.unicode_len() {
        return false;
    }
    starts_at(text, prefix, 0)
}

/// What follows the last `mark` in `text`; `None` where `text` holds no `mark`.
pub(crate) fn after_last<'a>(text: &'a str, mark: &str) -> (rest: Option<&'a str>)
    ensures
        match rest {
            Some(rest) => exists|at: int|
                occurs_last_at(text@, mark@, at) && rest@ == text@.skip(at + mark@.len()),
            None => forall|at: int| !occurs_at(text@, mark@, at),
        },
{
    let length = text.unicode_len();
    let width = mark.unicode_len();
    if width > length {
        return None;
    }
    let mut at: usize = length - width;
    loop
        invariant
            length == text@.len(),
            width == mark@.len(),
            at + width <= length,
            forall|later: int| at < later ==> !occurs_at(text@, mark@, later),
        decreases at,
    {
        if starts_at(text, mark, at) {
            let rest = text.substring_char(at + width, length);
            proof {
                assert(occurs_last_at(text@, mark@, at as int));
            }
            return Some(rest);
        }
        if at == 0 {
            return None;
        }
        at = at - 1;
    }
}

} // verus!
