//! Small helpers on string slices, stated over their character sequences.

use vstd::prelude::*;
use vstd::std_specs::iter::IteratorSpec;
use vstd::string::StrSliceExecFns;
use vstd::string::StringExecFns;

verus! {

/// Tells whether `text` begins with `prefix`, in one pass over the prefix.
pub fn starts_with(text: &str, prefix: &str) -> (found: bool)
    ensures
        found == prefix@.is_prefix_of(text@),
{
    let mut text_chars = text.chars();
    let mut prefix_chars = prefix.chars();
    let ghost mut matched: int = 0;
    loop
        invariant
            0 <= matched <= text@.len(),
            matched <= prefix@.len(),
            text_chars.remaining() == text@.skip(matched),
            prefix_chars.remaining() == prefix@.skip(matched),
            forall|i: int| 0 <= i < matched ==> text@[i] == prefix@[i],
        decreases prefix@.len() - matched,
    {
        match prefix_chars.next() {
            None => {
                assert(text@.subrange(0, prefix@.len() as int) =~= prefix@);
                return true;
            },
            Some(wanted) => {
                assert(wanted == prefix@[matched]);
                match text_chars.next() {
                    None => {
                        return false;
                    },
                    Some(given) => {
                        assert(given == text@[matched]);
                        if given != wanted {
                            proof {
                                if prefix@.len() <= text@.len() {
                                    assert(text@.subrange(0, prefix@.len() as int)[matched]
                                        == given);
                                }
                            }
                            return false;
                        }
                    },
                }
            },
        }
        proof {
            assert(text@.skip(matched).drop_first() =~= text@.skip(matched + 1));
            assert(prefix@.skip(matched).drop_first() =~= prefix@.skip(matched + 1));
            matched = matched + 1;
        }
    }
}

/// Tells whether two string slices hold the same characters, in one pass.
pub fn same_text(left: &str, right: &str) -> (same: bool)
    ensures
        same == (left@ == right@),
{
    let mut left_chars = left.chars();
    let mut right_chars = right.chars();
    let ghost mut matched: int = 0;
    loop
        invariant
            0 <= matched <= left@.len(),
            matched <= right@.len(),
            left_chars.remaining() == left@.skip(matched),
            right_chars.remaining() == right@.skip(matched),
            forall|i: int| 0 <= i < matched ==> left@[i] == right@[i],
        decreases left@.len() - matched,
    {
        match left_chars.next() {
            None => {
                let done: bool = right_chars.next().is_none();
                assert(done ==> left@ =~= right@);
                return done;
            },
            Some(given) => {
                assert(given == left@[matched]);
                match right_chars.next() {
                    None => {
                        return false;
                    },
                    Some(wanted) => {
                        assert(wanted == right@[matched]);
                        if given != wanted {
                            return false;
                        }
                    },
                }
            },
        }
        proof {
            assert(left@.skip(matched).drop_first() =~= left@.skip(matched + 1));
            assert(right@.skip(matched).drop_first() =~= right@.skip(matched + 1));
            matched = matched + 1;
        }
    }
}

/// What is left of `text` without its first `count` characters: nothing
/// where it has no more than that.
pub open spec fn spec_after_prefix(text: Seq<char>, count: nat) -> Seq<char> {
    if count <= text.len() {
        text.skip(count as int)
    } else {
        Seq::empty()
    }
}

/// Copies what follows the first `count` characters of `text`.
pub fn after_prefix(text: &str, count: usize) -> (rest: String)
    ensures
        rest@ == spec_after_prefix(text@, count as nat),
{
    let total: usize = text.unicode_len();
    if count <= total {
        text.substring_char(count, total).to_owned()
    } else {
        String::new()
    }
}

/// Joins two string slices into a new string.
pub fn join_text(head: &str, tail: &str) -> (joined: String)
    ensures
        joined@ == head@ + tail@,
{
    head.to_owned().concat(tail)
}

} // verus!
