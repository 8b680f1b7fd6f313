//! The order of texts.

use vstd::prelude::*;

verus! {

/// Whether `left` comes before `right` in the order of the dictionary, with
/// the characters in the order of their code points.
pub open spec fn precedes(left: Seq<char>, right: Seq<char>) -> bool
    decreases left.len(),
{
    if right.len() == 0 {
        false
    } else if left.len() == 0 {
        true
    } else if left[0] != right[0] {
        left[0] < right[0]
    } else {
        precedes(left.drop_first(), right.drop_first())
    }
}

/// Of two different texts one comes before the other, and only one does.
pub proof fn precedes_is_total(left: Seq<char>, right: Seq<char>)
    ensures
        left == right ==> !precedes(left, right),
        left != right ==> precedes(left, right) != precedes(right, left),
    decreases left.len(),
{
    if left.len() > 0 && right.len() > 0 && left[0] == right[0] {
        precedes_is_total(left.drop_first(), right.drop_first());
        if left.drop_first() == right.drop_first() {
            assert(left =~= seq![left[0]] + left.drop_first());
            assert(right =~= seq![right[0]] + right.drop_first());
        }
    } else if left.len() == 0 && right.len() == 0 {
        assert(left =~= right);
    }
}

/// A text that comes before a second one comes before all that the second one
/// comes before.
pub proof fn precedes_is_transitive(first: Seq<char>, second: Seq<char>, third: Seq<char>)
    requires
        precedes(first, second),
        precedes(second, third),
    ensures
        precedes(first, third),
    decreases first.len(),
{
    if first.len() > 0 && first[0] == second[0] && second[0] == third[0] {
        precedes_is_transitive(first.drop_first(), second.drop_first(), third.drop_first());
    }
}

/// Two texts that are the same up to some place, and have different characters
/// there, are in the order of the code points of these characters.
pub proof fn first_difference_decides(left: Seq<char>, right: Seq<char>, k: int)
    requires
        0 <= k < left.len(),
        k < right.len(),
        left.subrange(0, k) == right.subrange(0, k),
        left[k] != right[k],
    ensures
        precedes(left, right) <==> (left[k] as int) < (right[k] as int),
    decreases k,
{
    if k > 0 {
        assert(left[0] == left.subrange(0, k)[0]);
        assert(right[0] == right.subrange(0, k)[0]);
        assert(left.drop_first().subrange(0, k - 1) =~= left.subrange(0, k).drop_first());
        assert(right.drop_first().subrange(0, k - 1) =~= right.subrange(0, k).drop_first());
        assert(left.drop_first()[k - 1] == left[k]);
        assert(right.drop_first()[k - 1] == right[k]);
        first_difference_decides(left.drop_first(), right.drop_first(), k - 1);
    }
}

/// A text comes before every longer one that begins with it, and not the other
/// way round.
pub proof fn beginning_comes_first(left: Seq<char>, right: Seq<char>)
    requires
        left.len() <= right.len(),
        right.subrange(0, left.len() as int) == left,
    ensures
        precedes(left, right) <==> left.len() < right.len(),
        !precedes(right, left),
    decreases left.len(),
{
    if left.len() > 0 {
        assert(right.subrange(0, left.len() as int)[0] == left[0]);
        assert(right.drop_first().subrange(0, left.len() - 1) =~= left.drop_first()) by {
            assert(right.drop_first().subrange(0, left.len() - 1) =~= right.subrange(
                0,
                left.len() as int,
            ).drop_first());
        }
        beginning_comes_first(left.drop_first(), right.drop_first());
    }
}

/// Compares two texts by [`precedes`].
pub(crate) fn is_before(left: &str, right: &str) -> (result: bool)
    ensures
        result == precedes(left@, right@),
{
    let mut left_chars = left.chars();
    let mut right_chars = right.chars();
    loop
        invariant
            precedes(left@, right@) == precedes(
                vstd::std_specs::iter::IteratorSpec::remaining(&left_chars),
                vstd::std_specs::iter::IteratorSpec::remaining(&right_chars),
            ),
            vstd::std_specs::iter::IteratorSpec::decrease(&left_chars) is Some,
        decreases vstd::std_specs::iter::IteratorSpec::decrease(&left_chars)->0,
    {
        match right_chars.next() {
            None => {
                return false;
            },
            Some(right_char) => match left_chars.next() {
                None => {
                    return true;
                },
                Some(left_char) => {
                    if left_char != right_char {
                        return left_char < right_char;
                    }
                },
            },
        }
    }
}

} // verus!
