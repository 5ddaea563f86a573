use vstd::prelude::*;

verus! {

/// The ternary level that two comparison outcomes select: `+1` when the value
/// lies above the upper bound, otherwise `-1` when it lies below the lower
/// bound, otherwise `0`.
pub open spec fn level_of(above: bool, below: bool) -> int {
    if above {
        1
    } else if below {
        -1
    } else {
        0
    }
}

/// Selects the ternary level `+1`, `-1` or `0` of a value from its
/// comparisons with the bounds: `above` is checked first, so a value that
/// meets both comparisons gets `+1`.
pub fn ternary_level(above: bool, below: bool) -> (t: i8)
    ensures
        t == level_of(above, below),
        -1 <= t <= 1,
        t == 1 <==> above,
        t == -1 <==> !above && below,
        t == 0 <==> !above && !below,
{
    if above {
        1
    } else if below {
        -1
    } else {
        0
    }
}

/// Number of `true` entries of a sequence.
pub open spec fn marked_count(marks: Seq<bool>) -> nat
    decreases marks.len(),
{
    if marks.len() == 0 {
        0
    } else {
        marked_count(marks.drop_last()) + if marks.last() { 1nat } else { 0nat }
    }
}

/// The count of an empty sequence is 0, and appending one entry adds 1 when
/// the entry is `true` and 0 when it is `false`, with no bound on the count.
pub proof fn law_marked_count_empty_and_push(marks: Seq<bool>, mark: bool)
    ensures
        marked_count(Seq::<bool>::empty()) == 0,
        mark ==> marked_count(marks.push(mark)) == marked_count(marks) + 1,
        !mark ==> marked_count(marks.push(mark)) == marked_count(marks),
{
    assert(marks.push(mark).drop_last() =~= marks);
}

/// The count is the number of `true` entries: the length of the subsequence
/// of `true` entries, and never more than the length of the sequence.
pub proof fn law_marked_count_is_true_entries(marks: Seq<bool>)
    ensures
        marked_count(marks) == marks.filter(|b: bool| b).len(),
        marked_count(marks) <= marks.len(),
    decreases marks.len(),
{
    reveal(Seq::filter);
    if marks.len() > 0 {
        law_marked_count_is_true_entries(marks.drop_last());
    }
}

/// Counts the zero entries of a ternarized vector, given for each entry
/// whether it equals zero.
pub fn count_zeros(is_zero: &[bool]) -> (n: usize)
    ensures
        n == marked_count(is_zero@),
        n == is_zero@.filter(|b: bool| b).len(),
        n <= is_zero@.len(),
{
    let mut n: usize = 0;
    let mut i: usize = 0;
    while i < is_zero.len()
        invariant
            0 <= i <= is_zero@.len(),
            n == marked_count(is_zero@.take(i as int)),
            n <= i,
        decreases is_zero@.len() - i,
    {
        proof {
            assert(is_zero@.take(i + 1).drop_last() =~= is_zero@.take(i as int));
        }
        if is_zero[i] {
            n = n + 1;
        }
        i = i + 1;
    }
    proof {
        assert(is_zero@.take(i as int) =~= is_zero@);
        law_marked_count_is_true_entries(is_zero@);
    }
    n
}

} // verus!
