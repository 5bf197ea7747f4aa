//! Positions of the first and the last set flag of a sequence.
use vstd::prelude::*;

verus! {

/// `i` is the first index at which `flags` holds `true`.
pub open spec fn is_first_true(flags: Seq<bool>, i: int) -> bool {
    &&& 0 <= i < flags.len()
    &&& flags[i]
    &&& forall|j: int| 0 <= j < i ==> !#[trigger] flags[j]
}

/// `i` is the last index at which `flags` holds `true`.
pub open spec fn is_last_true(flags: Seq<bool>, i: int) -> bool {
    &&& 0 <= i < flags.len()
    &&& flags[i]
    &&& forall|j: int| i < j < flags.len() ==> !#[trigger] flags[j]
}

/// The first index at which `flags` holds `true`, if any.
pub open spec fn first_true(flags: Seq<bool>) -> Option<int> {
    if exists|i: int| is_first_true(flags, i) {
        Some(choose|i: int| is_first_true(flags, i))
    } else {
        None
    }
}

/// The last index at which `flags` holds `true`, if any.
pub open spec fn last_true(flags: Seq<bool>) -> Option<int> {
    if exists|i: int| is_last_true(flags, i) {
        Some(choose|i: int| is_last_true(flags, i))
    } else {
        None
    }
}

/// There is at most one first set flag, and there is one when any flag is set.
pub proof fn lemma_first_true(flags: Seq<bool>, i: int)
    ensures
        is_first_true(flags, i) ==> first_true(flags) == Some(i),
        (forall|j: int| 0 <= j < flags.len() ==> !#[trigger] flags[j]) ==> first_true(flags) is None,
{
    if is_first_true(flags, i) {
        let k = choose|k: int| is_first_true(flags, k);
        assert(is_first_true(flags, k));
        if k < i {
            assert(!flags[k]);
        }
        if i < k {
            assert(!flags[i]);
        }
    }
}

/// There is at most one last set flag, and there is one when any flag is set.
pub proof fn lemma_last_true(flags: Seq<bool>, i: int)
    ensures
        is_last_true(flags, i) ==> last_true(flags) == Some(i),
        (forall|j: int| 0 <= j < flags.len() ==> !#[trigger] flags[j]) ==> last_true(flags) is None,
{
    if is_last_true(flags, i) {
        let k = choose|k: int| is_last_true(flags, k);
        assert(is_last_true(flags, k));
        if k < i {
            assert(!flags[i]);
        }
        if i < k {
            assert(!flags[k]);
        }
    }
}

/// Finds the first set flag.
pub fn first_set(flags: &Vec<bool>) -> (found: Option<usize>)
    ensures
        found matches Some(i) ==> is_first_true(flags@, i as int),
        found is None <==> first_true(flags@) is None,
        found matches Some(i) ==> first_true(flags@) == Some(i as int),
{
    let mut i: usize = 0;
    while i < flags.len()
        invariant
            i <= flags.len(),
            forall|j: int| 0 <= j < i ==> !#[trigger] flags@[j],
        decreases flags.len() - i,
    {
        if flags[i] {
            proof {
                lemma_first_true(flags@, i as int);
            }
            return Some(i);
        }
        i = i + 1;
    }
    proof {
        lemma_first_true(flags@, 0);
    }
    None
}

} // verus!
