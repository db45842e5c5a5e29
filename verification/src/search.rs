use vstd::prelude::*;

verus! {

/// The first position at or after `i` where `flags` holds, if any.
pub open spec fn first_match_from(flags: Seq<bool>, i: int) -> Option<int>
    decreases flags.len() - i,
{
    if i < 0 || i >= flags.len() {
        None
    } else if flags[i] {
        Some(i)
    } else {
        first_match_from(flags, i + 1)
    }
}

/// The first position where `flags` holds, if any.
pub open spec fn first_match(flags: Seq<bool>) -> Option<int> {
    first_match_from(flags, 0)
}

proof fn lemma_first_match_from(flags: Seq<bool>, i: int)
    requires
        0 <= i <= flags.len(),
    ensures
        match first_match_from(flags, i) {
            Some(k) => i <= k < flags.len() && flags[k] && forall|m: int|
                i <= m < k ==> !#[trigger] flags[m],
            None => forall|m: int| i <= m < flags.len() ==> !#[trigger] flags[m],
        },
    decreases flags.len() - i,
{
    if i < flags.len() && !flags[i] {
        lemma_first_match_from(flags, i + 1);
    }
}

/// The first match is a match with no match before it; without a first
/// match there is no match at all.
pub proof fn lemma_first_match(flags: Seq<bool>)
    ensures
        match first_match(flags) {
            Some(k) => 0 <= k < flags.len() && flags[k] && forall|m: int|
                0 <= m < k ==> !#[trigger] flags[m],
            None => forall|m: int| 0 <= m < flags.len() ==> !#[trigger] flags[m],
        },
{
    lemma_first_match_from(flags, 0);
}

/// A match with no match before it is the first match.
pub proof fn lemma_first_match_at(flags: Seq<bool>, i: int)
    requires
        0 <= i < flags.len(),
        flags[i],
        forall|m: int| 0 <= m < i ==> !#[trigger] flags[m],
    ensures
        first_match(flags) == Some(i),
{
    lemma_first_match(flags);
    if let Some(k) = first_match(flags) {
        if k > i {
            assert(!flags[i]);
        }
    }
}

/// Without any match there is no first match.
pub proof fn lemma_no_match(flags: Seq<bool>)
    requires
        forall|m: int| 0 <= m < flags.len() ==> !#[trigger] flags[m],
    ensures
        first_match(flags) is None,
{
    lemma_first_match(flags);
    if let Some(k) = first_match(flags) {
        assert(!flags[k]);
    }
}

} // verus!
