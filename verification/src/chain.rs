//! Searching a chain for its first element of some sort.

use vstd::prelude::*;

verus! {

/// Whether `at` is the place of the first element of `chain` that is
/// `wanted`.
pub open spec fn is_first<A>(chain: Seq<A>, at: int, wanted: spec_fn(A) -> bool) -> bool {
    &&& 0 <= at < chain.len()
    &&& wanted(chain[at])
    &&& forall|before: int| 0 <= before < at ==> !wanted(#[trigger] chain[before])
}

/// The first element of `chain` that is `wanted`, if there is one.
pub open spec fn first_match<A>(chain: Seq<A>, wanted: spec_fn(A) -> bool) -> Option<A> {
    if exists|at: int| is_first(chain, at, wanted) {
        Some(chain[choose|at: int| is_first(chain, at, wanted)])
    } else {
        None
    }
}

/// The first wanted element is the one at the first wanted place, and no
/// other place is the first.
pub proof fn lemma_first_match_at<A>(chain: Seq<A>, at: int, wanted: spec_fn(A) -> bool)
    requires
        is_first(chain, at, wanted),
    ensures
        first_match(chain, wanted) == Some(chain[at]),
{
}

/// What a search finds is wanted, and nothing before it in the chain is:
/// the nearest match wins.
pub proof fn lemma_first_match_is_nearest<A>(chain: Seq<A>, wanted: spec_fn(A) -> bool)
    requires
        first_match(chain, wanted) is Some,
    ensures
        exists|at: int|
            is_first(chain, at, wanted) && #[trigger] chain[at] == first_match(
                chain,
                wanted,
            )->Some_0,
{
}

/// Nothing is found exactly when no element is wanted.
pub proof fn lemma_first_match_none<A>(chain: Seq<A>, wanted: spec_fn(A) -> bool)
    ensures
        first_match(chain, wanted) is None <==> forall|at: int|
            0 <= at < chain.len() ==> !wanted(#[trigger] chain[at]),
{
    if exists|at: int| 0 <= at < chain.len() && wanted(#[trigger] chain[at]) {
        let some = choose|at: int| 0 <= at < chain.len() && wanted(#[trigger] chain[at]);
        lemma_some_is_first(chain, some, wanted);
    }
}

/// Where some element is wanted, one of them is the first.
proof fn lemma_some_is_first<A>(chain: Seq<A>, at: int, wanted: spec_fn(A) -> bool)
    requires
        0 <= at < chain.len(),
        wanted(chain[at]),
    ensures
        exists|first: int| is_first(chain, first, wanted),
    decreases at,
{
    if exists|before: int| 0 <= before < at && wanted(#[trigger] chain[before]) {
        let before = choose|before: int| 0 <= before < at && wanted(#[trigger] chain[before]);
        lemma_some_is_first(chain, before, wanted);
    } else {
        assert(is_first(chain, at, wanted));
    }
}

/// A search goes by the first element if that one is wanted, and by the
/// rest of the chain if it is not.
pub proof fn lemma_first_match_step<A>(chain: Seq<A>, wanted: spec_fn(A) -> bool)
    requires
        chain.len() > 0,
    ensures
        first_match(chain, wanted) == if wanted(chain[0]) {
            Some(chain[0])
        } else {
            first_match(chain.drop_first(), wanted)
        },
{
    let rest = chain.drop_first();
    if wanted(chain[0]) {
        lemma_first_match_at(chain, 0, wanted);
    } else if exists|at: int| is_first(rest, at, wanted) {
        let at = choose|at: int| is_first(rest, at, wanted);
        assert forall|before: int| 0 <= before < at + 1 implies !wanted(
            #[trigger] chain[before],
        ) by {
            if before > 0 {
                assert(chain[before] == rest[before - 1]);
            }
        }
        lemma_first_match_at(chain, at + 1, wanted);
    } else {
        lemma_first_match_none(rest, wanted);
        assert forall|at: int| 0 <= at < chain.len() implies !wanted(#[trigger] chain[at]) by {
            if at > 0 {
                assert(chain[at] == rest[at - 1]);
            }
        }
    }
}

/// Searching a chain element by element, each seen through `through`,
/// finds the element that a search of the chain itself finds, seen through
/// `through`.
pub proof fn lemma_first_match_map<A, B>(
    chain: Seq<A>,
    through: spec_fn(A) -> B,
    wanted: spec_fn(A) -> bool,
    wanted_through: spec_fn(B) -> bool,
)
    requires
        forall|element: A| wanted(element) == #[trigger] wanted_through(through(element)),
    ensures
        first_match(chain.map_values(through), wanted_through) == match first_match(chain, wanted) {
            Some(element) => Some(through(element)),
            None => None,
        },
{
    let mapped = chain.map_values(through);
    if exists|at: int| is_first(chain, at, wanted) {
        let at = choose|at: int| is_first(chain, at, wanted);
        lemma_first_match_at(mapped, at, wanted_through);
    } else {
        lemma_first_match_none(chain, wanted);
    }
}

} // verus!
