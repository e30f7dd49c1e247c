//! What holds of a whole sequence of observations.
use vstd::prelude::*;
use crate::engine::{key_of, step, SharedRecord};

verus! {

/// Feeds `rs` to the machine in order, starting from the abstract state `s`.
/// Returns the final state and the URLs acted on, in order.
pub open spec fn run(s: Option<Seq<char>>, rs: Seq<SharedRecord>) -> (Option<Seq<char>>, Seq<
    Seq<char>,
>)
    decreases rs.len(),
{
    if rs.len() == 0 {
        (s, seq![])
    } else {
        let first = step(s, key_of(rs[0]), rs[0].url@);
        let rest = run(first.0, rs.drop_first());
        match first.1 {
            Some(u) => (rest.0, seq![u] + rest.1),
            None => (rest.0, rest.1),
        }
    }
}

/// No two records of `rs` share a key.
pub open spec fn keys_distinct(rs: Seq<SharedRecord>) -> bool {
    forall|i: int, j: int|
        0 <= i < rs.len() && 0 <= j < rs.len() && i != j ==> key_of(rs[i]) != key_of(rs[j])
}

/// The URLs of `rs`, in order.
pub open spec fn urls_of(rs: Seq<SharedRecord>) -> Seq<Seq<char>> {
    rs.map_values(|r: SharedRecord| r.url@)
}

proof fn lemma_fresh_keys_all_act(k: Seq<char>, rs: Seq<SharedRecord>)
    requires
        keys_distinct(rs),
        forall|i: int| 0 <= i < rs.len() ==> key_of(rs[i]) != k,
    ensures
        run(Some(k), rs).1 == urls_of(rs),
    decreases rs.len(),
{
    if rs.len() > 0 {
        let rest = rs.drop_first();
        assert forall|i: int, j: int|
            0 <= i < rest.len() && 0 <= j < rest.len() && i != j implies key_of(rest[i])
            != key_of(rest[j]) by {
            assert(rest[i] == rs[i + 1] && rest[j] == rs[j + 1]);
        }
        assert forall|i: int| 0 <= i < rest.len() implies key_of(rest[i]) != key_of(rs[0]) by {
            assert(rest[i] == rs[i + 1]);
        }
        lemma_fresh_keys_all_act(key_of(rs[0]), rest);
        assert(urls_of(rs) =~= seq![rs[0].url@] + urls_of(rest));
    } else {
        assert(urls_of(rs) =~= seq![]);
    }
}

proof fn lemma_same_key_silent(k: Seq<char>, rs: Seq<SharedRecord>)
    requires
        forall|i: int| 0 <= i < rs.len() ==> key_of(rs[i]) == k,
    ensures
        run(Some(k), rs) == (Some(k), Seq::<Seq<char>>::empty()),
    decreases rs.len(),
{
    if rs.len() > 0 {
        let rest = rs.drop_first();
        assert forall|i: int| 0 <= i < rest.len() implies key_of(rest[i]) == k by {
            assert(rest[i] == rs[i + 1]);
        }
        lemma_same_key_silent(k, rest);
    }
}

/// Starting from a fresh watcher, records with pairwise distinct keys give one
/// action for every record after the first, with that record's URL, in order;
/// the first only initialises the state.
pub proof fn law_distinct_keys_act_once_each(rs: Seq<SharedRecord>)
    requires
        keys_distinct(rs),
    ensures
        rs.len() == 0 ==> run(None, rs).1.len() == 0,
        rs.len() > 0 ==> run(None, rs).1 == urls_of(rs.drop_first()),
{
    if rs.len() > 0 {
        let rest = rs.drop_first();
        assert forall|i: int, j: int|
            0 <= i < rest.len() && 0 <= j < rest.len() && i != j implies key_of(rest[i])
            != key_of(rest[j]) by {
            assert(rest[i] == rs[i + 1] && rest[j] == rs[j + 1]);
        }
        assert forall|i: int| 0 <= i < rest.len() implies key_of(rest[i]) != key_of(rs[0]) by {
            assert(rest[i] == rs[i + 1]);
        }
        lemma_fresh_keys_all_act(key_of(rs[0]), rest);
    }
}

/// Once a record has been observed, from any state, observing records of the
/// same key any number of times in a row asks for no further action and leaves
/// that key as the last one seen.
pub proof fn law_repeats_are_silent(
    s: Option<Seq<char>>,
    first: SharedRecord,
    repeats: Seq<SharedRecord>,
)
    requires
        forall|i: int| 0 <= i < repeats.len() ==> key_of(repeats[i]) == key_of(first),
    ensures
        run(step(s, key_of(first), first.url@).0, repeats) == (
            Some(key_of(first)),
            Seq::<Seq<char>>::empty(),
        ),
{
    lemma_same_key_silent(key_of(first), repeats);
}

} // verus!
