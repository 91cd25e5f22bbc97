//! A list of keyed values without repeated keys, read as a map.

use vstd::prelude::*;

verus! {

/// Whether no key occurs twice in the list.
pub open spec fn distinct_keys<V>(pairs: Seq<(Seq<char>, V)>) -> bool {
    forall|i: int, j: int|
        0 <= i < pairs.len() && 0 <= j < pairs.len() && i != j ==> pairs[i].0 != pairs[j].0
}

/// Whether the key occurs in the list.
pub open spec fn has_key<V>(pairs: Seq<(Seq<char>, V)>, key: Seq<char>) -> bool {
    exists|i: int| 0 <= i < pairs.len() && pairs[i].0 == key
}

/// The map that the list stands for. Where a key occurs twice, the later
/// value counts.
pub open spec fn map_of<V>(pairs: Seq<(Seq<char>, V)>) -> Map<Seq<char>, V>
    decreases pairs.len(),
{
    if pairs.len() == 0 {
        Map::empty()
    } else {
        map_of(pairs.drop_last()).insert(pairs.last().0, pairs.last().1)
    }
}

/// The map holds exactly the keys of the list, and it is finite.
pub proof fn lemma_map_keys<V>(pairs: Seq<(Seq<char>, V)>)
    ensures
        forall|key: Seq<char>| #[trigger] map_of(pairs).contains_key(key) <==> has_key(pairs, key),
        map_of(pairs).dom().finite(),
    decreases pairs.len(),
{
    if pairs.len() > 0 {
        let front = pairs.drop_last();
        lemma_map_keys(front);
        assert forall|key: Seq<char>| #[trigger]
            map_of(pairs).contains_key(key) <==> has_key(pairs, key) by {
            if has_key(pairs, key) {
                let i = choose|i: int| 0 <= i < pairs.len() && pairs[i].0 == key;
                if i < front.len() {
                    assert(front[i].0 == key);
                    assert(has_key(front, key));
                }
            }
            if map_of(pairs).contains_key(key) {
                if key == pairs.last().0 {
                    assert(pairs[pairs.len() - 1].0 == key);
                } else {
                    assert(has_key(front, key));
                    let i = choose|i: int| 0 <= i < front.len() && front[i].0 == key;
                    assert(pairs[i].0 == key);
                }
            }
        }
    } else {
        assert forall|key: Seq<char>| #[trigger]
            map_of(pairs).contains_key(key) <==> has_key(pairs, key) by {}
    }
}

/// In a list without repeated keys, the map gives each key the value that
/// stands beside it.
pub proof fn lemma_map_value<V>(pairs: Seq<(Seq<char>, V)>, i: int)
    requires
        distinct_keys(pairs),
        0 <= i < pairs.len(),
    ensures
        map_of(pairs).contains_key(pairs[i].0),
        map_of(pairs)[pairs[i].0] == pairs[i].1,
    decreases pairs.len(),
{
    let front = pairs.drop_last();
    if i < pairs.len() - 1 {
        assert(distinct_keys(front)) by {
            assert forall|a: int, b: int|
                0 <= a < front.len() && 0 <= b < front.len() && a != b implies front[a].0
                != front[b].0 by {
                assert(pairs[a].0 != pairs[b].0);
            }
        }
        lemma_map_value(front, i);
        assert(pairs[i].0 != pairs[pairs.len() - 1].0);
    }
}

/// Taking one pair out of a list without repeated keys takes its key out of
/// the map, and leaves a list without repeated keys.
pub proof fn lemma_map_remove<V>(pairs: Seq<(Seq<char>, V)>, i: int)
    requires
        distinct_keys(pairs),
        0 <= i < pairs.len(),
    ensures
        distinct_keys(pairs.remove(i)),
        map_of(pairs.remove(i)) == map_of(pairs).remove(pairs[i].0),
    decreases pairs.len(),
{
    let rest = pairs.remove(i);
    assert(distinct_keys(rest)) by {
        assert forall|a: int, b: int|
            0 <= a < rest.len() && 0 <= b < rest.len() && a != b implies rest[a].0 != rest[b].0 by {
            let a2 = if a < i {
                a
            } else {
                a + 1
            };
            let b2 = if b < i {
                b
            } else {
                b + 1
            };
            assert(pairs[a2].0 != pairs[b2].0);
        }
    }
    let front = pairs.drop_last();
    if i == pairs.len() - 1 {
        assert(rest =~= front);
        lemma_map_keys(front);
        assert(!has_key(front, pairs[i].0)) by {
            if has_key(front, pairs[i].0) {
                let j = choose|j: int| 0 <= j < front.len() && front[j].0 == pairs[i].0;
                assert(pairs[j].0 != pairs[i].0);
            }
        }
        assert(map_of(front) =~= map_of(pairs).remove(pairs[i].0));
    } else {
        assert(distinct_keys(front)) by {
            assert forall|a: int, b: int|
                0 <= a < front.len() && 0 <= b < front.len() && a != b implies front[a].0
                != front[b].0 by {
                assert(pairs[a].0 != pairs[b].0);
            }
        }
        lemma_map_remove(front, i);
        assert(rest.drop_last() =~= front.remove(i));
        assert(rest.last() == pairs.last());
        assert(pairs[i].0 != pairs[pairs.len() - 1].0);
        assert(map_of(rest) =~= map_of(pairs).remove(pairs[i].0));
    }
}

/// Adding a pair with a new key keeps the list free of repeated keys.
pub proof fn lemma_push_distinct<V>(pairs: Seq<(Seq<char>, V)>, key: Seq<char>, value: V)
    requires
        distinct_keys(pairs),
        !has_key(pairs, key),
    ensures
        distinct_keys(pairs.push((key, value))),
        map_of(pairs.push((key, value))) == map_of(pairs).insert(key, value),
{
    let longer = pairs.push((key, value));
    assert(longer.drop_last() =~= pairs);
    assert forall|a: int, b: int|
        0 <= a < longer.len() && 0 <= b < longer.len() && a != b implies longer[a].0
        != longer[b].0 by {
        if a < pairs.len() && b < pairs.len() {
            assert(pairs[a].0 != pairs[b].0);
        } else if a < pairs.len() {
            assert(pairs[a].0 != key);
        } else {
            assert(pairs[b].0 != key);
        }
    }
}

} // verus!
