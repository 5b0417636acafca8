//! Linear scans: the position of the first match in a sequence.
//!
//! Catalog and stock lists are short and are searched from the front. Where a
//! key occurs more than once, the first occurrence is the one that counts.

use vstd::prelude::*;

verus! {

/// The position of the first of `keys` that equals `key`, scanning from the
/// front; `None` where no key matches.
pub open spec fn first_position<K>(keys: Seq<K>, key: K) -> Option<int>
    decreases keys.len(),
{
    if keys.len() == 0 {
        None
    } else if keys[0] == key {
        Some(0)
    } else {
        match first_position(keys.drop_first(), key) {
            Some(i) => Some(i + 1),
            None => None,
        }
    }
}

/// Whether `at` holds `key` and nothing before `at` does.
pub open spec fn is_first_match<K>(keys: Seq<K>, key: K, at: int) -> bool {
    &&& 0 <= at < keys.len()
    &&& keys[at] == key
    &&& forall|j: int| 0 <= j < at ==> keys[j] != key
}

/// Whether no position holds `key`.
pub open spec fn is_absent<K>(keys: Seq<K>, key: K) -> bool {
    forall|j: int| 0 <= j < keys.len() ==> keys[j] != key
}

/// A scan finds the first match, and finds nothing only where nothing matches.
pub proof fn first_position_is_first_match<K>(keys: Seq<K>, key: K)
    ensures
        match first_position(keys, key) {
            Some(at) => is_first_match(keys, key, at),
            None => is_absent(keys, key),
        },
    decreases keys.len(),
{
    if keys.len() > 0 && keys[0] != key {
        let rest = keys.drop_first();
        first_position_is_first_match(rest, key);
        match first_position(rest, key) {
            Some(i) => {
                assert forall|j: int| 0 <= j < i + 1 implies keys[j] != key by {
                    if j > 0 {
                        assert(keys[j] == rest[j - 1]);
                    }
                }
                assert(keys[i + 1] == rest[i]);
            },
            None => {
                assert forall|j: int| 0 <= j < keys.len() implies keys[j] != key by {
                    if j > 0 {
                        assert(keys[j] == rest[j - 1]);
                    }
                }
            },
        }
    }
}

/// The first match is the position that a scan returns.
pub proof fn first_match_is_found<K>(keys: Seq<K>, key: K, at: int)
    requires
        is_first_match(keys, key, at),
    ensures
        first_position(keys, key) == Some(at),
{
    first_position_is_first_match(keys, key);
    match first_position(keys, key) {
        Some(found) => {
            if found < at {
                assert(keys[found] != key);
            } else if at < found {
                assert(keys[at] != key);
            }
        },
        None => {
            assert(keys[at] != key);
        },
    }
}

/// Where nothing matches, a scan returns nothing.
pub proof fn absent_is_not_found<K>(keys: Seq<K>, key: K)
    requires
        is_absent(keys, key),
    ensures
        first_position(keys, key) is None,
{
    first_position_is_first_match(keys, key);
    if let Some(found) = first_position(keys, key) {
        assert(keys[found] != key);
    }
}

/// A scan of nothing finds nothing.
pub proof fn nothing_in_empty<K>(key: K)
    ensures
        first_position(Seq::<K>::empty(), key) is None,
{
}

/// A scan of a single key finds it at the front exactly where it matches.
pub proof fn single_key<K>(only: K, key: K)
    ensures
        first_position(seq![only], key) == if only == key {
            Some(0int)
        } else {
            None
        },
{
    let keys = seq![only];
    if only != key {
        assert(is_absent(keys, key));
        absent_is_not_found(keys, key);
    }
}

} // verus!
