//! An in-memory key-value store keyed by account identities.
//!
//! Both registries keep their records in a vector of `(Identifier, value)`
//! entries and are specified against the map those entries hold, where the
//! entry nearest the front of the vector wins.  Since insertion always
//! overwrites the first matching entry, no key ever occurs twice.

use vstd::prelude::*;

use crate::identifier::Identifier;

verus! {

/// The key-value map held by a sequence of entries: each key is bound to
/// the value of its first entry.
pub open spec fn entries_map<V: View>(s: Seq<(Identifier, V)>) -> Map<Seq<u8>, V::V>
    decreases s.len(),
{
    if s.len() == 0 {
        Map::empty()
    } else {
        entries_map(s.drop_first()).insert(s[0].0@, s[0].1@)
    }
}

proof fn lemma_entries_map_no_key<V: View>(s: Seq<(Identifier, V)>, k: Seq<u8>)
    requires
        forall|j: int| 0 <= j < s.len() ==> (#[trigger] s[j].0)@ != k,
    ensures
        !entries_map(s).contains_key(k),
    decreases s.len(),
{
    if s.len() > 0 {
        assert forall|j: int|
            0 <= j < s.drop_first().len() implies (#[trigger] s.drop_first()[j].0)@ != k by {
            assert(s.drop_first()[j] == s[j + 1]);
        }
        lemma_entries_map_no_key(s.drop_first(), k);
        assert(s[0].0@ != k);
    }
}

proof fn lemma_entries_map_first_match<V: View>(s: Seq<(Identifier, V)>, k: Seq<u8>, i: int)
    requires
        0 <= i < s.len(),
        s[i].0@ == k,
        forall|j: int| 0 <= j < i ==> (#[trigger] s[j].0)@ != k,
    ensures
        entries_map(s).contains_key(k),
        entries_map(s)[k] == s[i].1@,
    decreases s.len(),
{
    if i > 0 {
        assert(s[0].0@ != k);
        assert forall|j: int| 0 <= j < i - 1 implies (#[trigger] s.drop_first()[j].0)@ != k by {
            assert(s.drop_first()[j] == s[j + 1]);
        }
        assert(s.drop_first()[i - 1] == s[i]);
        lemma_entries_map_first_match(s.drop_first(), k, i - 1);
    }
}

proof fn lemma_entries_map_update<V: View>(s: Seq<(Identifier, V)>, i: int, e: (Identifier, V))
    requires
        0 <= i < s.len(),
        e.0@ == s[i].0@,
        forall|j: int| 0 <= j < i ==> (#[trigger] s[j].0)@ != s[i].0@,
    ensures
        entries_map(s.update(i, e)) == entries_map(s).insert(e.0@, e.1@),
    decreases s.len(),
{
    let k = s[i].0@;
    let t = s.update(i, e);
    if i == 0 {
        assert(t.drop_first() =~= s.drop_first());
        assert(t[0] == e);
        assert(entries_map(t) =~= entries_map(s).insert(e.0@, e.1@));
    } else {
        assert(t[0] == s[0]);
        assert(t.drop_first() =~= s.drop_first().update(i - 1, e));
        assert(s.drop_first()[i - 1] == s[i]);
        assert forall|j: int| 0 <= j < i - 1 implies (#[trigger] s.drop_first()[j].0)@ != k by {
            assert(s.drop_first()[j] == s[j + 1]);
        }
        lemma_entries_map_update(s.drop_first(), i - 1, e);
        assert(s[0].0@ != k);
        assert(entries_map(t) =~= entries_map(s).insert(e.0@, e.1@));
    }
}

proof fn lemma_entries_map_push<V: View>(s: Seq<(Identifier, V)>, e: (Identifier, V))
    requires
        forall|j: int| 0 <= j < s.len() ==> (#[trigger] s[j].0)@ != e.0@,
    ensures
        entries_map(s.push(e)) == entries_map(s).insert(e.0@, e.1@),
    decreases s.len(),
{
    let t = s.push(e);
    if s.len() == 0 {
        assert(t[0] == e);
        assert(t.drop_first() =~= Seq::<(Identifier, V)>::empty());
        lemma_entries_map_empty::<V>();
        assert(entries_map(t) =~= entries_map(s).insert(e.0@, e.1@));
    } else {
        assert(t[0] == s[0]);
        assert(t.drop_first() =~= s.drop_first().push(e));
        assert forall|j: int|
            0 <= j < s.drop_first().len() implies (#[trigger] s.drop_first()[j].0)@ != e.0@ by {
            assert(s.drop_first()[j] == s[j + 1]);
        }
        lemma_entries_map_push(s.drop_first(), e);
        assert(s[0].0@ != e.0@);
        assert(entries_map(t) =~= entries_map(s).insert(e.0@, e.1@));
    }
}

/// The empty store holds the empty map.
pub proof fn lemma_entries_map_empty<V: View>()
    ensures
        entries_map(Seq::<(Identifier, V)>::empty()) == Map::<Seq<u8>, V::V>::empty(),
{
}

/// Finds the first entry holding key `k`.
pub fn find_key<V: View>(entries: &Vec<(Identifier, V)>, k: &Identifier) -> (r: Option<usize>)
    ensures
        match r {
            Some(i) => i < entries@.len() && entries@[i as int].0@ == k@
                && entries_map(entries@).contains_key(k@) && entries_map(entries@)[k@]
                == entries@[i as int].1@ && (forall|j: int|
                0 <= j < i ==> (#[trigger] entries@[j].0)@ != k@),
            None => !entries_map(entries@).contains_key(k@) && (forall|j: int|
                0 <= j < entries@.len() ==> (#[trigger] entries@[j].0)@ != k@),
        },
{
    let n = entries.len();
    let mut i: usize = 0;
    while i < n
        invariant
            n == entries@.len(),
            i <= n,
            forall|j: int| 0 <= j < i ==> (#[trigger] entries@[j].0)@ != k@,
        decreases n - i,
    {
        if entries[i].0.equals(k) {
            proof {
                lemma_entries_map_first_match(entries@, k@, i as int);
            }
            return Some(i);
        }
        i += 1;
    }
    proof {
        lemma_entries_map_no_key(entries@, k@);
    }
    None
}

/// Binds `v` to key `k`, overwriting the first existing entry for `k` or
/// appending a new one.
pub fn insert_entry<V: View>(entries: &mut Vec<(Identifier, V)>, k: Identifier, v: V)
    ensures
        entries_map(final(entries)@) == entries_map(old(entries)@).insert(k@, v@),
{
    let r = find_key(entries, &k);
    let e = (k, v);
    let ghost ge = e;
    match r {
        Some(i) => {
            proof {
                lemma_entries_map_update(entries@, i as int, ge);
            }
            entries.set(i, e);
        },
        None => {
            proof {
                lemma_entries_map_push(entries@, ge);
            }
            entries.push(e);
        },
    }
}

} // verus!
