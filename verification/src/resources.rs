//! Resources of a package: a list of (handle, contents) entries used as a
//! map from handles to file contents.
use vstd::prelude::*;

verus! {

/// A resource handle that can be compared by value.
pub trait ResourceKey: View + Sized {
    fn same_key(&self, other: &Self) -> (r: bool)
        ensures
            r == (self@ == other@),
    ;
}

/// The resources of a list of entries as a map; a later entry for the same
/// handle replaces an earlier one.
pub open spec fn resource_map<K: View>(entries: Seq<(K, Vec<u8>)>) -> Map<K::V, Seq<u8>>
    decreases entries.len(),
{
    if entries.len() == 0 {
        Map::empty()
    } else {
        resource_map(entries.drop_last()).insert(entries.last().0@, entries.last().1@)
    }
}

/// No resource handle occurs twice.
pub open spec fn resources_unique<K: View>(entries: Seq<(K, Vec<u8>)>) -> bool {
    forall|i: int, j: int|
        0 <= i < j < entries.len() ==> #[trigger] entries[i].0@ != #[trigger] entries[j].0@
}

proof fn lemma_resource_map_prefix<K: View>(entries: Seq<(K, Vec<u8>)>, i: int, k: K::V)
    requires
        0 <= i <= entries.len(),
        forall|j: int| i <= j < entries.len() ==> #[trigger] entries[j].0@ != k,
    ensures
        resource_map(entries).dom().contains(k) == resource_map(entries.take(i)).dom().contains(k),
        resource_map(entries)[k] == resource_map(entries.take(i))[k],
    decreases entries.len() - i,
{
    if i == entries.len() {
        assert(entries.take(i) =~= entries);
    } else {
        let d = entries.drop_last();
        assert(entries[entries.len() - 1].0@ != k);
        assert forall|j: int| i <= j < d.len() implies #[trigger] d[j].0@ != k by {
            assert(d[j] == entries[j]);
        }
        lemma_resource_map_prefix(d, i, k);
        assert(d.take(i) =~= entries.take(i));
    }
}

proof fn lemma_resource_map_update<K: View>(
    entries: Seq<(K, Vec<u8>)>,
    i: int,
    value: Vec<u8>,
)
    requires
        resources_unique(entries),
        0 <= i < entries.len(),
    ensures
        resource_map(entries.update(i, (entries[i].0, value))) == resource_map(entries).insert(
            entries[i].0@,
            value@,
        ),
        resources_unique(entries.update(i, (entries[i].0, value))),
    decreases entries.len(),
{
    let u = entries.update(i, (entries[i].0, value));
    assert(u.drop_last() =~= if i == entries.len() - 1 {
        entries.drop_last()
    } else {
        entries.drop_last().update(i, (entries[i].0, value))
    });
    if i == entries.len() - 1 {
        assert(resource_map(u) =~= resource_map(entries).insert(entries[i].0@, value@));
    } else {
        let d = entries.drop_last();
        assert(resources_unique(d)) by {
            assert forall|a: int, b: int| 0 <= a < b < d.len() implies #[trigger] d[a].0@
                != #[trigger] d[b].0@ by {
                assert(d[a] == entries[a] && d[b] == entries[b]);
            }
        }
        lemma_resource_map_update(d, i, value);
        assert(entries[i].0@ != entries[entries.len() - 1].0@);
        assert(resource_map(u) =~= resource_map(entries).insert(entries[i].0@, value@));
    }
    assert(resources_unique(u)) by {
        assert forall|a: int, b: int| 0 <= a < b < u.len() implies #[trigger] u[a].0@
            != #[trigger] u[b].0@ by {
            assert(u[a].0@ == entries[a].0@ && u[b].0@ == entries[b].0@);
        }
    }
}

/// Looks up a resource among `entries`; a later entry wins.
pub fn find_resource<'a, K: ResourceKey>(entries: &'a Vec<(K, Vec<u8>)>, id: &K) -> (r: Option<
    &'a Vec<u8>,
>)
    ensures
        r is Some <==> resource_map(entries@).dom().contains(id@),
        r is Some ==> r->0@ == resource_map(entries@)[id@],
{
    let mut i = entries.len();
    while i > 0
        invariant
            i <= entries@.len(),
            forall|j: int| i <= j < entries@.len() ==> #[trigger] entries@[j].0@ != id@,
        decreases i,
    {
        if entries[i - 1].0.same_key(id) {
            proof {
                lemma_resource_map_prefix(entries@, i as int, id@);
                let t = entries@.take(i as int);
                assert(t.drop_last() =~= entries@.take(i - 1));
                assert(t.last() == entries@[i - 1]);
            }
            return Some(&entries[i - 1].1);
        }
        i = i - 1;
    }
    proof {
        lemma_resource_map_prefix(entries@, 0, id@);
        assert(entries@.take(0) =~= Seq::<(K, Vec<u8>)>::empty());
    }
    None
}

/// Adds a resource, replacing the contents of an existing entry with the
/// same handle.
pub fn insert_resource<K: ResourceKey>(entries: &mut Vec<(K, Vec<u8>)>, id: K, bytes: Vec<u8>)
    requires
        resources_unique(old(entries)@),
    ensures
        resources_unique(final(entries)@),
        resource_map(final(entries)@) == resource_map(old(entries)@).insert(id@, bytes@),
{
    let mut i: usize = 0;
    while i < entries.len()
        invariant
            i <= entries@.len(),
            entries@ == old(entries)@,
            resources_unique(entries@),
            forall|j: int| 0 <= j < i ==> #[trigger] entries@[j].0@ != id@,
        decreases entries@.len() - i,
    {
        if entries[i].0.same_key(&id) {
            let ghost before = entries@;
            proof {
                lemma_resource_map_update(before, i as int, bytes);
            }
            entries[i].1 = bytes;
            assert(entries@ =~= before.update(i as int, (before[i as int].0, bytes)));
            return;
        }
        i = i + 1;
    }
    let ghost before = entries@;
    entries.push((id, bytes));
    assert(entries@.drop_last() =~= before);
    assert(resources_unique(entries@)) by {
        assert forall|a: int, b: int| 0 <= a < b < entries@.len() implies #[trigger] entries@[a].0@
            != #[trigger] entries@[b].0@ by {
            if b == entries@.len() - 1 {
                assert(entries@[a] == before[a]);
                assert(before[a].0@ != id@);
            } else {
                assert(entries@[a] == before[a] && entries@[b] == before[b]);
            }
        }
    }
}

/// After a resource is added, looking up its handle gives the added
/// contents, and looking up any other handle gives what it gave before.
pub proof fn law_find_after_insert<K: View>(
    before: Seq<(K, Vec<u8>)>,
    after: Seq<(K, Vec<u8>)>,
    id: K::V,
    bytes: Seq<u8>,
    other: K::V,
)
    requires
        resource_map(after) == resource_map(before).insert(id, bytes),
    ensures
        resource_map(after).dom().contains(id),
        resource_map(after)[id] == bytes,
        other != id ==> resource_map(after).dom().contains(other) == resource_map(
            before,
        ).dom().contains(other),
        other != id ==> resource_map(after)[other] == resource_map(before)[other],
{
}

} // verus!
