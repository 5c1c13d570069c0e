//! Process-wide caches of space and index ids by name, with the laws that make
//! concurrent writers of different names independent.

use vstd::prelude::*;
use vstd::hash_map::{HashMapWithView, StringHashMap};

verus! {

broadcast use vstd::std_specs::hash::group_hash_axioms;

/// Cache of space name to space id.
pub struct SpaceDictionary {
    ids: StringHashMap<u32>,
}

/// Cache of index name to index id, grouped by the id of the owning space.
pub struct IndexDictionary {
    spaces: HashMapWithView<u32, StringHashMap<u32>>,
}

impl View for SpaceDictionary {
    type V = Map<Seq<char>, u32>;

    closed spec fn view(&self) -> Map<Seq<char>, u32> {
        self.ids@
    }
}

impl View for IndexDictionary {
    type V = Map<u32, Map<Seq<char>, u32>>;

    closed spec fn view(&self) -> Map<u32, Map<Seq<char>, u32>> {
        self.spaces@.map_values(|m: StringHashMap<u32>| m@)
    }
}

/// The cached id of index `name` of space `space_id`, if any.
pub open spec fn cached_index(d: Map<u32, Map<Seq<char>, u32>>, space_id: u32, name: Seq<char>) -> Option<u32> {
    if d.contains_key(space_id) && d[space_id].contains_key(name) {
        Some(d[space_id][name])
    } else {
        None
    }
}

/// The cached id of space `name`, if any.
pub open spec fn cached_space(d: Map<Seq<char>, u32>, name: Seq<char>) -> Option<u32> {
    if d.contains_key(name) {
        Some(d[name])
    } else {
        None
    }
}

/// The index cache after recording `name -> index_id` under `space_id`.
pub open spec fn with_index(
    d: Map<u32, Map<Seq<char>, u32>>,
    space_id: u32,
    name: Seq<char>,
    index_id: u32,
) -> Map<u32, Map<Seq<char>, u32>> {
    let inner = if d.contains_key(space_id) {
        d[space_id]
    } else {
        Map::empty()
    };
    d.insert(space_id, inner.insert(name, index_id))
}

impl SpaceDictionary {
    pub fn new() -> (r: SpaceDictionary)
        ensures
            r@ == Map::<Seq<char>, u32>::empty(),
    {
        SpaceDictionary { ids: StringHashMap::new() }
    }
}

impl IndexDictionary {
    pub fn new() -> (r: IndexDictionary)
        ensures
            r@ == Map::<u32, Map<Seq<char>, u32>>::empty(),
    {
        let r = IndexDictionary { spaces: HashMapWithView::new() };
        assert(r@ =~= Map::<u32, Map<Seq<char>, u32>>::empty());
        r
    }
}

/// Forgets every cached space and index id; the only invalidation path.
pub fn clear_dictionaries(spaces: &mut SpaceDictionary, indexes: &mut IndexDictionary)
    ensures
        final(spaces)@ == Map::<Seq<char>, u32>::empty(),
        final(indexes)@ == Map::<u32, Map<Seq<char>, u32>>::empty(),
{
    spaces.ids.clear();
    indexes.spaces.clear();
    assert(indexes@ =~= Map::<u32, Map<Seq<char>, u32>>::empty());
}

/// Records the id of space `name`.
pub fn add_space_dict_entry(spaces: &mut SpaceDictionary, space_id: u32, name: String)
    ensures
        final(spaces)@ == old(spaces)@.insert(name@, space_id),
{
    spaces.ids.insert(name, space_id);
}

/// Records the id of index `name` of space `space_id`.
pub fn add_space_index_dict_entry(
    indexes: &mut IndexDictionary,
    space_id: u32,
    index_id: u32,
    name: String,
)
    ensures
        final(indexes)@ == with_index(old(indexes)@, space_id, name@, index_id),
{
    let ghost name_v = name@;
    let mut inner = match indexes.spaces.remove(&space_id) {
        Some(m) => m,
        None => StringHashMap::new(),
    };
    inner.insert(name, index_id);
    indexes.spaces.insert(space_id, inner);
    assert(indexes@ =~= with_index(old(indexes)@, space_id, name_v, index_id));
}

/// The cached id of space `name`, if any.
pub fn search_space_id(spaces: &SpaceDictionary, name: &str) -> (r: Option<u32>)
    ensures
        r == cached_space(spaces@, name@),
{
    match spaces.ids.get(name) {
        Some(v) => Some(*v),
        None => None,
    }
}

/// The cached id of index `index_name` of space `space_id`, if any.
pub fn search_index_id(indexes: &IndexDictionary, space_id: u32, index_name: &str) -> (r: Option<u32>)
    ensures
        r == cached_index(indexes@, space_id, index_name@),
{
    match indexes.spaces.get(&space_id) {
        Some(inner) => match inner.get(index_name) {
            Some(v) => Some(*v),
            None => None,
        },
        None => None,
    }
}

} // verus!

verus! {

/// Recording two different space names gives the same cache in either
/// order, so concurrent writers of disjoint names cannot interfere.
pub proof fn lemma_space_entries_commute(
    d: Map<Seq<char>, u32>,
    a: Seq<char>,
    id_a: u32,
    b: Seq<char>,
    id_b: u32,
)
    requires
        a != b,
    ensures
        d.insert(a, id_a).insert(b, id_b) == d.insert(b, id_b).insert(a, id_a),
{
    assert(d.insert(a, id_a).insert(b, id_b) =~= d.insert(b, id_b).insert(a, id_a));
}

/// Recording a space name changes what a reader sees for that name only.
pub proof fn lemma_space_entry_isolated(d: Map<Seq<char>, u32>, a: Seq<char>, id: u32, b: Seq<char>)
    ensures
        cached_space(d.insert(a, id), b) == if a == b {
            Some(id)
        } else {
            cached_space(d, b)
        },
{
}

/// Recording two different (space, index) names gives the same cache in
/// either order.
pub proof fn lemma_index_entries_commute(
    d: Map<u32, Map<Seq<char>, u32>>,
    space_a: u32,
    a: Seq<char>,
    id_a: u32,
    space_b: u32,
    b: Seq<char>,
    id_b: u32,
)
    requires
        space_a != space_b || a != b,
    ensures
        with_index(with_index(d, space_a, a, id_a), space_b, b, id_b) == with_index(
            with_index(d, space_b, b, id_b),
            space_a,
            a,
            id_a,
        ),
{
    let l = with_index(with_index(d, space_a, a, id_a), space_b, b, id_b);
    let r = with_index(with_index(d, space_b, b, id_b), space_a, a, id_a);
    if space_a == space_b {
        let inner = if d.contains_key(space_a) {
            d[space_a]
        } else {
            Map::empty()
        };
        assert(inner.insert(a, id_a).insert(b, id_b) =~= inner.insert(b, id_b).insert(a, id_a));
    }
    assert(l =~= r);
}

/// Recording an index name changes what a reader sees for that
/// (space, index) pair only.
pub proof fn lemma_index_entry_isolated(
    d: Map<u32, Map<Seq<char>, u32>>,
    space_a: u32,
    a: Seq<char>,
    id: u32,
    space_b: u32,
    b: Seq<char>,
)
    ensures
        cached_index(with_index(d, space_a, a, id), space_b, b) == if space_a == space_b && a == b {
            Some(id)
        } else {
            cached_index(d, space_b, b)
        },
{
}

/// The space cache after recording each `(name, id)` of `entries` in turn,
/// as the lock orders concurrent writers.
pub open spec fn add_all(d: Map<Seq<char>, u32>, entries: Seq<(Seq<char>, u32)>) -> Map<
    Seq<char>,
    u32,
>
    decreases entries.len(),
{
    if entries.len() == 0 {
        d
    } else {
        add_all(d, entries.drop_last()).insert(entries.last().0, entries.last().1)
    }
}

/// Writers of pairwise different names, in whatever order their writes
/// land, lose no update: afterwards every written name maps to its own id,
/// and every other name is as before.
pub proof fn lemma_no_lost_update(
    d: Map<Seq<char>, u32>,
    entries: Seq<(Seq<char>, u32)>,
    name: Seq<char>,
)
    requires
        forall|i: int, j: int|
            0 <= i < entries.len() && 0 <= j < entries.len() && i != j ==> entries[i].0
                != entries[j].0,
    ensures
        forall|i: int|
            0 <= i < entries.len() ==> #[trigger] cached_space(add_all(d, entries), entries[i].0)
                == Some(entries[i].1),
        (forall|i: int| 0 <= i < entries.len() ==> entries[i].0 != name) ==> cached_space(
            add_all(d, entries),
            name,
        ) == cached_space(d, name),
    decreases entries.len(),
{
    if entries.len() > 0 {
        let init = entries.drop_last();
        assert forall|i: int, j: int|
            0 <= i < init.len() && 0 <= j < init.len() && i != j implies init[i].0 != init[j].0 by {
            assert(init[i] == entries[i] && init[j] == entries[j]);
        }
        lemma_no_lost_update(d, init, name);
        assert forall|i: int| 0 <= i < entries.len() implies #[trigger] cached_space(
            add_all(d, entries),
            entries[i].0,
        ) == Some(entries[i].1) by {
            if i < entries.len() - 1 {
                assert(init[i] == entries[i]);
                lemma_no_lost_update(d, init, entries[i].0);
                assert(entries[i].0 != entries.last().0);
            }
        }
        if forall|i: int| 0 <= i < entries.len() ==> entries[i].0 != name {
            assert forall|i: int| 0 <= i < init.len() implies init[i].0 != name by {
                assert(init[i] == entries[i]);
            }
            assert(entries.last().0 != name);
        }
    }
}

} // verus!
