//! Which slot of a store holds what belongs to an aggregate: a `DashMap` from
//! aggregate identifiers to slot numbers. What the map holds is named `slots`,
//! and every operation says what it does to it. An operation that changes the map
//! takes it by `&mut`, which the map's own methods do not ask for: what a shared
//! map holds stays as it is. No lock on the map outlives a call.

use dashmap::DashMap;
use vstd::prelude::*;

verus! {

/// `dashmap::DashMap`, seen only through the operations below.
#[verifier::external_type_specification]
#[verifier::external_body]
#[verifier::reject_recursive_types(K)]
#[verifier::reject_recursive_types(V)]
#[verifier::reject_recursive_types(S)]
pub struct ExDashMap<K, V, S>(dashmap::DashMap<K, V, S>);

/// What an index holds: the slot of each identifier in it, identifiers as text.
pub uninterp spec fn slots(index: DashMap<String, usize>) -> Map<Seq<char>, usize>;

/// Whether `ids` lists each identifier of the index exactly once.
pub open spec fn lists_ids(index: DashMap<String, usize>, ids: Seq<Seq<char>>) -> bool {
    &&& ids.no_duplicates()
    &&& forall|id: Seq<char>| #[trigger] slots(index).contains_key(id) <==> ids.contains(id)
}

/// Whether `all` holds the slots of the identifiers of the index, each identifier
/// visited once, in some order.
pub open spec fn walks(index: DashMap<String, usize>, all: Seq<usize>) -> bool {
    exists|ids: Seq<Seq<char>>| #[trigger]
        lists_ids(index, ids) && all == ids.map_values(|id: Seq<char>| slots(index)[id])
}

/// Any order in which the identifiers of an index can be listed is one in which its
/// slots may be walked.
pub proof fn any_listing_is_a_walk(
    index: DashMap<String, usize>,
    ids: Seq<Seq<char>>,
    all: Seq<usize>,
)
    requires
        ids.no_duplicates(),
        forall|id: Seq<char>| #[trigger] slots(index).contains_key(id) <==> ids.contains(id),
        all.len() == ids.len(),
        forall|i: int| 0 <= i < ids.len() ==> all[i] == slots(index)[#[trigger] ids[i]],
    ensures
        walks(index, all),
{
    assert(all =~= ids.map_values(|id: Seq<char>| slots(index)[id]));
    assert(lists_ids(index, ids));
}

/// `DashMap::new`: an empty index.
#[verifier::external_body]
pub(crate) fn new_index() -> (index: DashMap<String, usize>)
    ensures
        slots(index).dom() == Set::<Seq<char>>::empty(),
{
    DashMap::new()
}

/// `DashMap::get`: the slot of `id`, if the index has one.
#[verifier::external_body]
pub(crate) fn slot_of(index: &DashMap<String, usize>, id: &str) -> (slot: Option<usize>)
    ensures
        slot == (if slots(*index).contains_key(id@) {
            Some(slots(*index)[id@])
        } else {
            None
        }),
{
    index.get(id).map(|entry| *entry.value())
}

/// `DashMap::entry` with `Entry::or_insert`: the slot of `id`, which becomes
/// `vacant` where the index had none.
#[verifier::external_body]
pub(crate) fn slot_or_insert(
    index: &mut DashMap<String, usize>,
    id: &str,
    vacant: usize,
) -> (slot: usize)
    ensures
        slot == (if slots(*old(index)).contains_key(id@) {
            slots(*old(index))[id@]
        } else {
            vacant
        }),
        slots(*final(index)) == slots(*old(index)).insert(id@, slot),
{
    *index.entry(id.to_string()).or_insert(vacant).value()
}

/// `DashMap::insert`: sets the slot of `id` and hands back the one it had.
#[verifier::external_body]
pub(crate) fn set_slot(index: &mut DashMap<String, usize>, id: &str, slot: usize) -> (before:
    Option<usize>)
    ensures
        before == (if slots(*old(index)).contains_key(id@) {
            Some(slots(*old(index))[id@])
        } else {
            None
        }),
        slots(*final(index)) == slots(*old(index)).insert(id@, slot),
{
    index.insert(id.to_string(), slot)
}

/// `DashMap::iter`: the slots of all identifiers. Each identifier is visited once;
/// in which order depends on the hasher that the process has seeded and is left
/// open.
#[verifier::external_body]
pub(crate) fn all_slots(index: &DashMap<String, usize>) -> (all: Vec<usize>)
    ensures
        walks(*index, all@),
{
    index.iter().map(|entry| *entry.value()).collect()
}

/// `DashMap::clear`: removes every identifier.
#[verifier::external_body]
pub(crate) fn clear_index(index: &mut DashMap<String, usize>)
    ensures
        slots(*final(index)).dom() == Set::<Seq<char>>::empty(),
{
    index.clear()
}

} // verus!
