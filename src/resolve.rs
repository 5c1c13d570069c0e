//! Resolution of space and index names to ids through the caches, asking the
//! host only on a miss.

use vstd::prelude::*;
use crate::dict::{
    add_space_dict_entry, add_space_index_dict_entry, cached_index, cached_space, search_index_id,
    search_space_id, with_index, IndexDictionary, SpaceDictionary,
};
use crate::error::BindError;

verus! {

/// The id the host returns for a name it does not know.
pub const BOX_ID_NIL: u32 = 2147483647;

/// Where resolving a (space, index) name pair stands after consulting the
/// cache: done, or which lookup the host must answer next.
#[derive(Debug, PartialEq, Eq, Structural)]
pub enum Resolution {
    /// Both ids were cached.
    Resolved { space_id: u32, index_id: u32 },
    /// The space id is not cached: ask the host, then hand the answer to
    /// `get_space_id`.
    NeedSpaceId,
    /// The space id is known; ask the host for the index id, then hand the
    /// answer to `get_index_id`.
    NeedIndexId { space_id: u32 },
}

/// The space cache after the host answered `raw` for `name`.
pub open spec fn after_space_lookup(d: Map<Seq<char>, u32>, name: Seq<char>, raw: u32) -> Map<
    Seq<char>,
    u32,
> {
    if raw == BOX_ID_NIL {
        d
    } else {
        d.insert(name, raw)
    }
}

/// The index cache after the host answered `raw` for `name` in `space_id`.
pub open spec fn after_index_lookup(
    d: Map<u32, Map<Seq<char>, u32>>,
    space_id: u32,
    name: Seq<char>,
    raw: u32,
) -> Map<u32, Map<Seq<char>, u32>> {
    if raw == BOX_ID_NIL {
        d
    } else {
        with_index(d, space_id, name, raw)
    }
}

/// The next step of resolving `space` and `index` given the two caches.
pub open spec fn resolution_of(
    spaces: Map<Seq<char>, u32>,
    indexes: Map<u32, Map<Seq<char>, u32>>,
    space: Seq<char>,
    index: Seq<char>,
) -> Resolution {
    match cached_space(spaces, space) {
        None => Resolution::NeedSpaceId,
        Some(space_id) => match cached_index(indexes, space_id, index) {
            None => Resolution::NeedIndexId { space_id },
            Some(index_id) => Resolution::Resolved { space_id, index_id },
        },
    }
}

/// Takes the host's answer to a space-name lookup: the sentinel becomes a
/// not-found error naming the space, any other id is cached and returned.
pub fn get_space_id(spaces: &mut SpaceDictionary, space_name: &str, raw: u32) -> (r: Result<
    u32,
    BindError,
>)
    ensures
        final(spaces)@ == after_space_lookup(old(spaces)@, space_name@, raw),
        raw == BOX_ID_NIL ==> (r matches Err(BindError::NotFound { name, space_name: None })
            && name@ == space_name@),
        raw != BOX_ID_NIL ==> r == Ok::<u32, BindError>(raw),
{
    if raw == BOX_ID_NIL {
        Err(BindError::NotFound { name: space_name.to_owned(), space_name: None })
    } else {
        add_space_dict_entry(spaces, raw, space_name.to_owned());
        Ok(raw)
    }
}

/// Takes the host's answer to an index-name lookup within space `space_id`
/// (named `space_name`): the sentinel becomes a not-found error naming the
/// index and its space, any other id is cached and returned.
pub fn get_index_id(
    indexes: &mut IndexDictionary,
    space_name: &str,
    space_id: u32,
    index_name: &str,
    raw: u32,
) -> (r: Result<u32, BindError>)
    ensures
        final(indexes)@ == after_index_lookup(old(indexes)@, space_id, index_name@, raw),
        raw == BOX_ID_NIL ==> (r matches Err(BindError::NotFound { name, space_name: Some(s) })
            && name@ == index_name@ && s@ == space_name@),
        raw != BOX_ID_NIL ==> r == Ok::<u32, BindError>(raw),
{
    if raw == BOX_ID_NIL {
        Err(
            BindError::NotFound {
                name: index_name.to_owned(),
                space_name: Some(space_name.to_owned()),
            },
        )
    } else {
        add_space_index_dict_entry(indexes, space_id, raw, index_name.to_owned());
        Ok(raw)
    }
}

/// Consults the caches for `space_name` and `index_name` and says which
/// host lookup, if any, is still needed.
pub fn get_space_and_index_id(
    spaces: &SpaceDictionary,
    indexes: &IndexDictionary,
    space_name: &str,
    index_name: &str,
) -> (r: Resolution)
    ensures
        r == resolution_of(spaces@, indexes@, space_name@, index_name@),
{
    match search_space_id(spaces, space_name) {
        None => Resolution::NeedSpaceId,
        Some(space_id) => match search_index_id(indexes, space_id, index_name) {
            None => Resolution::NeedIndexId { space_id },
            Some(index_id) => Resolution::Resolved { space_id, index_id },
        },
    }
}

/// Once the host has answered a space lookup with a real id, the next
/// resolution of that name is served from the cache with the same id.
pub proof fn lemma_space_lookup_cached(d: Map<Seq<char>, u32>, name: Seq<char>, raw: u32)
    requires
        raw != BOX_ID_NIL,
    ensures
        cached_space(after_space_lookup(d, name, raw), name) == Some(raw),
{
}

/// Once both lookups have been answered with real ids, resolving the same
/// pair again needs no host lookup.
pub proof fn lemma_pair_resolution_cached(
    spaces: Map<Seq<char>, u32>,
    indexes: Map<u32, Map<Seq<char>, u32>>,
    space: Seq<char>,
    index: Seq<char>,
    space_raw: u32,
    index_raw: u32,
)
    requires
        space_raw != BOX_ID_NIL,
        index_raw != BOX_ID_NIL,
    ensures
        resolution_of(
            after_space_lookup(spaces, space, space_raw),
            after_index_lookup(indexes, space_raw, index, index_raw),
            space,
            index,
        ) == (Resolution::Resolved { space_id: space_raw, index_id: index_raw }),
{
}

/// A space lookup answered with a real id moves resolution of any pair in
/// that space past the space step.
pub proof fn lemma_space_answer_progresses(
    spaces: Map<Seq<char>, u32>,
    indexes: Map<u32, Map<Seq<char>, u32>>,
    space: Seq<char>,
    index: Seq<char>,
    raw: u32,
)
    requires
        raw != BOX_ID_NIL,
    ensures
        resolution_of(after_space_lookup(spaces, space, raw), indexes, space, index)
            != Resolution::NeedSpaceId,
{
}

/// A name the cache lacks and the host does not know leaves the cache as
/// it was, so every later attempt asks the host again and fails alike.
pub proof fn lemma_unknown_space_not_cached(d: Map<Seq<char>, u32>, name: Seq<char>)
    requires
        !d.contains_key(name),
    ensures
        cached_space(after_space_lookup(d, name, BOX_ID_NIL), name) == None::<u32>,
{
}

} // verus!
