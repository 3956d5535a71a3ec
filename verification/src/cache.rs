//! The revision cache: the working set of revisions that are not yet known
//! to be durable, keyed by revision id.
//!
//! The cache is a `dashmap::DashMap`. Verus cannot look inside one, so the
//! map's contents are given a name, [`cached`], and every call into the map
//! goes through a small function whose contract is taken on trust from the
//! map's documentation and source. [`RevisionCache`] is proved on top of them.
//!
//! The contracts describe a map that nobody else touches during a call:
//! whatever changes the map takes it by `&mut`, and no call hands out a
//! reference into the map, so none of the map's locks outlives a call.

use crate::entities::{ContextView, RevisionContext};
use crate::errors::DocError;
use dashmap::DashMap;
use vstd::prelude::*;

verus! {

/// Trusted: the type `dashmap::DashMap`, of which Verus is told nothing but
/// that it exists.
#[verifier::external_type_specification]
#[verifier::external_body]
#[verifier::reject_recursive_types(K)]
#[verifier::reject_recursive_types(V)]
#[verifier::reject_recursive_types(S)]
pub struct ExDashMap<K, V, S>(DashMap<K, V, S>);

/// What a map holds: for each revision id the value stored under it.
pub uninterp spec fn cached(map: DashMap<i64, RevisionContext>) -> Map<i64, ContextView>;

/// Whether `entries` lists a map's contents: every key once, in any order,
/// each beside the value stored under it.
pub open spec fn lists(entries: Seq<(i64, RevisionContext)>, contents: Map<i64, ContextView>) -> bool {
    &&& forall|i: int, j: int| 0 <= i < j < entries.len() ==> entries[i].0 != entries[j].0
    &&& forall|i: int|
        0 <= i < entries.len() ==> contents.dom().contains(#[trigger] entries[i].0)
            && entries[i].1@ == contents[entries[i].0]
    &&& forall|id: i64|
        contents.dom().contains(id) ==> exists|i: int|
            0 <= i < entries.len() && #[trigger] entries[i].0 == id
}

/// Trusted: `DashMap::new` makes a map that holds nothing.
#[verifier::external_body]
fn map_new() -> (fresh: DashMap<i64, RevisionContext>)
    ensures
        cached(fresh).dom() == Set::<i64>::empty(),
{
    DashMap::new()
}

/// Trusted: `DashMap::contains_key` tells whether a value is stored under
/// the key.
#[verifier::external_body]
fn map_contains_key(map: &DashMap<i64, RevisionContext>, rev_id: i64) -> (found: bool)
    ensures
        found == cached(*map).dom().contains(rev_id),
{
    map.contains_key(&rev_id)
}

/// Trusted: `DashMap::insert` stores the value under the key, replacing and
/// returning the value that was there.
#[verifier::external_body]
fn map_insert(map: &mut DashMap<i64, RevisionContext>, rev_id: i64, context: RevisionContext) -> (replaced:
    Option<RevisionContext>)
    ensures
        cached(*final(map)) == cached(*old(map)).insert(rev_id, context@),
        match replaced {
            Some(before) => cached(*old(map)).dom().contains(rev_id) && before@ == cached(
                *old(map),
            )[rev_id],
            None => !cached(*old(map)).dom().contains(rev_id),
        },
{
    map.insert(rev_id, context)
}

/// Trusted: `DashMap::get` finds the value stored under the key, if any; the
/// value is handed out as a copy.
#[verifier::external_body]
fn map_get(map: &DashMap<i64, RevisionContext>, rev_id: i64) -> (found: Option<RevisionContext>)
    ensures
        match found {
            Some(context) => cached(*map).dom().contains(rev_id) && context@ == cached(
                *map,
            )[rev_id],
            None => !cached(*map).dom().contains(rev_id),
        },
{
    map.get(&rev_id).map(|entry| entry.value().clone())
}

/// Trusted: `DashMap::alter` replaces the value stored under the key by what
/// the function makes of it, and does nothing for a key that is absent. The
/// function handed over is [`RevisionContext::acked`].
#[verifier::external_body]
fn map_alter_acked(map: &mut DashMap<i64, RevisionContext>, rev_id: i64)
    ensures
        cached(*final(map)) == if cached(*old(map)).dom().contains(rev_id) {
            cached(*old(map)).insert(rev_id, cached(*old(map))[rev_id].acked())
        } else {
            cached(*old(map))
        },
{
    map.alter(&rev_id, |_, context| context.acked())
}

/// Trusted: `DashMap::is_empty` tells whether the map holds nothing.
#[verifier::external_body]
fn map_is_empty(map: &DashMap<i64, RevisionContext>) -> (empty: bool)
    ensures
        empty == (cached(*map).dom() =~= Set::<i64>::empty()),
{
    map.is_empty()
}

/// Trusted: `DashMap::iter` visits every entry once, in an order that the
/// map does not promise; each entry is handed out as a copy.
#[verifier::external_body]
fn map_iter(map: &DashMap<i64, RevisionContext>) -> (entries: Vec<(i64, RevisionContext)>)
    ensures
        lists(entries@, cached(*map)),
{
    map.iter().map(|entry| (*entry.key(), entry.value().clone())).collect()
}

/// Trusted: `DashMap::retain` keeps the entries for which the function
/// answers `true` and discards the others. The function handed over is
/// [`unlisted`].
#[verifier::external_body]
fn map_retain_unlisted(map: &mut DashMap<i64, RevisionContext>, ids: &Vec<i64>)
    ensures
        cached(*final(map)) == cached(*old(map)).remove_keys(ids@.to_set()),
{
    map.retain(|rev_id, _| unlisted(ids, *rev_id))
}

/// Whether `rev_id` is none of `ids`.
pub fn unlisted(ids: &Vec<i64>, rev_id: i64) -> (absent: bool)
    ensures
        absent == !ids@.contains(rev_id),
{
    let mut i: usize = 0;
    while i < ids.len()
        invariant
            i <= ids.len(),
            forall|j: int| 0 <= j < i ==> ids@[j] != rev_id,
        decreases ids.len() - i,
    {
        if ids[i] == rev_id {
            return false;
        }
        i += 1;
    }
    true
}

/// The cached revisions of one document.
pub struct RevisionCache {
    map: DashMap<i64, RevisionContext>,
}

impl View for RevisionCache {
    type V = Map<i64, ContextView>;

    closed spec fn view(&self) -> Map<i64, ContextView> {
        cached(self.map)
    }
}

/// Every entry is stored under the id of its own revision.
pub open spec fn keyed_by_rev_id(contents: Map<i64, ContextView>) -> bool {
    forall|id: i64| contents.dom().contains(id) ==> (#[trigger] contents[id]).revision.rev_id == id
}

impl RevisionCache {
    /// The cache's invariant.
    pub open spec fn wf(&self) -> bool {
        keyed_by_rev_id(self@)
    }

    /// An empty cache.
    pub fn new() -> (cache: RevisionCache)
        ensures
            cache@ == Map::<i64, ContextView>::empty(),
            cache.wf(),
    {
        let cache = RevisionCache { map: map_new() };
        assert(cache@ =~= Map::<i64, ContextView>::empty());
        cache
    }

    /// Whether a revision with this id is cached.
    pub fn contains(&self, rev_id: i64) -> (found: bool)
        ensures
            found == self@.dom().contains(rev_id),
    {
        map_contains_key(&self.map, rev_id)
    }

    /// Whether nothing is cached.
    pub fn is_empty(&self) -> (empty: bool)
        ensures
            empty == (self@.dom() =~= Set::<i64>::empty()),
    {
        map_is_empty(&self.map)
    }

    /// Caches `context` under the id of its revision. An id that is already
    /// cached is refused, and the cache stays as it was.
    pub fn insert(&mut self, context: RevisionContext) -> (done: Result<(), DocError>)
        requires
            old(self).wf(),
        ensures
            final(self).wf(),
            old(self)@.dom().contains(context.revision.rev_id) ==> done == Err::<(), DocError>(
                DocError::DuplicateRevision { rev_id: context.revision.rev_id },
            ) && final(self)@ == old(self)@,
            !old(self)@.dom().contains(context.revision.rev_id) ==> done == Ok::<(), DocError>(())
                && final(self)@ == old(self)@.insert(context.revision.rev_id, context@),
    {
        let rev_id = context.revision.rev_id;
        if map_contains_key(&self.map, rev_id) {
            return Err(DocError::duplicate_rev(rev_id));
        }
        let _ = map_insert(&mut self.map, rev_id, context);
        Ok(())
    }

    /// The cached entry of `rev_id`, if there is one.
    pub fn get(&self, rev_id: i64) -> (found: Option<RevisionContext>)
        ensures
            match found {
                Some(context) => self@.dom().contains(rev_id) && context@ == self@[rev_id],
                None => !self@.dom().contains(rev_id),
            },
    {
        map_get(&self.map, rev_id)
    }

    /// Marks the entry of `rev_id` as acknowledged. Nothing happens when the
    /// id is not cached, nor when the entry is acknowledged already.
    pub fn mark_acked(&mut self, rev_id: i64)
        requires
            old(self).wf(),
        ensures
            final(self).wf(),
            final(self)@ == if old(self)@.dom().contains(rev_id) {
                old(self)@.insert(rev_id, old(self)@[rev_id].acked())
            } else {
                old(self)@
            },
    {
        map_alter_acked(&mut self.map, rev_id);
    }

    /// Every cached entry beside its id, each once, in no particular order.
    pub fn entries(&self) -> (entries: Vec<(i64, RevisionContext)>)
        ensures
            lists(entries@, self@),
    {
        map_iter(&self.map)
    }

    /// Removes the entries of exactly the listed ids; all others stay.
    pub fn evict(&mut self, ids: &Vec<i64>)
        requires
            old(self).wf(),
        ensures
            final(self).wf(),
            final(self)@ == old(self)@.remove_keys(ids@.to_set()),
    {
        map_retain_unlisted(&mut self.map, ids);
    }
}

} // verus!
