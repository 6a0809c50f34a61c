use vstd::hash_map::StringHashMap;
use vstd::prelude::*;

use crate::clock::now_millis;
use crate::group::ClientGroup;

verus! {

/// How long a resolved link is served from the cache, in milliseconds
/// (just under two hours).
pub const FRESHNESS_WINDOW_MS: u64 = 7_000_000;

/// A link stored at `stored_at` is still served at `now`.
pub open spec fn is_fresh(stored_at: u64, now: u64) -> bool {
    now < stored_at + FRESHNESS_WINDOW_MS
}

/// What a lookup of `(group, path)` at `now` answers, given the cache's
/// contents `m`.
pub open spec fn cached_link(
    m: Map<(ClientGroup, Seq<char>), (Seq<char>, u64)>,
    group: ClientGroup,
    path: Seq<char>,
    now: u64,
) -> Option<Seq<char>> {
    if m.contains_key((group, path)) && is_fresh(m[(group, path)].1, now) {
        Some(m[(group, path)].0)
    } else {
        None
    }
}

pub open spec fn opt_view(o: Option<String>) -> Option<Seq<char>> {
    match o {
        Some(s) => Some(s@),
        None => None,
    }
}

/// Download links keyed by tier and resource path, each with the time it
/// was stored. Stale entries stay until overwritten; they are filtered on
/// read.
pub struct CacheManager {
    normal: StringHashMap<(String, u64)>,
    fast: StringHashMap<(String, u64)>,
}

impl View for CacheManager {
    type V = Map<(ClientGroup, Seq<char>), (Seq<char>, u64)>;

    /// The cache as a map from (tier, path) to (link, time stored).
    closed spec fn view(&self) -> Self::V {
        Map::new(
            |k: (ClientGroup, Seq<char>)| self.table(k.0).contains_key(k.1),
            |k: (ClientGroup, Seq<char>)| (self.table(k.0)[k.1].0@, self.table(k.0)[k.1].1),
        )
    }
}

impl CacheManager {
    pub closed spec fn table(&self, group: ClientGroup) -> Map<Seq<char>, (String, u64)> {
        match group {
            ClientGroup::Normal => self.normal@,
            ClientGroup::Fast => self.fast@,
        }
    }

    pub fn new() -> (r: Self)
        ensures
            r@ == Map::<(ClientGroup, Seq<char>), (Seq<char>, u64)>::empty(),
    {
        let r = CacheManager { normal: StringHashMap::new(), fast: StringHashMap::new() };
        assert(r@ =~= Map::<(ClientGroup, Seq<char>), (Seq<char>, u64)>::empty());
        r
    }

    /// The link for `(group, path)` if one was stored less than the
    /// freshness window before `now`.
    pub fn get_at(&self, group: &ClientGroup, path: &str, now: u64) -> (r: Option<String>)
        ensures
            opt_view(r) == cached_link(self@, *group, path@, now),
    {
        let table = match group {
            ClientGroup::Normal => &self.normal,
            ClientGroup::Fast => &self.fast,
        };
        match table.get(path) {
            Some(entry) => {
                let fresh = if now <= entry.1 {
                    true
                } else {
                    now - entry.1 < FRESHNESS_WINDOW_MS
                };
                if fresh {
                    Some(entry.0.clone())
                } else {
                    None
                }
            },
            None => None,
        }
    }

    /// The link for `(group, path)` if it is still fresh by the wall clock.
    pub fn get(&self, group: &ClientGroup, path: &str) -> (r: Option<String>)
        ensures
            exists|now: u64| opt_view(r) == cached_link(self@, *group, path@, now),
    {
        let now = now_millis();
        self.get_at(group, path, now)
    }

    /// Stores `value` for `(group, path)` as of `now`, replacing any entry.
    pub fn set_at(&mut self, group: &ClientGroup, path: &str, value: &str, now: u64)
        ensures
            final(self)@ == old(self)@.insert((*group, path@), (value@, now)),
    {
        let entry = (value.to_owned(), now);
        match group {
            ClientGroup::Normal => self.normal.insert(path.to_owned(), entry),
            ClientGroup::Fast => self.fast.insert(path.to_owned(), entry),
        }
        assert(self@ =~= old(self)@.insert((*group, path@), (value@, now)));
    }

    /// Stores `value` for `(group, path)` as of the wall clock.
    pub fn set(&mut self, group: &ClientGroup, path: &str, value: &str)
        ensures
            exists|now: u64|
                final(self)@ == old(self)@.insert((*group, path@), (value@, now)),
    {
        let now = now_millis();
        self.set_at(group, path, value, now);
    }
}

/// A link just stored is served back at once, and no longer once the
/// freshness window has gone by.
pub proof fn lemma_set_then_get(
    m: Map<(ClientGroup, Seq<char>), (Seq<char>, u64)>,
    group: ClientGroup,
    path: Seq<char>,
    url: Seq<char>,
    t: u64,
)
    ensures
        cached_link(m.insert((group, path), (url, t)), group, path, t) == Some(url),
        forall|later: u64|
            later >= t + FRESHNESS_WINDOW_MS ==> #[trigger] cached_link(
                m.insert((group, path), (url, t)),
                group,
                path,
                later,
            ) == None::<Seq<char>>,
{
}

} // verus!
