use vstd::prelude::*;

use crate::cache::{cached_link, CacheManager};
use crate::group::ClientGroup;
use crate::pool::strings_view;
use crate::provider::ProviderFailure;
use crate::select::{ResolveError, Selection};

verus! {

/// Starts a request for `(group, path)` at `now`: a fresh cached link
/// answers it at once; otherwise a selection over `candidates` begins.
pub fn begin(
    cache: &CacheManager,
    group: &ClientGroup,
    path: &str,
    candidates: Vec<String>,
    now: u64,
) -> (r: Result<String, Selection>)
    ensures
        match r {
            Ok(u) => cached_link(cache@, *group, path@, now) == Some(u@),
            Err(sel) => {
                &&& cached_link(cache@, *group, path@, now) == None::<Seq<char>>
                &&& sel.inv()
                &&& sel.cands() == strings_view(candidates@)
                &&& sel.pos_spec() == 0
                &&& sel.last_spec() == None::<ProviderFailure>
            },
        },
{
    match cache.get_at(group, path, now) {
        Some(u) => Ok(u),
        None => Err(Selection::new(candidates)),
    }
}

/// Ends a request for `(group, path)` decided at `now`: a link is cached,
/// a failure leaves the cache as it was.
pub fn settle(
    cache: &mut CacheManager,
    group: &ClientGroup,
    path: &str,
    decision: &Result<String, ResolveError>,
    now: u64,
)
    ensures
        match decision {
            Ok(u) => final(cache)@ == old(cache)@.insert((*group, path@), (u@, now)),
            Err(_) => final(cache)@ == old(cache)@,
        },
{
    if let Ok(u) = decision {
        cache.set_at(group, path, u.as_str(), now);
    }
}

} // verus!
