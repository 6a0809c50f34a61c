use vstd::prelude::*;

use crate::pool::strings_view;

verus! {

/// How many refresh passes one cycle makes at most.
pub const REFRESH_PASSES: u32 = 10;

/// How many token-exchange rounds a provider gets at startup.
pub const STARTUP_TOKEN_ROUNDS: u32 = 3;

/// The wait between two passes of a cycle, in milliseconds.
pub const REFRESH_RETRY_INTERVAL_MS: u64 = 60_000;

/// One token-refresh cycle: a first pass over every provider, then passes
/// over those that failed the pass before, until none fails or the passes
/// run out.
pub struct RefreshSchedule {
    passes: u32,
    limit: u32,
    pending: Vec<String>,
}

impl RefreshSchedule {
    pub closed spec fn passes_spec(&self) -> nat {
        self.passes as nat
    }

    /// How many passes the cycle makes at most.
    pub closed spec fn limit_spec(&self) -> nat {
        self.limit as nat
    }

    /// The ids the next pass covers; empty stands for every provider.
    pub closed spec fn pending_spec(&self) -> Seq<Seq<char>> {
        strings_view(self.pending@)
    }

    /// A periodic cycle: at most `REFRESH_PASSES` passes.
    pub fn new() -> (r: Self)
        ensures
            r.passes_spec() == 0,
            r.limit_spec() == REFRESH_PASSES,
            r.pending_spec() == Seq::<Seq<char>>::empty(),
    {
        Self::with_passes(REFRESH_PASSES)
    }

    /// A cycle of at most `limit` passes.
    pub fn with_passes(limit: u32) -> (r: Self)
        ensures
            r.passes_spec() == 0,
            r.limit_spec() == limit,
            r.pending_spec() == Seq::<Seq<char>>::empty(),
    {
        let r = RefreshSchedule { passes: 0, limit, pending: Vec::new() };
        assert(r.pending_spec() =~= Seq::<Seq<char>>::empty());
        r
    }

    /// The ids the next pass covers; empty stands for every provider.
    pub fn pending(&self) -> (r: &Vec<String>)
        ensures
            strings_view(r@) == self.pending_spec(),
    {
        &self.pending
    }

    pub fn passes_done(&self) -> (r: u32)
        ensures
            r == self.passes_spec(),
    {
        self.passes
    }

    /// Records a pass whose failed providers are `failed`; tells whether
    /// another pass, over exactly those, is due.
    pub fn after_pass(&mut self, failed: Vec<String>) -> (go_on: bool)
        ensures
            final(self).limit_spec() == old(self).limit_spec(),
            final(self).passes_spec() == (if old(self).passes_spec() < old(self).limit_spec() {
                old(self).passes_spec() + 1
            } else {
                old(self).passes_spec()
            }),
            final(self).pending_spec() == strings_view(failed@),
            go_on == (failed@.len() > 0 && final(self).passes_spec() < final(self).limit_spec()),
    {
        if self.passes < self.limit {
            self.passes = self.passes + 1;
        }
        let go_on = failed.len() > 0 && self.passes < self.limit;
        self.pending = failed;
        go_on
    }
}

} // verus!
