use vstd::hash_map::StringHashMap;
use vstd::prelude::*;

use crate::clock::now_millis;

verus! {

/// The instant until which a provider paused at `now` for `duration`
/// milliseconds stays out of selection. It is kept wider than a clock
/// reading, so that it never saturates.
pub open spec fn pause_deadline(now: u64, duration: u64) -> u128 {
    (now + duration) as u128
}

/// A provider is selectable at `now` when it is registered and its
/// recorded instant is not after `now`.
pub open spec fn available(m: Map<Seq<char>, u128>, id: Seq<char>, now: u64) -> bool {
    m.contains_key(id) && m[id] <= now
}

/// One "not available until" instant per provider id.
pub struct ClientInfoManager {
    pause_times: StringHashMap<u128>,
}

impl View for ClientInfoManager {
    type V = Map<Seq<char>, u128>;

    closed spec fn view(&self) -> Self::V {
        self.pause_times@
    }
}

impl ClientInfoManager {
    pub fn new() -> (r: Self)
        ensures
            r@ == Map::<Seq<char>, u128>::empty(),
    {
        ClientInfoManager { pause_times: StringHashMap::new() }
    }

    /// Registers `client_id` as available from `now` on; returns how many
    /// providers are registered.
    pub fn add_at(&mut self, client_id: &str, now: u64) -> (r: usize)
        ensures
            final(self)@ == old(self)@.insert(client_id@, now as u128),
            r == final(self)@.len(),
    {
        self.pause_times.insert(client_id.to_owned(), now as u128);
        self.pause_times.len()
    }

    /// Registers `client_id` as available from the wall clock's now on.
    pub fn add(&mut self, client_id: &str) -> (r: usize)
        ensures
            final(self)@ == old(self)@.insert(client_id@, final(self)@[client_id@]),
            final(self)@[client_id@] <= u64::MAX,
            r == final(self)@.len(),
    {
        let now = now_millis();
        self.add_at(client_id, now)
    }

    pub fn is_available_at(&self, client_id: &str, now: u64) -> (r: bool)
        ensures
            r == available(self@, client_id@, now),
    {
        match self.pause_times.get(client_id) {
            Some(until) => *until <= now as u128,
            None => false,
        }
    }

    pub fn is_available(&self, client_id: &str) -> (r: bool)
        ensures
            exists|now: u64| r == available(self@, client_id@, now),
            !self@.contains_key(client_id@) ==> !r,
    {
        let now = now_millis();
        self.is_available_at(client_id, now)
    }

    /// Takes `client_id` out of selection for `duration` milliseconds from
    /// `now`; the latest pause replaces any earlier one. An id that was
    /// never registered gets no record, so it stays unselectable.
    pub fn pause_at(&mut self, client_id: &str, duration: u64, now: u64)
        ensures
            old(self)@.contains_key(client_id@) ==> final(self)@ == old(self)@.insert(
                client_id@,
                pause_deadline(now, duration),
            ),
            !old(self)@.contains_key(client_id@) ==> final(self)@ == old(self)@,
    {
        if self.pause_times.contains_key(client_id) {
            let until = now as u128 + duration as u128;
            self.pause_times.insert(client_id.to_owned(), until);
        }
    }

    /// Takes `client_id` out of selection for `duration` milliseconds from
    /// the wall clock's now. An id that was never registered gets no record.
    pub fn pause(&mut self, client_id: &str, duration: u64)
        ensures
            old(self)@.contains_key(client_id@) ==> exists|now: u64|
                final(self)@ == old(self)@.insert(
                    client_id@,
                    #[trigger] pause_deadline(now, duration),
                ),
            !old(self)@.contains_key(client_id@) ==> final(self)@ == old(self)@,
    {
        let now = now_millis();
        self.pause_at(client_id, duration, now);
    }
}

/// A provider paused at `t` for `d` is unavailable at every instant of
/// `[t, t + d)` and available from `t + d` on.
pub proof fn lemma_pause_gates(m: Map<Seq<char>, u128>, id: Seq<char>, t: u64, d: u64)
    ensures
        forall|q: u64|
            t <= q < t + d ==> !#[trigger] available(m.insert(id, pause_deadline(t, d)), id, q),
        forall|q: u64|
            q >= t + d ==> #[trigger] available(m.insert(id, pause_deadline(t, d)), id, q),
{
}

} // verus!
