use vstd::prelude::*;

use crate::availability::{available, pause_deadline, ClientInfoManager};
use crate::clock::now_millis;
use crate::config::MSGraphConfig;
use crate::provider::{
    drive_outcome, drive_set, fresh_client, reply_view, token_outcome, tokens_rotated,
    MSGraphClient, ProviderError, ProviderFailure,
};

verus! {

/// How long a provider that failed to serve is kept out of selection, in
/// milliseconds.
pub const PAUSE_DURATION_MS: u64 = 180_000;

pub open spec fn client_ids(clients: Seq<MSGraphClient>) -> Seq<Seq<char>> {
    clients.map_values(|c: MSGraphClient| c.config_spec().id@)
}

pub open spec fn distinct(s: Seq<Seq<char>>) -> bool {
    forall|i: int, j: int| 0 <= i < s.len() && 0 <= j < s.len() && i != j ==> s[i] != s[j]
}

/// The ids of `ids` that a refresh pass over `need` covers, in order: all of
/// them when `need` is empty, else those that `need` names.
pub open spec fn refresh_targets_of(ids: Seq<Seq<char>>, need: Seq<Seq<char>>) -> Seq<Seq<char>>
    decreases ids.len(),
{
    if ids.len() == 0 {
        Seq::empty()
    } else {
        let rest = refresh_targets_of(ids.drop_last(), need);
        if need.len() == 0 || need.contains(ids.last()) {
            rest.push(ids.last())
        } else {
            rest
        }
    }
}

/// Every record of `m` says "available from `now` on".
pub open spec fn registered_at(m: Map<Seq<char>, u128>, now: u64) -> bool {
    forall|k: Seq<char>| #[trigger] m.contains_key(k) ==> m[k] == now as u128
}

/// Entry `j` of `configs` is the last one with its id.
pub open spec fn last_with_id(configs: Seq<MSGraphConfig>, j: int) -> bool {
    &&& 0 <= j < configs.len()
    &&& forall|j2: int| j < j2 < configs.len() ==> #[trigger] configs[j2].id@ != configs[j].id@
}

/// The entries of `ids` whose flag in `ok` is down, in order.
pub open spec fn failed_of(ids: Seq<Seq<char>>, ok: Seq<bool>) -> Seq<Seq<char>>
    decreases ids.len(),
{
    if ids.len() == 0 {
        Seq::empty()
    } else {
        let rest = failed_of(ids.drop_last(), ok);
        if ok[ids.len() - 1] {
            rest
        } else {
            rest.push(ids.last())
        }
    }
}

pub open spec fn strings_view(v: Seq<String>) -> Seq<Seq<char>> {
    v.map_values(|s: String| s@)
}

fn find_client(clients: &Vec<MSGraphClient>, id: &str) -> (r: Option<usize>)
    ensures
        match r {
            Some(k) => k < clients@.len() && client_ids(clients@)[k as int] == id@,
            None => !client_ids(clients@).contains(id@),
        },
{
    let key = id.to_owned();
    let mut k: usize = 0;
    while k < clients.len()
        invariant
            k <= clients@.len(),
            key@ == id@,
            forall|j: int| 0 <= j < k ==> client_ids(clients@)[j] != id@,
        decreases clients@.len() - k,
    {
        if *clients[k].id() == key {
            return Some(k);
        }
        k += 1;
    }
    proof {
        assert forall|j: int| 0 <= j < client_ids(clients@).len() implies client_ids(
            clients@,
        )[j] != id@ by {}
    }
    None
}

/// The fleet of provider clients, at most one per id, and the instant each
/// becomes selectable again.
pub struct ResourceProvider {
    clients: Vec<MSGraphClient>,
    client_info_manager: ClientInfoManager,
}

impl ResourceProvider {
    pub closed spec fn clients_spec(&self) -> Seq<MSGraphClient> {
        self.clients@
    }

    /// The providers' ids, in fleet order.
    pub open spec fn ids(&self) -> Seq<Seq<char>> {
        client_ids(self.clients_spec())
    }

    /// The availability records.
    pub closed spec fn pauses(&self) -> Map<Seq<char>, u128> {
        self.client_info_manager@
    }

    /// No id twice, and one availability record for each provider and for
    /// nothing else.
    pub open spec fn wf(&self) -> bool {
        &&& distinct(self.ids())
        &&& forall|k: Seq<char>| #[trigger]
            self.pauses().contains_key(k) <==> self.ids().contains(k)
    }

    /// Builds the fleet from `configs` with every provider selectable from
    /// `now` on; a later config replaces an earlier one with the same id.
    pub fn new_at(configs: &Vec<MSGraphConfig>, now: u64) -> (r: Self)
        ensures
            r.wf(),
            forall|k: Seq<char>|
                r.ids().contains(k) <==> exists|j: int|
                    0 <= j < configs@.len() && #[trigger] configs@[j].id@ == k,
            forall|i: int|
                0 <= i < r.ids().len() ==> exists|j: int|
                    0 <= j < configs@.len() && last_with_id(configs@, j) && configs@[j]
                        == #[trigger] r.clients_spec()[i].config_spec(),
            forall|i: int|
                0 <= i < r.ids().len() ==> fresh_client(
                    #[trigger] r.clients_spec()[i],
                    r.clients_spec()[i].config_spec(),
                ),
            registered_at(r.pauses(), now),
    {
        let mut clients: Vec<MSGraphClient> = Vec::new();
        let mut tracker = ClientInfoManager::new();
        let mut i: usize = 0;
        while i < configs.len()
            invariant
                i <= configs@.len(),
                distinct(client_ids(clients@)),
                forall|k: Seq<char>| #[trigger]
                    tracker@.contains_key(k) <==> client_ids(clients@).contains(k),
                forall|k: Seq<char>| #[trigger] tracker@.contains_key(k) ==> tracker@[k] == now as u128,
                forall|k: Seq<char>|
                    client_ids(clients@).contains(k) <==> exists|j: int|
                        0 <= j < i && #[trigger] configs@[j].id@ == k,
                forall|m: int|
                    0 <= m < clients@.len() ==> exists|j: int|
                        0 <= j < i && last_with_id(configs@.take(i as int), j) && configs@[j]
                            == #[trigger] clients@[m].config_spec(),
                forall|m: int|
                    0 <= m < clients@.len() ==> fresh_client(
                        #[trigger] clients@[m],
                        clients@[m].config_spec(),
                    ),
            decreases configs@.len() - i,
        {
            let c = configs[i].snapshot();
            let ghost before = clients@;
            let found = find_client(&clients, &configs[i].id);
            match found {
                Some(k) => {
                    clients[k] = MSGraphClient::new(c);
                    proof {
                        assert(client_ids(clients@) =~= client_ids(before));
                    }
                },
                None => {
                    clients.push(MSGraphClient::new(c));
                    proof {
                        assert(client_ids(clients@) =~= client_ids(before).push(configs@[i as int].id@));

                    }
                },
            }
            tracker.add_at(&configs[i].id, now);
            proof {
                let ids = client_ids(clients@);
                assert(ids.contains(configs@[i as int].id@)) by {
                    match found {
                        Some(k) => {
                            assert(ids[k as int] == configs@[i as int].id@);
                        },
                        None => {
                            assert(ids[before.len() as int] == configs@[i as int].id@);
                        },
                    }
                }
                assert forall|k: Seq<char>| ids.contains(k) <==> exists|j: int|
                    0 <= j < i + 1 && #[trigger] configs@[j].id@ == k by {
                    if ids.contains(k) && k != configs@[i as int].id@ {
                        let w = choose|w: int| 0 <= w < ids.len() && ids[w] == k;
                        assert(client_ids(before).contains(k)) by {
                            match found {
                                Some(kk) => {
                                    assert(client_ids(before)[w] == k);
                                },
                                None => {
                                    assert(w < before.len());
                                    assert(client_ids(before)[w] == k);
                                },
                            }
                        }
                    }
                    if exists|j: int| 0 <= j < i && #[trigger] configs@[j].id@ == k {
                        assert(client_ids(before).contains(k));
                        let w = choose|w: int| 0 <= w < client_ids(before).len() && client_ids(before)[w] == k;
                        assert(ids[w] == k);
                    }
                }
                let ci = configs@[i as int];
                let t0 = configs@.take(i as int);
                let t1 = configs@.take(i + 1);
                assert forall|m: int| 0 <= m < clients@.len() implies exists|j: int|
                    0 <= j < i + 1 && last_with_id(t1, j) && configs@[j]
                        == #[trigger] clients@[m].config_spec() by {
                    let is_new = match found {
                        Some(k) => m == k,
                        None => m == before.len(),
                    };
                    if is_new {
                        assert(clients@[m].config_spec() == ci);
                        assert(t1.len() == i + 1);
                        assert(last_with_id(t1, i as int));
                        assert(0 <= i < i + 1 && last_with_id(t1, i as int) && configs@[i as int]
                            == clients@[m].config_spec());
                    } else {
                        assert(clients@[m] == before[m]);
                        let j = choose|j: int|
                            0 <= j < i && last_with_id(t0, j) && configs@[j]
                                == #[trigger] before[m].config_spec();
                        assert(ids[m] == configs@[j].id@);
                        assert(ci.id@ != configs@[j].id@) by {
                            match found {
                                Some(k) => {
                                    assert(ids[k as int] == ci.id@);
                                    assert(m != k);
                                },
                                None => {
                                    assert(!client_ids(before).contains(ci.id@));
                                    assert(client_ids(before)[m] == configs@[j].id@);
                                },
                            }
                        }
                        assert(t1.len() == i + 1);
                        assert(t1[j] == configs@[j] && t0[j] == configs@[j]);
                        assert forall|j2: int| j < j2 < t1.len() implies #[trigger] t1[j2].id@ != t1[j].id@ by {
                            if j2 < i {
                                assert(t1[j2] == t0[j2]);
                            } else {
                                assert(t1[j2] == ci);
                            }
                        }
                        assert(last_with_id(t1, j));
                        assert(0 <= j < i + 1 && last_with_id(t1, j) && configs@[j]
                            == clients@[m].config_spec());
                    }
                }
            }
            i += 1;
        }
        assert(configs@.take(i as int) =~= configs@);
        ResourceProvider { clients, client_info_manager: tracker }
    }

    /// Builds the fleet from `configs`, every provider selectable from the
    /// wall clock's now on.
    pub fn new(configs: &Vec<MSGraphConfig>) -> (r: Self)
        ensures
            r.wf(),
            forall|k: Seq<char>|
                r.ids().contains(k) <==> exists|j: int|
                    0 <= j < configs@.len() && #[trigger] configs@[j].id@ == k,
            forall|i: int|
                0 <= i < r.ids().len() ==> exists|j: int|
                    0 <= j < configs@.len() && last_with_id(configs@, j) && configs@[j]
                        == #[trigger] r.clients_spec()[i].config_spec(),
            forall|i: int|
                0 <= i < r.ids().len() ==> fresh_client(
                    #[trigger] r.clients_spec()[i],
                    r.clients_spec()[i].config_spec(),
                ),
            exists|now: u64| #[trigger] registered_at(r.pauses(), now),
    {
        let now = now_millis();
        let r = Self::new_at(configs, now);
        assert(registered_at(r.pauses(), now));
        r
    }

    pub fn len(&self) -> (r: usize)
        ensures
            r == self.ids().len(),
    {
        self.clients.len()
    }

    /// The client with id `client_id`, if the fleet has one.
    pub fn client(&self, client_id: &str) -> (r: Option<&MSGraphClient>)
        ensures
            match r {
                Some(c) => self.ids().contains(client_id@) && c.config_spec().id@ == client_id@,
                None => !self.ids().contains(client_id@),
            },
    {
        match find_client(&self.clients, client_id) {
            Some(k) => Some(&self.clients[k]),
            None => None,
        }
    }

    /// Whether `client_id` may be selected at `now`; never for an id
    /// outside the fleet.
    pub fn is_available_at(&self, client_id: &str, now: u64) -> (r: bool)
        requires
            self.wf(),
        ensures
            r == available(self.pauses(), client_id@, now),
            r ==> self.ids().contains(client_id@),
    {
        let r = self.client_info_manager.is_available_at(client_id, now);
        proof {
            if r {
                assert(self.pauses().contains_key(client_id@));
            }
        }
        r
    }

    /// Keeps `client_id` out of selection for the fixed cooldown from
    /// `now`. An id outside the fleet is ignored: it gets no record, so it
    /// stays unselectable and the fleet keeps one record per provider.
    pub fn pause_client_at(&mut self, client_id: &str, now: u64)
        requires
            old(self).wf(),
        ensures
            final(self).wf(),
            final(self).clients_spec() == old(self).clients_spec(),
            final(self).pauses() == (if old(self).ids().contains(client_id@) {
                old(self).pauses().insert(client_id@, pause_deadline(now, PAUSE_DURATION_MS))
            } else {
                old(self).pauses()
            }),
    {
        if find_client(&self.clients, client_id).is_some() {
            self.client_info_manager.pause_at(client_id, PAUSE_DURATION_MS, now);
            proof {
                assert(old(self).pauses().contains_key(client_id@));
                assert forall|k: Seq<char>| #[trigger]
                    self.pauses().contains_key(k) <==> self.ids().contains(k) by {
                    assert(self.pauses().contains_key(k) <==> old(self).pauses().contains_key(k));
                }
            }
        }
    }

    /// Keeps `client_id` out of selection for the fixed cooldown from the
    /// wall clock's now. An id outside the fleet is ignored.
    pub fn pause_client(&mut self, client_id: &str)
        requires
            old(self).wf(),
        ensures
            final(self).wf(),
            final(self).clients_spec() == old(self).clients_spec(),
            old(self).ids().contains(client_id@) ==> exists|now: u64|
                final(self).pauses() == old(self).pauses().insert(
                    client_id@,
                    #[trigger] pause_deadline(now, PAUSE_DURATION_MS),
                ),
            !old(self).ids().contains(client_id@) ==> final(self).pauses() == old(self).pauses(),
    {
        let now = now_millis();
        self.pause_client_at(client_id, now);
    }

    /// The current configuration of every provider, rotated refresh tokens
    /// included, in fleet order.
    pub fn snapshot(&self) -> (r: Vec<MSGraphConfig>)
        ensures
            r@.len() == self.clients_spec().len(),
            forall|i: int| 0 <= i < r@.len() ==> r@[i] == #[trigger] self.clients_spec()[i].config_spec(),
    {
        let mut out: Vec<MSGraphConfig> = Vec::new();
        let mut i: usize = 0;
        while i < self.clients.len()
            invariant
                i <= self.clients@.len(),
                out@.len() == i,
                forall|j: int| 0 <= j < i ==> out@[j] == #[trigger] self.clients@[j].config_spec(),
            decreases self.clients@.len() - i,
        {
            out.push(self.clients[i].config().snapshot());
            i += 1;
        }
        out
    }

    /// The ids that a refresh pass covers: every provider when
    /// `need_refresh` is empty, else those it names, in fleet order.
    pub fn refresh_targets(&self, need_refresh: &Vec<String>) -> (r: Vec<String>)
        ensures
            strings_view(r@) == refresh_targets_of(self.ids(), strings_view(need_refresh@)),
    {
        let ghost ids = self.ids();
        let ghost need = strings_view(need_refresh@);
        let mut out: Vec<String> = Vec::new();
        let mut i: usize = 0;
        while i < self.clients.len()
            invariant
                i <= self.clients@.len(),
                ids == client_ids(self.clients@),
                need == strings_view(need_refresh@),
                strings_view(out@) == refresh_targets_of(ids.take(i as int), need),
            decreases self.clients@.len() - i,
        {
            let id = self.clients[i].id();
            let mut wanted = need_refresh.len() == 0;
            let mut j: usize = 0;
            while j < need_refresh.len() && !wanted
                invariant
                    j <= need_refresh@.len(),
                    need == strings_view(need_refresh@),
                    id@ == ids[i as int],
                    i < ids.len(),
                    wanted <==> (need.len() == 0 || need.take(j as int).contains(id@)),
                decreases need_refresh@.len() - j,
            {
                let ghost j0 = j as int;
                if need_refresh[j] == *id {
                    wanted = true;
                }
                j += 1;
                proof {
                    let t0 = need.take(j0);
                    let t1 = need.take(j0 + 1);
                    assert(t1 =~= t0.push(need[j0]));
                    if wanted {
                        assert(t1[j0] == id@);
                    } else {
                        assert forall|w: int| 0 <= w < t1.len() implies t1[w] != id@ by {
                            if w < j0 {
                                assert(t1[w] == t0[w]);
                            }
                        }
                    }
                }
            }
            proof {
                assert(wanted <==> (need.len() == 0 || need.contains(id@))) by {
                    if need.take(j as int).contains(id@) {
                        let w = choose|w: int| 0 <= w < need.take(j as int).len() && need.take(j as int)[w] == id@;
                        assert(need[w] == id@);
                    }
                    if !wanted && need.len() != 0 {
                        assert(j == need.len());
                        assert(need.take(j as int) =~= need);
                    }
                }
                assert(ids.take(i + 1).drop_last() =~= ids.take(i as int));
                assert(ids.take(i + 1).last() == id@);
            }
            if wanted {
                out.push(id.clone());
                proof {
                    assert(strings_view(out@) =~= refresh_targets_of(ids.take(i as int), need).push(id@));
                }
            }
            i += 1;
        }
        proof {
            assert(ids.take(i as int) =~= ids);
        }
        out
    }

    /// Takes in the reply to the token exchange of provider `client_id`;
    /// `None` stands for a request that failed in transport. Only that
    /// provider's tokens can change, and only on success.
    pub fn apply_token_response(&mut self, client_id: &str, reply: Option<(u16, &str)>) -> (r:
        Result<(), ProviderError>)
        requires
            old(self).wf(),
        ensures
            final(self).wf(),
            final(self).ids() == old(self).ids(),
            final(self).pauses() == old(self).pauses(),
            !old(self).ids().contains(client_id@) ==> r == Err::<(), ProviderError>(
                ProviderError::Unavailable(ProviderFailure::UnknownProvider),
            ) && *final(self) == *old(self),
            forall|k: int|
                0 <= k < old(self).ids().len() && #[trigger] old(self).ids()[k] == client_id@ ==> (
                match token_outcome(reply_view(reply)) {
                    Ok((a, t)) => r is Ok && tokens_rotated(old(self).clients_spec()[k], final(self).clients_spec()[k], a, t),
                    Err(e) => r == Err::<(), ProviderError>(e) && final(self).clients_spec()
                        == old(self).clients_spec(),
                }),
            forall|i: int|
                0 <= i < old(self).ids().len() && old(self).ids()[i] != client_id@ ==> #[trigger] final(self).clients_spec()[i] == old(self).clients_spec()[i],
    {
        match find_client(&self.clients, client_id) {
            None => Err(ProviderError::Unavailable(ProviderFailure::UnknownProvider)),
            Some(k) => {
                let ghost before = self.clients@;
                let mut client = self.clients.remove(k);
                let r = client.apply_token_response(reply);
                self.clients.insert(k, client);
                proof {
                    assert(self.clients@ =~= before.update(k as int, self.clients@[k as int]));
                    assert(client_ids(self.clients@) =~= client_ids(before));
                    if r is Err {
                        assert(self.clients@ =~= before);
                    }
                    assert(self.ids() =~= old(self).ids());
                    assert(self.pauses() == old(self).pauses());
                    assert(distinct(self.ids()));
                    assert forall|key: Seq<char>| #[trigger]
                        self.pauses().contains_key(key) <==> self.ids().contains(key) by {
                        assert(old(self).pauses().contains_key(key) <==> old(self).ids().contains(key));
                    }
                    assert forall|i: int|
                        0 <= i < old(self).ids().len() && old(self).ids()[i] != client_id@ implies #[trigger] self.clients_spec()[i] == old(self).clients_spec()[i] by {
                        assert(i != k);
                    }
                    assert forall|j: int|
                        0 <= j < old(self).ids().len() && #[trigger] old(self).ids()[j] == client_id@ implies j == k by {
                        assert(old(self).ids()[k as int] == client_id@);
                    }
                    assert(self.clients_spec()[k as int] == self.clients@[k as int]);
                    assert(old(self).clients_spec()[k as int] == before[k as int]);
                }
                r
            },
        }
    }

    /// Takes in the reply to the storage-root lookup of provider
    /// `client_id`; `None` stands for a request whose every attempt failed
    /// in transport. Only that provider's storage root can change, and only
    /// on success.
    pub fn apply_drive_response(&mut self, client_id: &str, reply: Option<(u16, &str)>) -> (r:
        Result<(), ProviderError>)
        requires
            old(self).wf(),
        ensures
            final(self).wf(),
            final(self).ids() == old(self).ids(),
            final(self).pauses() == old(self).pauses(),
            !old(self).ids().contains(client_id@) ==> r == Err::<(), ProviderError>(
                ProviderError::Unavailable(ProviderFailure::UnknownProvider),
            ) && *final(self) == *old(self),
            forall|k: int|
                0 <= k < old(self).ids().len() && #[trigger] old(self).ids()[k] == client_id@ ==> (
                match drive_outcome(reply_view(reply)) {
                    Ok(id) => r is Ok && drive_set(old(self).clients_spec()[k], final(self).clients_spec()[k], id),
                    Err(e) => r == Err::<(), ProviderError>(e) && final(self).clients_spec()
                        == old(self).clients_spec(),
                }),
            forall|i: int|
                0 <= i < old(self).ids().len() && old(self).ids()[i] != client_id@ ==> #[trigger] final(self).clients_spec()[i] == old(self).clients_spec()[i],
    {
        match find_client(&self.clients, client_id) {
            None => Err(ProviderError::Unavailable(ProviderFailure::UnknownProvider)),
            Some(k) => {
                let ghost before = self.clients@;
                let mut client = self.clients.remove(k);
                let r = client.apply_drive_response(reply);
                self.clients.insert(k, client);
                proof {
                    assert(self.clients@ =~= before.update(k as int, self.clients@[k as int]));
                    assert(client_ids(self.clients@) =~= client_ids(before));
                    if r is Err {
                        assert(self.clients@ =~= before);
                    }
                    assert(self.ids() =~= old(self).ids());
                    assert(self.pauses() == old(self).pauses());
                    assert forall|key: Seq<char>| #[trigger]
                        self.pauses().contains_key(key) <==> self.ids().contains(key) by {
                        assert(old(self).pauses().contains_key(key) <==> old(self).ids().contains(key));
                    }
                    assert forall|i: int|
                        0 <= i < old(self).ids().len() && old(self).ids()[i] != client_id@ implies #[trigger] self.clients_spec()[i] == old(self).clients_spec()[i] by {
                        assert(i != k);
                    }
                    assert forall|j: int|
                        0 <= j < old(self).ids().len() && #[trigger] old(self).ids()[j] == client_id@ implies j == k by {
                        assert(old(self).ids()[k as int] == client_id@);
                    }
                    assert(self.clients_spec()[k as int] == self.clients@[k as int]);
                    assert(old(self).clients_spec()[k as int] == before[k as int]);
                }
                r
            },
        }
    }
}

/// The entries of `ids` whose flag in `ok` is down, in order: the providers
/// that a refresh pass has to try again.
pub fn collect_failed(ids: &Vec<String>, ok: &Vec<bool>) -> (r: Vec<String>)
    requires
        ids@.len() == ok@.len(),
    ensures
        strings_view(r@) == failed_of(strings_view(ids@), ok@),
{
    let ghost v = strings_view(ids@);
    let mut out: Vec<String> = Vec::new();
    let mut i: usize = 0;
    while i < ids.len()
        invariant
            i <= ids@.len(),
            ids@.len() == ok@.len(),
            v == strings_view(ids@),
            strings_view(out@) == failed_of(v.take(i as int), ok@),
        decreases ids@.len() - i,
    {
        proof {
            assert(v.take(i + 1).drop_last() =~= v.take(i as int));
        }
        if !ok[i] {
            out.push(ids[i].clone());
            proof {
                assert(strings_view(out@) =~= failed_of(v.take(i as int), ok@).push(v[i as int]));
            }
        }
        i += 1;
    }
    proof {
        assert(v.take(i as int) =~= v);
    }
    out
}

} // verus!
