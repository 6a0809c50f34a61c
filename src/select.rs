use vstd::prelude::*;

use crate::availability::{available, pause_deadline};
use crate::pool::{strings_view, ResourceProvider, PAUSE_DURATION_MS};
use crate::provider::{ProviderError, ProviderFailure};

verus! {

/// Why no link could be had for a request.
#[derive(Debug, Clone, Copy, PartialEq, Eq, Structural)]
pub enum ResolveError {
    /// A provider reported the path absent upstream.
    ResourceNotFound,
    /// Every candidate was paused or failed; carries the last failure seen,
    /// if any provider was asked at all.
    AllCandidatesExhausted(Option<ProviderFailure>),
}

/// What the driver of a selection has to do next.
#[derive(Debug)]
pub enum Action {
    /// Ask this provider for the link.
    Query(String),
    /// The request is decided.
    Finish(Result<String, ResolveError>),
}

/// The first index from `pos` on whose candidate is selectable at `now`,
/// or the list's length when there is none.
pub open spec fn next_available(
    cands: Seq<Seq<char>>,
    pos: int,
    m: Map<Seq<char>, u128>,
    now: u64,
) -> int
    decreases cands.len() - pos,
{
    if pos >= cands.len() {
        cands.len() as int
    } else if available(m, cands[pos], now) {
        pos
    } else {
        next_available(cands, pos + 1, m, now)
    }
}

/// The availability records after a failed provider `id` is paused at
/// `now`: only members of the fleet `ids` are paused.
pub open spec fn paused_in(
    ids: Seq<Seq<char>>,
    m: Map<Seq<char>, u128>,
    id: Seq<char>,
    now: u64,
) -> Map<Seq<char>, u128> {
    if ids.contains(id) {
        m.insert(id, pause_deadline(now, PAUSE_DURATION_MS))
    } else {
        m
    }
}

/// The availability records after provider `id` answered `outcome` at
/// `now`: only an unavailable provider is paused.
pub open spec fn pauses_after_outcome(
    ids: Seq<Seq<char>>,
    m: Map<Seq<char>, u128>,
    id: Seq<char>,
    now: u64,
    outcome: Result<Seq<char>, ProviderError>,
) -> Map<Seq<char>, u128> {
    match outcome {
        Err(ProviderError::Unavailable(_)) => paused_in(ids, m, id, now),
        _ => m,
    }
}

/// How one provider's outcome decides the request: a link or an absent
/// path ends it; an unavailable provider lets it go on.
pub open spec fn outcome_decision(outcome: Result<Seq<char>, ProviderError>) -> Option<
    Result<Seq<char>, ResolveError>,
> {
    match outcome {
        Ok(u) => Some(Ok(u)),
        Err(ProviderError::ResourceNotFound) => Some(Err(ResolveError::ResourceNotFound)),
        Err(ProviderError::Unavailable(_)) => None,
    }
}

pub open spec fn decision_view(r: Option<Result<String, ResolveError>>) -> Option<
    Result<Seq<char>, ResolveError>,
> {
    match r {
        Some(Ok(u)) => Some(Ok(u@)),
        Some(Err(e)) => Some(Err(e)),
        None => None,
    }
}

pub open spec fn outcome_view(r: Result<String, ProviderError>) -> Result<Seq<char>, ProviderError> {
    match r {
        Ok(u) => Ok(u@),
        Err(e) => Err(e),
    }
}

/// One request's walk through its candidate providers, in the caller's
/// order: paused ones are skipped, a failing one is paused and the next one
/// is asked.
pub struct Selection {
    candidates: Vec<String>,
    pos: usize,
    last: Option<ProviderFailure>,
}

impl Selection {
    pub closed spec fn cands(&self) -> Seq<Seq<char>> {
        strings_view(self.candidates@)
    }

    /// The index of the candidate asked or about to be asked.
    pub closed spec fn pos_spec(&self) -> int {
        self.pos as int
    }

    /// The last failure a provider reported.
    pub closed spec fn last_spec(&self) -> Option<ProviderFailure> {
        self.last
    }

    pub open spec fn inv(&self) -> bool {
        0 <= self.pos_spec() <= self.cands().len()
    }

    pub fn new(candidates: Vec<String>) -> (r: Self)
        ensures
            r.inv(),
            r.cands() == strings_view(candidates@),
            r.pos_spec() == 0,
            r.last_spec() == None::<ProviderFailure>,
    {
        Selection { candidates, pos: 0, last: None }
    }

    /// Moves to the first selectable candidate from the current one on and
    /// asks for it to be queried; when none is left the request ends with
    /// `AllCandidatesExhausted` and the last failure seen.
    pub fn seek(&mut self, pool: &ResourceProvider, now: u64) -> (a: Action)
        requires
            old(self).inv(),
            pool.wf(),
        ensures
            final(self).inv(),
            final(self).cands() == old(self).cands(),
            final(self).last_spec() == old(self).last_spec(),
            final(self).pos_spec() == next_available(
                old(self).cands(),
                old(self).pos_spec(),
                pool.pauses(),
                now,
            ),
            final(self).pos_spec() < final(self).cands().len() ==> (match a {
                Action::Query(id) => id@ == final(self).cands()[final(self).pos_spec()],
                Action::Finish(_) => false,
            }),
            final(self).pos_spec() == final(self).cands().len() ==> (match a {
                Action::Query(_) => false,
                Action::Finish(r) => r == Err::<String, ResolveError>(
                    ResolveError::AllCandidatesExhausted(old(self).last_spec()),
                ),
            }),
    {
        while self.pos < self.candidates.len() && !pool.is_available_at(
            self.candidates[self.pos].as_str(),
            now,
        )
            invariant
                self.inv(),
                pool.wf(),
                self.cands() == old(self).cands(),
                self.last_spec() == old(self).last_spec(),
                old(self).pos_spec() <= self.pos_spec(),
                next_available(self.cands(), self.pos_spec(), pool.pauses(), now)
                    == next_available(old(self).cands(), old(self).pos_spec(), pool.pauses(), now),
            decreases self.candidates@.len() - self.pos,
        {
            self.pos = self.pos + 1;
        }
        if self.pos < self.candidates.len() {
            Action::Query(self.candidates[self.pos].clone())
        } else {
            Action::Finish(Err(ResolveError::AllCandidatesExhausted(self.last)))
        }
    }

    /// Takes in what the queried candidate answered. A link or an absent
    /// path decides the request and leaves every provider as it was; an
    /// unavailable provider is paused and the next candidate comes up.
    pub fn report(
        &mut self,
        pool: &mut ResourceProvider,
        outcome: Result<String, ProviderError>,
        now: u64,
    ) -> (r: Option<Result<String, ResolveError>>)
        requires
            old(self).inv(),
            old(self).pos_spec() < old(self).cands().len(),
            old(pool).wf(),
        ensures
            final(self).inv(),
            final(pool).wf(),
            final(pool).clients_spec() == old(pool).clients_spec(),
            final(self).cands() == old(self).cands(),
            decision_view(r) == outcome_decision(outcome_view(outcome)),
            final(pool).pauses() == pauses_after_outcome(
                old(pool).ids(),
                old(pool).pauses(),
                old(self).cands()[old(self).pos_spec()],
                now,
                outcome_view(outcome),
            ),
            match outcome {
                Err(ProviderError::Unavailable(f)) => {
                    &&& final(self).pos_spec() == old(self).pos_spec() + 1
                    &&& final(self).last_spec() == Some(f)
                },
                _ => final(self).pos_spec() == old(self).pos_spec(),
            },
    {
        match outcome {
            Ok(url) => Some(Ok(url)),
            Err(ProviderError::ResourceNotFound) => Some(Err(ResolveError::ResourceNotFound)),
            Err(ProviderError::Unavailable(f)) => {
                let n = self.candidates.len();
                assert(self.pos < n);
                pool.pause_client_at(self.candidates[self.pos].as_str(), now);
                self.last = Some(f);
                self.pos = self.pos + 1;
                None
            },
        }
    }
}

/// `next_available` lands in `[pos, len]`, passes over unselectable
/// candidates only, and stops on a selectable one.
pub proof fn lemma_next_available(cands: Seq<Seq<char>>, pos: int, m: Map<Seq<char>, u128>, now: u64)
    requires
        0 <= pos <= cands.len(),
    ensures
        pos <= next_available(cands, pos, m, now) <= cands.len(),
        forall|i: int|
            pos <= i < next_available(cands, pos, m, now) ==> !available(m, #[trigger] cands[i], now),
        next_available(cands, pos, m, now) < cands.len() ==> available(
            m,
            cands[next_available(cands, pos, m, now)],
            now,
        ),
    decreases cands.len() - pos,
{
    if pos < cands.len() && !available(m, cands[pos], now) {
        lemma_next_available(cands, pos + 1, m, now);
    }
}

pub open spec fn answers_view(a: Seq<Result<String, ProviderError>>) -> Seq<
    Result<Seq<char>, ProviderError>,
> {
    a.map_values(|o: Result<String, ProviderError>| outcome_view(o))
}

pub open spec fn resolve_view(r: Result<String, ResolveError>) -> Result<Seq<char>, ResolveError> {
    match r {
        Ok(u) => Ok(u@),
        Err(e) => Err(e),
    }
}

/// The failure a selection remembers after an answer.
pub open spec fn failure_after(last: Option<ProviderFailure>, answer: Result<Seq<char>, ProviderError>) -> Option<
    ProviderFailure,
> {
    match answer {
        Err(ProviderError::Unavailable(f)) => Some(f),
        _ => last,
    }
}

/// A whole selection from `pos` on, where candidate `i`, when asked,
/// answers `answers[i]`: the availability records at the end, how the
/// request ends, and the indices of the candidates asked, in order. Each
/// step is what `seek` and `report` do.
pub open spec fn walk_spec(
    ids: Seq<Seq<char>>,
    cands: Seq<Seq<char>>,
    pos: int,
    m: Map<Seq<char>, u128>,
    now: u64,
    last: Option<ProviderFailure>,
    answers: Seq<Result<Seq<char>, ProviderError>>,
) -> (Map<Seq<char>, u128>, Result<Seq<char>, ResolveError>, Seq<int>)
    decreases cands.len() - pos,
{
    let p = next_available(cands, pos, m, now);
    if pos < 0 || pos > cands.len() || p >= cands.len() || p < pos {
        (m, Err(ResolveError::AllCandidatesExhausted(last)), Seq::empty())
    } else {
        let m2 = pauses_after_outcome(ids, m, cands[p], now, answers[p]);
        match outcome_decision(answers[p]) {
            Some(d) => (m2, d, seq![p]),
            None => {
                let rest = walk_spec(
                    ids,
                    cands,
                    p + 1,
                    m2,
                    now,
                    failure_after(last, answers[p]),
                    answers,
                );
                (rest.0, rest.1, seq![p] + rest.2)
            },
        }
    }
}

/// The walk of selection `sel` over `pool`, as `walk_spec` gives it.
pub open spec fn walk_from(
    pool: ResourceProvider,
    sel: Selection,
    now: u64,
    answers: Seq<Result<Seq<char>, ProviderError>>,
) -> (Map<Seq<char>, u128>, Result<Seq<char>, ResolveError>, Seq<int>) {
    walk_spec(pool.ids(), sel.cands(), sel.pos_spec(), pool.pauses(), now, sel.last_spec(), answers)
}

/// A list of indices, as integers.
pub open spec fn indices(v: Seq<usize>) -> Seq<int> {
    v.map_values(|i: usize| i as int)
}

fn clone_answer(a: &Result<String, ProviderError>) -> (r: Result<String, ProviderError>)
    ensures
        r == *a,
{
    match a {
        Ok(u) => Ok(u.clone()),
        Err(e) => Err(*e),
    }
}

impl Selection {
    /// Runs the selection to its end with `seek` and `report`, candidate
    /// `i` answering `answers[i]` when asked; returns how the request ends
    /// and the indices of the candidates asked. When every answer is
    /// "unavailable" the request is exhausted, every candidate asked is
    /// paused for the cooldown, and no candidate is left selectable.
    pub fn walk(
        &mut self,
        pool: &mut ResourceProvider,
        answers: &Vec<Result<String, ProviderError>>,
        now: u64,
    ) -> (r: (Result<String, ResolveError>, Vec<usize>))
        requires
            old(self).inv(),
            old(pool).wf(),
            answers@.len() == old(self).cands().len(),
        ensures
            final(pool).wf(),
            final(pool).clients_spec() == old(pool).clients_spec(),
            final(pool).pauses() == walk_from(*old(pool), *old(self), now, answers_view(answers@)).0,
            resolve_view(r.0) == walk_from(*old(pool), *old(self), now, answers_view(answers@)).1,
            indices(r.1@) == walk_from(*old(pool), *old(self), now, answers_view(answers@)).2,
            (forall|i: int| 0 <= i < answers@.len() ==> #[trigger] answers@[i] is Err && answers@[i]->Err_0 is Unavailable) ==> {
                &&& r.0 is Err && r.0->Err_0 is AllCandidatesExhausted
                &&& forall|i: int|
                    old(self).pos_spec() <= i < old(self).cands().len() ==> !available(
                        final(pool).pauses(),
                        #[trigger] old(self).cands()[i],
                        now,
                    )
                &&& forall|i: int|
                    old(self).pos_spec() <= i < old(self).cands().len() && available(
                        old(pool).pauses(),
                        #[trigger] old(self).cands()[i],
                        now,
                    ) ==> final(pool).pauses()[old(self).cands()[i]] == pause_deadline(
                        now,
                        PAUSE_DURATION_MS,
                    )
            },
    {
        let ghost ids = pool.ids();
        let ghost cands = self.cands();
        let ghost av = answers_view(answers@);
        let ghost w0 = walk_spec(ids, cands, self.pos_spec(), pool.pauses(), now, self.last_spec(), av);
        let mut asked: Vec<usize> = Vec::new();
        assert(w0 == walk_spec(
            old(pool).ids(),
            old(self).cands(),
            old(self).pos_spec(),
            old(pool).pauses(),
            now,
            old(self).last_spec(),
            answers_view(answers@),
        ));
        proof {
            if forall|i: int| 0 <= i < answers@.len() ==> #[trigger] answers@[i] is Err && answers@[i]->Err_0 is Unavailable {
                assert forall|i: int| 0 <= i < av.len() implies #[trigger] av[i] is Err && av[i]->Err_0 is Unavailable by {
                    assert(answers@[i] is Err);
                }
                lemma_walk_unavailable(ids, cands, self.pos_spec(), self.pos_spec(), pool.pauses(), pool.pauses(), now, self.last_spec(), av);
            }
        }
        loop
            invariant
                self.inv(),
                pool.wf(),
                pool.ids() == ids,
                pool.clients_spec() == old(pool).clients_spec(),
                self.cands() == cands,
                cands.len() == answers@.len(),
                av == answers_view(answers@),
                w0 == walk_from(*old(pool), *old(self), now, av),
                cands == old(self).cands(),
                (forall|i: int| 0 <= i < answers@.len() ==> #[trigger] answers@[i] is Err && answers@[i]->Err_0 is Unavailable) ==> {
                    &&& w0.1 is Err && w0.1->Err_0 is AllCandidatesExhausted
                    &&& forall|i: int|
                        old(self).pos_spec() <= i < cands.len() ==> !available(w0.0, #[trigger] cands[i], now)
                    &&& forall|i: int|
                        old(self).pos_spec() <= i < cands.len() && available(old(pool).pauses(), #[trigger] cands[i], now)
                            ==> w0.0[cands[i]] == pause_deadline(now, PAUSE_DURATION_MS)
                },
                ({
                    let w = walk_spec(ids, cands, self.pos_spec(), pool.pauses(), now, self.last_spec(), av);
                    &&& w.0 == w0.0
                    &&& w.1 == w0.1
                    &&& indices(asked@) + w.2 == w0.2
                }),
            decreases cands.len() - self.pos_spec(),
        {
            let ghost pos0 = self.pos_spec();
            let ghost m = pool.pauses();
            let ghost last = self.last_spec();
            proof {
                lemma_next_available(cands, pos0, m, now);
            }
            match self.seek(pool, now) {
                Action::Finish(res) => {
                    proof {
                        assert(walk_spec(ids, cands, pos0, m, now, last, av) == (
                            m,
                            Err::<Seq<char>, ResolveError>(ResolveError::AllCandidatesExhausted(last)),
                            Seq::<int>::empty(),
                        ));
                        assert(indices(asked@) + Seq::<int>::empty() =~= indices(asked@));
                        assert(pool.pauses() == w0.0);
                        assert(resolve_view(res) == w0.1);
                        assert(indices(asked@) == w0.2);
                    }
                    return (res, asked);
                },
                Action::Query(_) => {
                    let p = self.pos;
                    let ghost rest_before = walk_spec(ids, cands, pos0, m, now, last, av);
                    proof {
                        // Walking from `pos0` and from the candidate `seek` landed on is the same walk.
                        assert(next_available(cands, p as int, m, now) == p);
                        assert(walk_spec(ids, cands, p as int, m, now, last, av) == rest_before);
                    }
                    let answer = clone_answer(&answers[p]);
                    assert(av[p as int] == outcome_view(answer));
                    let ghost before_asked = indices(asked@);
                    asked.push(p);
                    assert(indices(asked@) =~= before_asked.push(p as int));
                    match self.report(pool, answer, now) {
                        Some(d) => {
                            proof {
                                assert(outcome_decision(av[p as int]) == Some(resolve_view(d)));
                                assert(walk_spec(ids, cands, p as int, m, now, last, av) == (
                                    pool.pauses(),
                                    resolve_view(d),
                                    seq![p as int],
                                ));
                                assert(before_asked.push(p as int) =~= before_asked + seq![p as int]);
                                assert(pool.pauses() == w0.0);
                                assert(resolve_view(d) == w0.1);
                                assert(indices(asked@) == w0.2);
                            }
                            return (d, asked);
                        },
                        None => {
                            proof {
                                let rest = walk_spec(ids, cands, p + 1, pool.pauses(), now, self.last_spec(), av);
                                assert(self.pos_spec() == p + 1);
                                assert(self.last_spec() == failure_after(last, av[p as int]));
                                assert(before_asked.push(p as int) + rest.2 =~= before_asked + (seq![p as int] + rest.2));
                            }
                        },
                    }
                },
            }
        }
    }
}

proof fn lemma_walk_unavailable(
    ids: Seq<Seq<char>>,
    cands: Seq<Seq<char>>,
    start: int,
    pos: int,
    m0: Map<Seq<char>, u128>,
    m: Map<Seq<char>, u128>,
    now: u64,
    last: Option<ProviderFailure>,
    answers: Seq<Result<Seq<char>, ProviderError>>,
)
    requires
        0 <= start <= pos <= cands.len(),
        answers.len() == cands.len(),
        forall|i: int| 0 <= i < answers.len() ==> #[trigger] answers[i] is Err && answers[i]->Err_0 is Unavailable,
        forall|k: Seq<char>| #[trigger] m.contains_key(k) <==> ids.contains(k),
        forall|k: Seq<char>| #[trigger] m0.contains_key(k) <==> ids.contains(k),
        forall|k: Seq<char>|
            m.contains_key(k) && #[trigger] m[k] != m0[k] ==> m[k] == pause_deadline(
                now,
                PAUSE_DURATION_MS,
            ),
        forall|i: int| start <= i < pos ==> !available(m, #[trigger] cands[i], now),
    ensures
        ({
            let w = walk_spec(ids, cands, pos, m, now, last, answers);
            &&& w.1 is Err && w.1->Err_0 is AllCandidatesExhausted
            &&& forall|k: Seq<char>| #[trigger] w.0.contains_key(k) <==> ids.contains(k)
            &&& forall|i: int| start <= i < cands.len() ==> !available(w.0, #[trigger] cands[i], now)
            &&& forall|i: int|
                pos <= i < cands.len() && available(m0, #[trigger] cands[i], now) && m0[cands[i]] == m[cands[i]]
                    ==> w.0[cands[i]] == pause_deadline(now, PAUSE_DURATION_MS)
            &&& forall|k: Seq<char>|
                w.0.contains_key(k) && #[trigger] w.0[k] != m0[k] ==> w.0[k] == pause_deadline(
                    now,
                    PAUSE_DURATION_MS,
                )
        }),
    decreases cands.len() - pos,
{
    let d = pause_deadline(now, PAUSE_DURATION_MS);
    lemma_next_available(cands, pos, m, now);
    let p = next_available(cands, pos, m, now);
    let w = walk_spec(ids, cands, pos, m, now, last, answers);
    if p >= cands.len() {
        assert forall|i: int|
            pos <= i < cands.len() && available(m0, #[trigger] cands[i], now) && m0[cands[i]] == m[cands[i]] implies w.0[cands[i]] == d by {
            assert(!available(m, cands[i], now));
        }
    } else {
        let c = cands[p];
        assert(ids.contains(c));
        assert(answers[p] is Err);
        let m2 = pauses_after_outcome(ids, m, c, now, answers[p]);
        assert(m2 == m.insert(c, d));
        assert forall|k: Seq<char>| #[trigger] m2.contains_key(k) <==> ids.contains(k) by {
            assert(m2.contains_key(k) <==> m.contains_key(k));
        }
        assert forall|k: Seq<char>| m2.contains_key(k) && #[trigger] m2[k] != m0[k] implies m2[k] == d by {
            if k != c {
                assert(m2[k] == m[k]);
            }
        }
        assert forall|i: int| start <= i < p + 1 implies !available(m2, #[trigger] cands[i], now) by {
            if cands[i] == c {
                assert(m2[c] == d);
            } else {
                assert(m2[cands[i]] == m[cands[i]]);
            }
        }
        lemma_walk_unavailable(ids, cands, start, p + 1, m0, m2, now, failure_after(last, answers[p]), answers);
        let w2 = walk_spec(ids, cands, p + 1, m2, now, failure_after(last, answers[p]), answers);
        assert(w.0 == w2.0 && w.1 == w2.1);
        assert forall|i: int|
            pos <= i < cands.len() && available(m0, #[trigger] cands[i], now) && m0[cands[i]] == m[cands[i]] implies w.0[cands[i]] == d by {
            if i < p {
                assert(!available(m, cands[i], now));
            } else {
                assert(!available(w2.0, cands[i], now));
                assert(ids.contains(cands[i]));
                assert(w2.0.contains_key(cands[i]));
                assert(w2.0[cands[i]] != m0[cands[i]]);
            }
        }
    }
}

/// Candidates `[a, b, c]` with `a` paused, `b` selectable and answering
/// with a link: the request ends with that link, `b` is the only provider
/// asked, and nobody is paused.
pub proof fn lemma_selection_order(
    ids: Seq<Seq<char>>,
    cands: Seq<Seq<char>>,
    m: Map<Seq<char>, u128>,
    now: u64,
    answers: Seq<Result<Seq<char>, ProviderError>>,
    link: Seq<char>,
)
    requires
        cands.len() == 3,
        answers.len() == 3,
        !available(m, cands[0], now),
        available(m, cands[1], now),
        answers[1] == Ok::<Seq<char>, ProviderError>(link),
    ensures
        walk_spec(ids, cands, 0, m, now, None, answers) == (
            m,
            Ok::<Seq<char>, ResolveError>(link),
            seq![1int],
        ),
{
    assert(next_available(cands, 1, m, now) == 1);
    assert(next_available(cands, 0, m, now) == 1);
}

/// A first candidate that is selectable and reports the path absent ends
/// the request at once: it is the only provider asked, and nobody is
/// paused.
pub proof fn lemma_not_found_is_terminal(
    ids: Seq<Seq<char>>,
    cands: Seq<Seq<char>>,
    m: Map<Seq<char>, u128>,
    now: u64,
    answers: Seq<Result<Seq<char>, ProviderError>>,
)
    requires
        cands.len() >= 1,
        answers.len() == cands.len(),
        available(m, cands[0], now),
        answers[0] == Err::<Seq<char>, ProviderError>(ProviderError::ResourceNotFound),
    ensures
        walk_spec(ids, cands, 0, m, now, None, answers) == (
            m,
            Err::<Seq<char>, ResolveError>(ResolveError::ResourceNotFound),
            seq![0int],
        ),
{
}

/// When every candidate asked answers "unavailable", the request ends with
/// `AllCandidatesExhausted`, every candidate asked is paused for the
/// cooldown, and no candidate is left selectable.
pub proof fn lemma_exhaustion(
    ids: Seq<Seq<char>>,
    cands: Seq<Seq<char>>,
    m: Map<Seq<char>, u128>,
    now: u64,
    answers: Seq<Result<Seq<char>, ProviderError>>,
)
    requires
        answers.len() == cands.len(),
        forall|i: int| 0 <= i < answers.len() ==> #[trigger] answers[i] is Err && answers[i]->Err_0 is Unavailable,
        forall|k: Seq<char>| #[trigger] m.contains_key(k) <==> ids.contains(k),
    ensures
        ({
            let w = walk_spec(ids, cands, 0, m, now, None, answers);
            &&& w.1 is Err && w.1->Err_0 is AllCandidatesExhausted
            &&& forall|i: int| 0 <= i < cands.len() ==> !available(w.0, #[trigger] cands[i], now)
            &&& forall|i: int|
                0 <= i < cands.len() && available(m, #[trigger] cands[i], now) ==> w.0[cands[i]]
                    == pause_deadline(now, PAUSE_DURATION_MS)
        }),
{
    lemma_walk_unavailable(ids, cands, 0, 0, m, m, now, None, answers);
}

} // verus!
