//! Reference resolution under a per-operation fetch budget.
//!
//! A `Resolver` holds what is already known locally and the mutable fetch
//! counter shared by every resolution of one verify-and-receive operation.
//! A reference that is known locally is answered without cost; an unknown
//! one costs one unit of the budget, and a chain that needs more fetches
//! than the budget allows fails with `FetchBudgetExceeded` before any
//! further cost arises.  The network itself is the caller's: the caller
//! feeds fetched entities (or their absence) in as events.

use vstd::prelude::*;

use crate::error::ResolveError;
use crate::model::Community;
use crate::model::Entity;
use crate::model::Person;

verus! {

/// The fetch ceiling an operation gets unless its caller picks another.
pub const DEFAULT_FETCH_LIMIT: u32 = 25;

/// Local knowledge plus the fetch budget of one operation.
#[derive(Debug, PartialEq)]
pub struct Resolver {
    /// Entities known locally, keyed by their network identifier.  Lookup
    /// takes the first entry with the queried key.
    pub cache: Vec<(String, Entity)>,
    /// Fetches already spent in this operation.
    pub used: u32,
    /// The fixed ceiling on fetches per operation.
    pub limit: u32,
}

/// The cache with its keys abstracted to character sequences.
pub open spec fn entries_of(cache: Seq<(String, Entity)>) -> Seq<(Seq<char>, Entity)> {
    cache.map(|i: int, p: (String, Entity)| (p.0@, p.1))
}

/// First-match lookup in an abstract cache.
pub open spec fn slookup(c: Seq<(Seq<char>, Entity)>, k: Seq<char>) -> Option<Entity>
    decreases c.len(),
{
    if c.len() == 0 {
        Option::None
    } else if c[0].0 == k {
        Option::Some(c[0].1)
    } else {
        slookup(c.drop_first(), k)
    }
}

/// Appending an entry answers exactly the queries that were unanswered
/// before and carry the new key; every other answer is unchanged.
pub proof fn lemma_slookup_push(c: Seq<(Seq<char>, Entity)>, x: (Seq<char>, Entity), k: Seq<char>)
    ensures
        slookup(c.push(x), k) == (if slookup(c, k) is Some {
            slookup(c, k)
        } else if x.0 == k {
            Option::Some(x.1)
        } else {
            Option::<Entity>::None
        }),
    decreases c.len(),
{
    if c.len() == 0 {
        assert(c.push(x)[0] == x);
        assert(c.push(x).drop_first() =~= Seq::<(Seq<char>, Entity)>::empty());
    } else {
        assert(c.push(x)[0] == c[0]);
        assert(c.push(x).drop_first() =~= c.drop_first().push(x));
        lemma_slookup_push(c.drop_first(), x, k);
    }
}

/// One resolution event: the reference that was looked up, and the entity
/// the network returned for it, or `None` when the fetch failed.
pub type FetchEvent = (String, Option<Entity>);

/// The events with their keys abstracted to character sequences.
pub open spec fn events_of(chain: Seq<FetchEvent>) -> Seq<(Seq<char>, Option<Entity>)> {
    chain.map(|i: int, p: FetchEvent| (p.0@, p.1))
}

/// What resolving a chain of references does, step by step: a reference
/// already known is free; an unknown one first needs a unit of budget and
/// then the network's answer.  The first failure ends the run.
pub open spec fn chain_run(
    c: Seq<(Seq<char>, Entity)>,
    used: int,
    limit: int,
    ch: Seq<(Seq<char>, Option<Entity>)>,
) -> Result<(Seq<(Seq<char>, Entity)>, int), ResolveError>
    decreases ch.len(),
{
    if ch.len() == 0 {
        Result::Ok((c, used))
    } else if slookup(c, ch[0].0) is Some {
        chain_run(c, used, limit, ch.drop_first())
    } else if used >= limit {
        Result::Err(ResolveError::FetchBudgetExceeded)
    } else {
        match ch[0].1 {
            Option::Some(e) => chain_run(c.push((ch[0].0, e)), used + 1, limit, ch.drop_first()),
            Option::None => Result::Err(ResolveError::NetworkError),
        }
    }
}

/// How many fetches a chain needs against a given cache: one per
/// reference not yet known at its turn.
pub open spec fn chain_cost(
    c: Seq<(Seq<char>, Entity)>,
    ch: Seq<(Seq<char>, Option<Entity>)>,
) -> nat
    decreases ch.len(),
{
    if ch.len() == 0 {
        0
    } else if slookup(c, ch[0].0) is Some {
        chain_cost(c, ch.drop_first())
    } else {
        match ch[0].1 {
            Option::Some(e) => 1 + chain_cost(c.push((ch[0].0, e)), ch.drop_first()),
            Option::None => 1 + chain_cost(c, ch.drop_first()),
        }
    }
}

/// A chain that needs more fetches than the remaining budget fails with
/// `FetchBudgetExceeded`, whatever entities the fetches would return.
pub proof fn lemma_fetch_budget_exceeded(
    c: Seq<(Seq<char>, Entity)>,
    used: int,
    limit: int,
    ch: Seq<(Seq<char>, Option<Entity>)>,
)
    requires
        0 <= used <= limit,
        forall|i: int| 0 <= i < ch.len() ==> (#[trigger] ch[i]).1 is Some,
        used + chain_cost(c, ch) > limit,
    ensures
        chain_run(c, used, limit, ch) == Result::<(Seq<(Seq<char>, Entity)>, int), ResolveError>::Err(
            ResolveError::FetchBudgetExceeded,
        ),
    decreases ch.len(),
{
    assert(ch.len() > 0);
    let rest = ch.drop_first();
    assert(forall|i: int| 0 <= i < rest.len() ==> (#[trigger] rest[i]).1 is Some) by {
        assert(forall|i: int|
            0 <= i < rest.len() ==> rest[i] == ch[i + 1] && (#[trigger] rest[i]).1 == ch[i
                + 1].1);
    }
    if slookup(c, ch[0].0) is Some {
        lemma_fetch_budget_exceeded(c, used, limit, rest);
    } else if used >= limit {
    } else {
        let e = match ch[0].1 {
            Option::Some(e) => e,
            Option::None => arbitrary(),
        };
        lemma_fetch_budget_exceeded(c.push((ch[0].0, e)), used + 1, limit, rest);
    }
}

impl Resolver {
    /// The budget counter never runs past its ceiling.
    pub open spec fn wf(self) -> bool {
        self.used <= self.limit
    }

    /// The local knowledge, keys abstracted.
    pub open spec fn entries(self) -> Seq<(Seq<char>, Entity)> {
        entries_of(self.cache@)
    }

    /// Whether a reference is already known locally.
    pub open spec fn has_key(self, k: Seq<char>) -> bool {
        slookup(self.entries(), k) is Some
    }

    pub fn new(limit: u32) -> (r: Resolver)
        ensures
            r.wf(),
            r.used == 0,
            r.limit == limit,
            r.entries() == Seq::<(Seq<char>, Entity)>::empty(),
    {
        let r = Resolver { cache: Vec::new(), used: 0, limit };
        proof {
            assert(r.entries() =~= Seq::<(Seq<char>, Entity)>::empty());
        }
        r
    }

    /// Look a reference up in the local knowledge; no fetch, no cost.
    pub fn lookup(&self, uri: &String) -> (r: Option<&Entity>)
        ensures
            match r {
                Option::Some(e) => slookup(self.entries(), uri@) == Option::Some(*e),
                Option::None => slookup(self.entries(), uri@) is None,
            },
    {
        let ghost es = self.entries();
        let mut i: usize = 0;
        proof {
            assert(es.skip(0) =~= es);
        }
        while i < self.cache.len()
            invariant
                es == self.entries(),
                0 <= i <= self.cache@.len(),
                es.len() == self.cache@.len(),
                slookup(es, uri@) == slookup(es.skip(i as int), uri@),
            decreases self.cache@.len() - i,
        {
            proof {
                assert(es[i as int] == (self.cache@[i as int].0@, self.cache@[i as int].1));
                assert(es.skip(i as int)[0] == es[i as int]);
                assert(es.skip(i as int).len() > 0);
            }
            if self.cache[i].0 == *uri {
                proof {
                    assert(slookup(es.skip(i as int), uri@) == Option::Some(es[i as int].1));
                }
                return Some(&self.cache[i].1);
            }
            proof {
                assert(self.cache@[i as int].0@ != uri@);
                assert(es.skip(i as int).drop_first() =~= es.skip(i as int + 1));
                assert(slookup(es.skip(i as int), uri@) == slookup(es.skip(i as int + 1), uri@));
            }
            i = i + 1;
        }
        proof {
            assert(es.skip(i as int) =~= Seq::<(Seq<char>, Entity)>::empty());
        }
        None
    }

    /// Whether a reference is already known locally, at no cost.
    pub fn contains_key(&self, uri: &String) -> (r: bool)
        ensures
            r == self.has_key(uri@),
    {
        match self.lookup(uri) {
            Option::Some(_) => true,
            Option::None => false,
        }
    }

    /// Charge one fetch against the budget.  Past the ceiling nothing is
    /// charged and the operation fails.
    pub fn charge_fetch(&mut self) -> (r: Result<(), ResolveError>)
        requires
            old(self).wf(),
        ensures
            final(self).wf(),
            match r {
                Result::Ok(()) => old(self).used < old(self).limit && *final(self) == (Resolver {
                    used: (old(self).used + 1) as u32,
                    ..*old(self)
                }),
                Result::Err(e) => e == ResolveError::FetchBudgetExceeded && old(self).used >= old(
                    self,
                ).limit && *final(self) == *old(self),
            },
    {
        if self.used >= self.limit {
            Err(ResolveError::FetchBudgetExceeded)
        } else {
            self.used = self.used + 1;
            Ok(())
        }
    }

    /// Record what a fetch returned.  A reference already known keeps its
    /// first answer; answers are never replaced.
    pub fn record(&mut self, uri: String, entity: Entity)
        ensures
            final(self).used == old(self).used,
            final(self).limit == old(self).limit,
            old(self).has_key(uri@) ==> *final(self) == *old(self),
            !old(self).has_key(uri@) ==> final(self).entries() == old(self).entries().push(
                (uri@, entity),
            ),
    {
        if !self.contains_key(&uri) {
            let ghost pre = self.cache@;
            self.cache.push((uri, entity));
            proof {
                assert(self.entries() =~= entries_of(pre).push((uri@, entity)));
            }
        }
    }

    /// Resolve a chain of references in order, spending the shared budget
    /// on each one not yet known and recording each answer.  On failure
    /// the knowledge gathered so far is kept intact: nothing is removed
    /// and no earlier answer changes.
    pub fn resolve_chain(&mut self, chain: Vec<FetchEvent>) -> (r: Result<(), ResolveError>)
        requires
            old(self).wf(),
        ensures
            final(self).wf(),
            final(self).limit == old(self).limit,
            old(self).used <= final(self).used,
            forall|k: Seq<char>|
                old(self).has_key(k) ==> #[trigger] slookup(final(self).entries(), k) == slookup(
                    old(self).entries(),
                    k,
                ),
            match r {
                Result::Ok(()) => chain_run(
                    old(self).entries(),
                    old(self).used as int,
                    old(self).limit as int,
                    events_of(chain@),
                ) == Result::<(Seq<(Seq<char>, Entity)>, int), ResolveError>::Ok(
                    (final(self).entries(), final(self).used as int),
                ),
                Result::Err(e) => chain_run(
                    old(self).entries(),
                    old(self).used as int,
                    old(self).limit as int,
                    events_of(chain@),
                ) == Result::<(Seq<(Seq<char>, Entity)>, int), ResolveError>::Err(e),
            },
    {
        let ghost oe = old(self).entries();
        let ghost ou = old(self).used as int;
        let ghost all = events_of(chain@);
        let mut rest = chain;
        loop
            invariant
                self.wf(),
                self.limit == old(self).limit,
                ou <= self.used as int,
                oe == old(self).entries(),
                ou == old(self).used as int,
                all == events_of(chain@),
                forall|k: Seq<char>|
                    slookup(oe, k) is Some ==> #[trigger] slookup(self.entries(), k) == slookup(
                        oe,
                        k,
                    ),
                chain_run(oe, ou, self.limit as int, all) == chain_run(
                    self.entries(),
                    self.used as int,
                    self.limit as int,
                    events_of(rest@),
                ),
            decreases rest@.len(),
        {
            if rest.len() == 0 {
                proof {
                    assert(events_of(rest@) =~= Seq::<(Seq<char>, Option<Entity>)>::empty());
                }
                return Ok(());
            }
            let ghost pre_rest = rest@;
            let ghost pre_entries = self.entries();
            let (uri, ans) = rest.remove(0);
            proof {
                assert(events_of(pre_rest)[0] == (uri@, ans));
                assert(events_of(pre_rest).drop_first() =~= events_of(rest@));
            }
            if !self.contains_key(&uri) {
                if self.used >= self.limit {
                    return Err(ResolveError::FetchBudgetExceeded);
                }
                self.used = self.used + 1;
                match ans {
                    Option::Some(e) => {
                        self.cache.push((uri, e));
                        proof {
                            assert(self.entries() =~= pre_entries.push((uri@, e)));
                            assert forall|k: Seq<char>| slookup(oe, k) is Some implies #[trigger] slookup(
                                self.entries(),
                                k,
                            ) == slookup(oe, k) by {
                                lemma_slookup_push(pre_entries, (uri@, e), k);
                            }
                        }
                    },
                    Option::None => {
                        return Err(ResolveError::NetworkError);
                    },
                }
            }
        }
    }

    /// Resolve a reference expected to denote a person.
    pub fn resolve_person(&self, uri: &String) -> (r: Result<&Person, ResolveError>)
        ensures
            match r {
                Result::Ok(p) => slookup(self.entries(), uri@) == Option::Some(Entity::Person(*p)),
                Result::Err(e) => e == ResolveError::NotFound && spec_person(
                    self.entries(),
                    uri@,
                ) is None,
            },
    {
        match self.lookup(uri) {
            Option::Some(Entity::Person(p)) => Ok(p),
            _ => Err(ResolveError::NotFound),
        }
    }

    /// Resolve a reference expected to denote a community.
    pub fn resolve_community(&self, uri: &String) -> (r: Result<&Community, ResolveError>)
        ensures
            match r {
                Result::Ok(c) => slookup(self.entries(), uri@) == Option::Some(
                    Entity::Community(*c),
                ),
                Result::Err(e) => e == ResolveError::NotFound && spec_community(
                    self.entries(),
                    uri@,
                ) is None,
            },
    {
        match self.lookup(uri) {
            Option::Some(Entity::Community(c)) => Ok(c),
            _ => Err(ResolveError::NotFound),
        }
    }
}

/// The person a reference resolves to, if any.
pub open spec fn spec_person(c: Seq<(Seq<char>, Entity)>, k: Seq<char>) -> Option<Person> {
    match slookup(c, k) {
        Option::Some(Entity::Person(p)) => Option::Some(p),
        _ => Option::None,
    }
}

/// The community a reference resolves to, if any.
pub open spec fn spec_community(c: Seq<(Seq<char>, Entity)>, k: Seq<char>) -> Option<Community> {
    match slookup(c, k) {
        Option::Some(Entity::Community(cm)) => Option::Some(cm),
        _ => Option::None,
    }
}

} // verus!
