//! The watch scheduler: dependency-tracked callback registrations
//! against observable cells.
//!
//! The scheduler owns the registration records. For a mutation of one
//! cell it computes the firing plan: the subscriptions to notify, in
//! registration order, each at most once. The component that owns the
//! callbacks runs them against that plan, synchronously, before the
//! mutation returns; nested mutations are planned the same way from
//! within a callback, so notification is depth-first.

use crate::observable::CellId;
use vstd::prelude::*;

verus! {

/// Handle to one registration of a [`Scheduler`].
#[derive(Clone, Copy, PartialEq, Eq, Structural, Debug)]
pub struct SubId {
    pub index: usize,
}

/// A live watch registration: the cells its last run read, and whether
/// it is still alive. Cancellation clears `alive` and nothing sets it
/// back, so a cancelled subscription is never planned again.
pub struct Subscription {
    deps: Vec<CellId>,
    alive: bool,
}

impl Subscription {
    /// The dependency set recorded by the registration's last run.
    pub closed spec fn spec_deps(&self) -> Seq<CellId> {
        self.deps@
    }

    /// False once the registration has been cancelled.
    pub closed spec fn is_alive(&self) -> bool {
        self.alive
    }

    /// True when a write to `c` must notify this subscription.
    pub open spec fn watches(&self, c: CellId) -> bool {
        self.is_alive() && self.spec_deps().contains(c)
    }

    fn deps_contain(&self, c: CellId) -> (r: bool)
        ensures
            r == self.spec_deps().contains(c),
    {
        let mut i: usize = 0;
        while i < self.deps.len()
            invariant
                i <= self.deps@.len(),
                forall|j: int| 0 <= j < i ==> self.deps@[j] != c,
            decreases self.deps@.len() - i,
        {
            if self.deps[i] == c {
                assert(self.spec_deps().contains(c));
                return true;
            }
            i += 1;
        }
        assert(forall|j: int| 0 <= j < self.deps@.len() ==> self.deps@[j] != c);
        false
    }
}

/// The registration indices a write to cell `c` must notify, in
/// registration order (ascending), each exactly once.
pub open spec fn spec_plan(subs: Seq<Subscription>, c: CellId) -> Seq<int>
    decreases subs.len(),
{
    if subs.len() == 0 {
        Seq::empty()
    } else {
        let prefix = spec_plan(subs.drop_last(), c);
        if subs.last().watches(c) {
            prefix.push(subs.len() - 1)
        } else {
            prefix
        }
    }
}

/// Registry of watch subscriptions, in registration order.
pub struct Scheduler {
    subs: Vec<Subscription>,
}

impl View for Scheduler {
    type V = Seq<Subscription>;

    closed spec fn view(&self) -> Seq<Subscription> {
        self.subs@
    }
}

impl Scheduler {
    pub fn new() -> (s: Self)
        ensures
            s@ == Seq::<Subscription>::empty(),
    {
        Scheduler { subs: Vec::new() }
    }

    pub open spec fn contains_sub(&self, id: SubId) -> bool {
        id.index < self@.len()
    }

    /// Registers a watch over `deps`. The returned flag is the
    /// immediate-firing obligation: it is true exactly when
    /// `fire_immediately` was requested, in which case the owner runs
    /// the callback once, synchronously, before registration is
    /// considered complete — and no additional time for it, even if no
    /// dependency ever changes afterwards.
    pub fn watch(&mut self, deps: Vec<CellId>, fire_immediately: bool) -> (r: (SubId, bool))
        ensures
            final(self)@.len() == old(self)@.len() + 1,
            forall|j: int|
                0 <= j < old(self)@.len() ==> final(self)@[j] == old(self)@[j],
            final(self)@[old(self)@.len() as int].spec_deps() == deps@,
            final(self)@[old(self)@.len() as int].is_alive(),
            r.0.index == old(self)@.len(),
            final(self).contains_sub(r.0),
            r.1 == fire_immediately,
    {
        let index = self.subs.len();
        self.subs.push(Subscription { deps, alive: true });
        (SubId { index }, fire_immediately)
    }

    /// Cancels the registration: no plan computed from here on
    /// contains it, so its callback never runs again. The choice for a
    /// mutation already mid-notification is fixed and documented: a
    /// plan computed before the cancellation still stands, and its
    /// owner may still deliver to the registration once; one computed
    /// after never includes it.
    pub fn cancel(&mut self, id: SubId)
        requires
            old(self).contains_sub(id),
        ensures
            final(self)@.len() == old(self)@.len(),
            !final(self)@[id.index as int].is_alive(),
            final(self)@[id.index as int].spec_deps() == old(self)@[id.index as int].spec_deps(),
            forall|j: int|
                0 <= j < old(self)@.len() && j != id.index ==> final(self)@[j] == old(self)@[j],
    {
        let sub = &mut self.subs[id.index];
        sub.alive = false;
    }

    /// Replaces the dependency set with the cells read during the
    /// watcher's most recent run: dependency tracking is dynamic, and
    /// cells read in an earlier run but not the current one are
    /// dropped from the set.
    pub fn retrack(&mut self, id: SubId, deps: Vec<CellId>)
        requires
            old(self).contains_sub(id),
        ensures
            final(self)@.len() == old(self)@.len(),
            final(self)@[id.index as int].spec_deps() == deps@,
            final(self)@[id.index as int].is_alive() == old(self)@[id.index as int].is_alive(),
            forall|j: int|
                0 <= j < old(self)@.len() && j != id.index ==> final(self)@[j] == old(self)@[j],
    {
        let sub = &mut self.subs[id.index];
        sub.deps = deps;
    }

    /// The firing plan of a write to `c`: every live subscription whose
    /// dependency set includes `c`, in registration order, once each.
    pub fn fire_plan(&self, c: CellId) -> (plan: Vec<SubId>)
        ensures
            plan@.map_values(|s: SubId| s.index as int) == spec_plan(self@, c),
            forall|k: int| 0 <= k < plan@.len() ==> self.contains_sub(#[trigger] plan@[k]),
    {
        let mut plan: Vec<SubId> = Vec::new();
        let mut i: usize = 0;
        while i < self.subs.len()
            invariant
                i <= self@.len(),
                plan@.map_values(|s: SubId| s.index as int) == spec_plan(self@.take(i as int), c),
                forall|k: int| 0 <= k < plan@.len() ==> (#[trigger] plan@[k]).index < i,
            decreases self@.len() - i,
        {
            proof {
                assert(self@.take(i + 1).drop_last() =~= self@.take(i as int));
                assert(self@.take(i + 1).last() == self@[i as int]);
            }
            let ghost prev = plan@;
            if self.subs[i].alive && self.subs[i].deps_contain(c) {
                assert(self@[i as int].watches(c));
                plan.push(SubId { index: i });
                proof {
                    assert(plan@.map_values(|s: SubId| s.index as int) =~= prev.map_values(
                        |s: SubId| s.index as int,
                    ).push(i as int));
                }
            } else {
                assert(!self@[i as int].watches(c));
            }
            i += 1;
        }
        proof {
            assert(self@.take(self@.len() as int) =~= self@);
        }
        plan
    }
}

/// Every planned index names a registration that exists.
pub proof fn lemma_plan_bounded(subs: Seq<Subscription>, c: CellId)
    ensures
        forall|k: int|
            0 <= k < spec_plan(subs, c).len() ==> 0 <= #[trigger] spec_plan(subs, c)[k]
                < subs.len(),
    decreases subs.len(),
{
    if subs.len() > 0 {
        lemma_plan_bounded(subs.drop_last(), c);
        let prefix = spec_plan(subs.drop_last(), c);
        let full = spec_plan(subs, c);
        assert forall|k: int| 0 <= k < full.len() implies 0 <= #[trigger] full[k] < subs.len() by {
            if k < prefix.len() {
                assert(full[k] == prefix[k]);
            }
        }
    }
}

/// A plan holds exactly the live subscriptions that watch the written
/// cell: subscription `j` is planned if and only if it is alive and
/// its dependency set contains `c`.
pub proof fn lemma_plan_complete(subs: Seq<Subscription>, c: CellId, j: int)
    requires
        0 <= j < subs.len(),
    ensures
        spec_plan(subs, c).contains(j) <==> subs[j].watches(c),
    decreases subs.len(),
{
    let prefix = spec_plan(subs.drop_last(), c);
    let full = spec_plan(subs, c);
    lemma_plan_bounded(subs.drop_last(), c);
    if j < subs.len() - 1 {
        lemma_plan_complete(subs.drop_last(), c, j);
        assert(subs.drop_last()[j] == subs[j]);
        if subs.last().watches(c) {
            assert(full == prefix.push(subs.len() - 1));
            if prefix.contains(j) {
                let k = choose|k: int| 0 <= k < prefix.len() && prefix[k] == j;
                assert(full[k] == j);
            }
            if full.contains(j) {
                let k = choose|k: int| 0 <= k < full.len() && full[k] == j;
                assert(prefix[k] == j);
            }
        }
    } else {
        if subs.last().watches(c) {
            assert(full == prefix.push(j));
            assert(full[full.len() - 1] == j);
        } else {
            assert(full == prefix);
            if full.contains(j) {
                let k = choose|k: int| 0 <= k < full.len() && full[k] == j;
                assert(prefix[k] < subs.len() - 1);
            }
        }
    }
}

/// Plans keep registration order and fire each subscription at most
/// once per write: the planned indices are strictly increasing.
pub proof fn lemma_plan_ordered(subs: Seq<Subscription>, c: CellId)
    ensures
        forall|a: int, b: int|
            0 <= a < b < spec_plan(subs, c).len() ==> #[trigger] spec_plan(subs, c)[a]
                < #[trigger] spec_plan(subs, c)[b],
    decreases subs.len(),
{
    if subs.len() > 0 {
        lemma_plan_ordered(subs.drop_last(), c);
        lemma_plan_bounded(subs.drop_last(), c);
        let prefix = spec_plan(subs.drop_last(), c);
        let full = spec_plan(subs, c);
        assert forall|a: int, b: int| 0 <= a < b < full.len() implies full[a] < full[b] by {
            if b < prefix.len() {
                assert(full[a] == prefix[a] && full[b] == prefix[b]);
            } else if subs.last().watches(c) {
                assert(full[a] == prefix[a] && full[b] == subs.len() - 1);
            }
        }
    }
}

/// A subscription cancelled before a pending mutation's notification
/// reaches it is never planned for that mutation, so its callback is
/// not invoked.
pub proof fn lemma_cancelled_never_planned(subs: Seq<Subscription>, c: CellId, j: int)
    requires
        0 <= j < subs.len(),
        !subs[j].is_alive(),
    ensures
        !spec_plan(subs, c).contains(j),
{
    lemma_plan_complete(subs, c, j);
}

} // verus!
