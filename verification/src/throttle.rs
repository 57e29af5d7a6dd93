//! Admission control: a two-level counting pool (one global ceiling, one
//! ceiling per origin) with per-origin lockout deadlines and two-class FIFO
//! wait queues.
//!
//! The controller is a sequential state machine: a runtime that multiplexes
//! many concurrent callers serializes their calls (for example behind a
//! mutex) and suspends a caller whose call returns a queued outcome until a
//! later `release` or `admit_next` hands that caller a grant. Time enters
//! only through the `now` arguments, as a count of abstract clock ticks.
//!
//! Queue discipline: waiters that asked for priority admission are served
//! before ordinary waiters; within each class, first-asked-first-served.
//! While an origin is locked out its queued waiters keep their positions and
//! no ticket for that origin is granted; after the deadline passes,
//! `admit_next` admits them in order.

use vstd::prelude::*;

verus! {

/// Immutable admission policy: the two concurrency ceilings and the lockout
/// duration imposed after a rate-limit signal. Both ceilings must be at
/// least 1; `new` enforces that.
#[derive(Clone, Copy, Debug)]
pub struct TicketPolicy {
    pub max_global: u64,
    pub max_per_site: u64,
    /// Lockout duration, in the same clock ticks as every `now` argument.
    pub rate_limit_wait_time: u64,
}

impl TicketPolicy {
    pub open spec fn wf(&self) -> bool {
        self.max_global >= 1 && self.max_per_site >= 1
    }

    /// Validated construction: both ceilings must be positive.
    pub fn new(max_global: u64, max_per_site: u64, rate_limit_wait_time: u64) -> (r: Option<
        TicketPolicy,
    >)
        ensures
            r is Some <==> (max_global >= 1 && max_per_site >= 1),
            r matches Some(p) ==> p == (TicketPolicy {
                max_global,
                max_per_site,
                rate_limit_wait_time,
            }) && p.wf(),
    {
        if max_global >= 1 && max_per_site >= 1 {
            Some(TicketPolicy { max_global, max_per_site, rate_limit_wait_time })
        } else {
            None
        }
    }
}

/// A lease on one unit of the global pool and one unit of its origin's pool.
/// Only this module creates tickets; releasing one consumes it, so a ticket
/// cannot be returned twice.
#[derive(Debug)]
pub struct Ticket {
    origin: usize,
}

impl Ticket {
    /// The origin whose pool this ticket holds a unit of.
    pub closed spec fn origin_spec(&self) -> usize {
        self.origin
    }

    pub fn origin(&self) -> (o: usize)
        ensures
            o == self.origin_spec(),
    {
        self.origin
    }
}

/// A caller suspended on the global pool. It already holds one unit of its
/// origin's pool, acquired local-before-global.
#[derive(Clone, Copy, Debug, PartialEq, Eq, Structural)]
pub struct GlobalWaiter {
    pub waiter: u64,
    pub origin: usize,
}

/// Per-origin mutable state: the bounded local pool, the lockout deadline
/// (0 when the origin was never locked), and the local wait queues.
#[derive(Debug)]
pub struct OriginPartition {
    pub available: u64,
    pub in_use: u64,
    pub locked_till: u64,
    pub q_pri: Vec<u64>,
    pub q_norm: Vec<u64>,
}

impl OriginPartition {
    pub open spec fn wf(&self, policy: TicketPolicy) -> bool {
        self.available + self.in_use == policy.max_per_site
    }

    /// The state of a partition that was never touched.
    pub open spec fn is_fresh(&self, policy: TicketPolicy) -> bool {
        &&& self.available == policy.max_per_site
        &&& self.in_use == 0
        &&& self.locked_till == 0
        &&& self.q_pri@ == Seq::<u64>::empty()
        &&& self.q_norm@ == Seq::<u64>::empty()
    }

    fn fresh(policy: &TicketPolicy) -> (p: OriginPartition)
        ensures
            p.is_fresh(*policy),
            p.wf(*policy),
    {
        OriginPartition {
            available: policy.max_per_site,
            in_use: 0,
            locked_till: 0,
            q_pri: Vec::new(),
            q_norm: Vec::new(),
        }
    }
}

/// What `get_ticket` reports back to the caller.
#[derive(Debug)]
pub enum AcquireOutcome {
    /// Capacity was free on both levels: the caller holds the ticket now.
    Granted(Ticket),
    /// The origin is locked out until the carried instant; the caller must
    /// wait that long and ask again.
    Blocked(u64),
    /// The origin's pool is exhausted (or has earlier waiters): the caller
    /// is queued there and will be admitted by a later `release` or
    /// `admit_next`.
    QueuedLocal,
    /// The caller took a unit of the origin's pool but the global pool is
    /// exhausted: it is queued there, holding its local unit.
    QueuedGlobal,
}

/// A ticket handed to a previously queued waiter.
#[derive(Debug)]
pub struct Grant {
    pub waiter: u64,
    pub ticket: Ticket,
}

/// What returning a ticket did for the waiters, beyond refilling the pools.
#[derive(Debug)]
pub struct ReleaseEffect {
    /// The waiter, if any, that received a full ticket out of this release.
    pub granted: Option<Grant>,
    /// The local waiter, if any, that took the freed local unit but had to
    /// queue on the exhausted global pool.
    pub moved_to_global: Option<u64>,
}

/// One admission performed by `admit_next`.
#[derive(Debug)]
pub enum WakeEvent {
    /// The longest-waiting eligible local waiter received a full ticket.
    Granted(Grant),
    /// It took a local unit but had to queue on the exhausted global pool.
    MovedToGlobal(u64),
}

/// The admission controller: grants and takes back tickets for origin-keyed
/// callers, honoring the global ceiling, the per-origin ceilings and the
/// per-origin lockout deadlines. Origins are dense indices (an interner maps
/// real origin keys to them); partitions are created on first reference.
#[derive(Debug)]
pub struct Ticketer {
    pub policy: TicketPolicy,
    pub global_available: u64,
    /// Number of granted, not yet released tickets.
    pub global_in_use: u64,
    pub gq_pri: Vec<GlobalWaiter>,
    pub gq_norm: Vec<GlobalWaiter>,
    pub origins: Vec<OriginPartition>,
}

/// The partition fields of origin `o` are the same in `pre` and `post`,
/// counting a not-yet-created partition as fresh.
pub open spec fn origin_unchanged(pre: Ticketer, post: Ticketer, o: int) -> bool {
    &&& post.origin_locked_till(o) == pre.origin_locked_till(o)
    &&& post.origin_available(o) == pre.origin_available(o)
    &&& post.origin_in_use(o) == pre.origin_in_use(o)
    &&& post.origin_q_pri(o) == pre.origin_q_pri(o)
    &&& post.origin_q_norm(o) == pre.origin_q_norm(o)
}

/// The global pool and its queues are the same in `pre` and `post`.
pub open spec fn global_unchanged(pre: Ticketer, post: Ticketer) -> bool {
    &&& post.global_available == pre.global_available
    &&& post.global_in_use == pre.global_in_use
    &&& post.gq_pri@ == pre.gq_pri@
    &&& post.gq_norm@ == pre.gq_norm@
}

/// Partitions other than `o` kept their fields, so every origin but `o` is
/// untouched in the accessor sense.
proof fn lemma_others_unchanged(pre: Ticketer, post: Ticketer, o: int)
    requires
        pre.origins@.len() == post.origins@.len(),
        pre.policy == post.policy,
        forall|j: int|
            0 <= j < pre.origins@.len() && j != o ==> post.origins@[j] == pre.origins@[j],
    ensures
        forall|j: int| j != o ==> origin_unchanged(pre, post, j),
{
    assert forall|j: int| j != o implies origin_unchanged(pre, post, j) by {
        if 0 <= j < pre.origins@.len() {
            assert(post.origins@[j] == pre.origins@[j]);
        }
    }
}

proof fn lemma_unchanged_trans(a: Ticketer, b: Ticketer, c: Ticketer, o: int)
    requires
        forall|j: int| j != o ==> origin_unchanged(a, b, j),
        forall|j: int| j != o ==> origin_unchanged(b, c, j),
    ensures
        forall|j: int| j != o ==> origin_unchanged(a, c, j),
{
    assert forall|j: int| j != o implies origin_unchanged(a, c, j) by {
        assert(origin_unchanged(a, b, j));
        assert(origin_unchanged(b, c, j));
    }
}

/// The full effect of one `get_ticket` call: the outcome `out` and how
/// `post` differs from `pre`, for caller `waiter` asking for `origin`
/// (with or without priority admission) at time `now`.
pub open spec fn spec_acquire_transition(
    pre: Ticketer,
    post: Ticketer,
    origin: usize,
    waiter: u64,
    priority: bool,
    now: u64,
    out: AcquireOutcome,
) -> bool {
    &&& post.policy == pre.policy
    &&& (forall|j: int| j != origin ==> origin_unchanged(pre, post, j))
    &&& post.origin_locked_till(origin as int) == pre.origin_locked_till(origin as int)
    &&& ({
        let lt = pre.origin_locked_till(origin as int);
        let avail = pre.origin_available(origin as int);
        let in_use = pre.origin_in_use(origin as int);
        let qp = pre.origin_q_pri(origin as int);
        let qn = pre.origin_q_norm(origin as int);
        if lt > now {
            // P2: no grant while the lockout deadline is in the future.
            &&& out == AcquireOutcome::Blocked(lt)
            &&& origin_unchanged(pre, post, origin as int)
            &&& global_unchanged(pre, post)
        } else if avail > 0 && qp.len() == 0 && (priority || qn.len() == 0) {
            &&& post.origin_available(origin as int) == avail - 1
            &&& post.origin_in_use(origin as int) == in_use + 1
            &&& post.origin_q_pri(origin as int) == qp
            &&& post.origin_q_norm(origin as int) == qn
            &&& if pre.global_available > 0 {
                &&& post.global_available == pre.global_available - 1
                &&& post.global_in_use == pre.global_in_use + 1
                &&& post.gq_pri@ == pre.gq_pri@
                &&& post.gq_norm@ == pre.gq_norm@
                &&& out matches AcquireOutcome::Granted(t) && t.origin_spec() == origin
            } else {
                &&& post.global_available == pre.global_available
                &&& post.global_in_use == pre.global_in_use
                &&& if priority {
                    post.gq_pri@ == pre.gq_pri@.push(
                        GlobalWaiter { waiter, origin },
                    ) && post.gq_norm@ == pre.gq_norm@
                } else {
                    post.gq_norm@ == pre.gq_norm@.push(
                        GlobalWaiter { waiter, origin },
                    ) && post.gq_pri@ == pre.gq_pri@
                }
                &&& out is QueuedGlobal
            }
        } else {
            &&& post.origin_available(origin as int) == avail
            &&& post.origin_in_use(origin as int) == in_use
            &&& if priority {
                post.origin_q_pri(origin as int) == qp.push(waiter)
                    && post.origin_q_norm(origin as int) == qn
            } else {
                post.origin_q_norm(origin as int) == qn.push(waiter)
                    && post.origin_q_pri(origin as int) == qp
            }
            &&& global_unchanged(pre, post)
            &&& out is QueuedLocal
        }
    })
}

impl Ticketer {
    pub open spec fn wf(&self) -> bool {
        &&& self.policy.wf()
        &&& self.global_available + self.global_in_use == self.policy.max_global
        &&& self.global_available > 0 ==> self.gq_pri@.len() == 0 && self.gq_norm@.len() == 0
        &&& forall|j: int|
            0 <= j < self.origins@.len() ==> (#[trigger] self.origins@[j]).wf(self.policy)
        &&& forall|j: int|
            0 <= j < self.gq_pri@.len() ==> (#[trigger] self.gq_pri@[j]).origin
                < self.origins@.len()
        &&& forall|j: int|
            0 <= j < self.gq_norm@.len() ==> (#[trigger] self.gq_norm@[j]).origin
                < self.origins@.len()
    }

    /// Lockout deadline of origin `o`; a partition not yet created was never
    /// locked.
    pub open spec fn origin_locked_till(&self, o: int) -> u64 {
        if 0 <= o < self.origins@.len() {
            self.origins@[o].locked_till
        } else {
            0
        }
    }

    /// Free units in origin `o`'s pool; a partition not yet created is full.
    pub open spec fn origin_available(&self, o: int) -> u64 {
        if 0 <= o < self.origins@.len() {
            self.origins@[o].available
        } else {
            self.policy.max_per_site
        }
    }

    /// Held units of origin `o`'s pool: outstanding tickets for `o` plus
    /// waiters from `o` queued on the global pool.
    pub open spec fn origin_in_use(&self, o: int) -> u64 {
        if 0 <= o < self.origins@.len() {
            self.origins@[o].in_use
        } else {
            0
        }
    }

    pub open spec fn origin_q_pri(&self, o: int) -> Seq<u64> {
        if 0 <= o < self.origins@.len() {
            self.origins@[o].q_pri@
        } else {
            Seq::empty()
        }
    }

    pub open spec fn origin_q_norm(&self, o: int) -> Seq<u64> {
        if 0 <= o < self.origins@.len() {
            self.origins@[o].q_norm@
        } else {
            Seq::empty()
        }
    }

    pub fn new(policy: &TicketPolicy) -> (t: Ticketer)
        requires
            policy.wf(),
        ensures
            t.wf(),
            t.policy == *policy,
            t.global_available == policy.max_global,
            t.global_in_use == 0,
            t.gq_pri@.len() == 0,
            t.gq_norm@.len() == 0,
            t.origins@.len() == 0,
    {
        Ticketer {
            policy: *policy,
            global_available: policy.max_global,
            global_in_use: 0,
            gq_pri: Vec::new(),
            gq_norm: Vec::new(),
            origins: Vec::new(),
        }
    }

    /// Creates origin `origin`'s partition (and those below it) if missing.
    /// Nothing else changes.
    pub fn ensure_exists(&mut self, origin: usize)
        requires
            old(self).wf(),
            origin < usize::MAX,
        ensures
            final(self).wf(),
            final(self).policy == old(self).policy,
            global_unchanged(*old(self), *final(self)),
            origin < final(self).origins@.len(),
            final(self).origins@.len() == if origin < old(self).origins@.len() {
                old(self).origins@.len() as int
            } else {
                origin + 1
            },
            forall|j: int|
                0 <= j < old(self).origins@.len() ==> final(self).origins@[j] == old(
                    self,
                ).origins@[j],
            forall|j: int|
                old(self).origins@.len() <= j < final(self).origins@.len() ==> (
                #[trigger] final(self).origins@[j]).is_fresh(old(self).policy),
            forall|j: int| origin_unchanged(*old(self), *final(self), j),
    {
        while self.origins.len() <= origin
            invariant
                self.wf(),
                self.policy == old(self).policy,
                global_unchanged(*old(self), *self),
                origin < usize::MAX,
                old(self).origins@.len() <= self.origins@.len(),
                origin < old(self).origins@.len() ==> self.origins@.len() == old(
                    self,
                ).origins@.len(),
                origin >= old(self).origins@.len() ==> self.origins@.len() <= origin + 1,
                forall|j: int|
                    0 <= j < old(self).origins@.len() ==> self.origins@[j] == old(
                        self,
                    ).origins@[j],
                forall|j: int|
                    old(self).origins@.len() <= j < self.origins@.len() ==> (
                    #[trigger] self.origins@[j]).is_fresh(old(self).policy),
            decreases origin + 1 - self.origins@.len(),
        {
            let p = OriginPartition::fresh(&self.policy);
            self.origins.push(p);
        }
        proof {
            assert forall|j: int| origin_unchanged(*old(self), *self, j) by {
                if 0 <= j < old(self).origins@.len() {
                    assert(self.origins@[j] == old(self).origins@[j]);
                    assert(self.origin_locked_till(j) == old(self).origin_locked_till(j));
                    assert(self.origin_available(j) == old(self).origin_available(j));
                    assert(self.origin_in_use(j) == old(self).origin_in_use(j));
                    assert(self.origin_q_pri(j) == old(self).origin_q_pri(j));
                    assert(self.origin_q_norm(j) == old(self).origin_q_norm(j));
                } else if old(self).origins@.len() <= j < self.origins@.len() {
                    assert(self.origins@[j].is_fresh(old(self).policy));
                    assert(self.origin_locked_till(j) == old(self).origin_locked_till(j));
                    assert(self.origin_available(j) == old(self).origin_available(j));
                    assert(self.origin_in_use(j) == old(self).origin_in_use(j));
                    assert(self.origin_q_pri(j) == old(self).origin_q_pri(j));
                    assert(self.origin_q_norm(j) == old(self).origin_q_norm(j));
                } else {
                    assert(self.origin_locked_till(j) == old(self).origin_locked_till(j));
                    assert(self.origin_available(j) == old(self).origin_available(j));
                    assert(self.origin_in_use(j) == old(self).origin_in_use(j));
                    assert(self.origin_q_pri(j) == old(self).origin_q_pri(j));
                    assert(self.origin_q_norm(j) == old(self).origin_q_norm(j));
                }
            }
        }
    }

    /// Non-blocking probe: is capacity free right now on both levels? It
    /// consumes nothing and ignores lockouts, mirroring a plain permit
    /// count.
    pub fn can_get_ticket(&self, origin: usize) -> (r: bool)
        ensures
            r == (self.global_available > 0 && self.origin_available(origin as int) > 0),
    {
        if self.global_available == 0 {
            return false;
        }
        if origin < self.origins.len() {
            self.origins[origin].available > 0
        } else {
            self.policy.max_per_site > 0
        }
    }

    /// Sets or extends origin `origin`'s lockout deadline to
    /// `now + rate_limit_wait_time`. Concurrent extensions only ever move
    /// the deadline forward: the new deadline is the maximum of the old and
    /// the requested one. Held tickets are not revoked.
    pub fn mark_origin_locked(&mut self, origin: usize, now: u64)
        requires
            old(self).wf(),
            origin < usize::MAX,
            now + old(self).policy.rate_limit_wait_time <= u64::MAX,
        ensures
            final(self).wf(),
            final(self).policy == old(self).policy,
            global_unchanged(*old(self), *final(self)),
            forall|j: int| j != origin ==> origin_unchanged(*old(self), *final(self), j),
            final(self).origin_locked_till(origin as int) == if old(self).origin_locked_till(
                origin as int,
            ) >= now + old(self).policy.rate_limit_wait_time {
                old(self).origin_locked_till(origin as int) as int
            } else {
                now + old(self).policy.rate_limit_wait_time
            },
            final(self).origin_available(origin as int) == old(self).origin_available(
                origin as int,
            ),
            final(self).origin_in_use(origin as int) == old(self).origin_in_use(origin as int),
            final(self).origin_q_pri(origin as int) == old(self).origin_q_pri(origin as int),
            final(self).origin_q_norm(origin as int) == old(self).origin_q_norm(origin as int),
    {
        self.ensure_exists(origin);
        let ghost mid = *self;
        let deadline = now + self.policy.rate_limit_wait_time;
        if self.origins[origin].locked_till < deadline {
            self.origins[origin].locked_till = deadline;
        }
        proof {
            assert forall|j: int| j != origin implies origin_unchanged(
                *old(self),
                *self,
                j,
            ) by {
                assert(origin_unchanged(*old(self), mid, j));
                assert(origin_unchanged(mid, *self, j));
            }
        }
    }

    /// Current lockout deadline for `origin` (0 if it was never locked).
    pub fn get_origin_locked_till(&self, origin: usize) -> (r: u64)
        ensures
            r == self.origin_locked_till(origin as int),
    {
        if origin < self.origins.len() {
            self.origins[origin].locked_till
        } else {
            0
        }
    }

    /// Asks for a ticket for `origin` on behalf of caller `waiter` at time
    /// `now`. Never grants while the origin's lockout deadline is in the
    /// future; otherwise takes the local unit first and only then the global
    /// unit, queueing (priority waiters ahead of ordinary ones, FIFO within
    /// each class) on whichever pool is exhausted.
    #[verifier::rlimit(50)]
    pub fn get_ticket(&mut self, origin: usize, waiter: u64, priority: bool, now: u64) -> (out:
        AcquireOutcome)
        requires
            old(self).wf(),
            origin < usize::MAX,
        ensures
            final(self).wf(),
            spec_acquire_transition(*old(self), *final(self), origin, waiter, priority, now, out),
    {
        self.ensure_exists(origin);
        let ghost mid = *self;
        proof {
            assert forall|j: int| j != origin implies origin_unchanged(*old(self), mid, j) by {}
        }
        let lt = self.origins[origin].locked_till;
        if lt > now {
            return AcquireOutcome::Blocked(lt);
        }
        let can_local = self.origins[origin].available > 0 && self.origins[origin].q_pri.len()
            == 0 && (priority || self.origins[origin].q_norm.len() == 0);
        if !can_local {
            if priority {
                self.origins[origin].q_pri.push(waiter);
            } else {
                self.origins[origin].q_norm.push(waiter);
            }
            proof {
                lemma_others_unchanged(mid, *self, origin as int);
                lemma_unchanged_trans(*old(self), mid, *self, origin as int);
            }
            return AcquireOutcome::QueuedLocal;
        }
        self.origins[origin].available = self.origins[origin].available - 1;
        self.origins[origin].in_use = self.origins[origin].in_use + 1;
        let out = if self.global_available > 0 {
            self.global_available = self.global_available - 1;
            self.global_in_use = self.global_in_use + 1;
            AcquireOutcome::Granted(Ticket { origin })
        } else {
            if priority {
                self.gq_pri.push(GlobalWaiter { waiter, origin });
            } else {
                self.gq_norm.push(GlobalWaiter { waiter, origin });
            }
            AcquireOutcome::QueuedGlobal
        };
        proof {
            lemma_others_unchanged(mid, *self, origin as int);
            lemma_unchanged_trans(*old(self), mid, *self, origin as int);
        }
        out
    }

    /// Takes back a ticket at time `now`. The global unit is returned first,
    /// then the local unit, mirroring the acquisition order. Each freed unit
    /// wakes at most one waiter, and a waiter receives a unit only when this
    /// release freed one: the front global waiter (priority class first) is
    /// granted outright; the origin's front local waiter, unless the origin
    /// is locked out, takes the local unit and either completes with a free
    /// global unit or joins the global queue. Consuming the ticket makes a
    /// second release of the same lease impossible.
    pub fn release(&mut self, ticket: Ticket, now: u64) -> (eff: ReleaseEffect)
        requires
            old(self).wf(),
            ticket.origin_spec() < old(self).origins@.len(),
            old(self).origins@[ticket.origin_spec() as int].in_use >= 1,
            old(self).global_in_use >= 1,
        ensures
            final(self).wf(),
            final(self).policy == old(self).policy,
            final(self).origins@.len() == old(self).origins@.len(),
            forall|j: int|
                j != ticket.origin_spec() ==> origin_unchanged(*old(self), *final(self), j),
            final(self).origin_locked_till(ticket.origin_spec() as int) == old(
                self,
            ).origin_locked_till(ticket.origin_spec() as int),
            ({
                let o = ticket.origin_spec() as int;
                let gqp = old(self).gq_pri@;
                let gqn = old(self).gq_norm@;
                let lp = old(self).origin_q_pri(o);
                let ln = old(self).origin_q_norm(o);
                let locked = old(self).origin_locked_till(o) > now;
                let serve_local = !locked && (lp.len() > 0 || ln.len() > 0);
                let lw = if lp.len() > 0 {
                    lp[0]
                } else {
                    ln[0]
                };
                let lp1 = if lp.len() > 0 {
                    lp.skip(1)
                } else {
                    lp
                };
                let ln1 = if lp.len() > 0 {
                    ln
                } else {
                    ln.skip(1)
                };
                let gqp1 = if gqp.len() > 0 {
                    gqp.skip(1)
                } else {
                    gqp
                };
                let gqn1 = if gqp.len() > 0 {
                    gqn
                } else if gqn.len() > 0 {
                    gqn.skip(1)
                } else {
                    gqn
                };
                if gqp.len() > 0 || gqn.len() > 0 {
                    let gw = if gqp.len() > 0 {
                        gqp[0]
                    } else {
                        gqn[0]
                    };
                    &&& eff.granted matches Some(g) && g.waiter == gw.waiter
                        && g.ticket.origin_spec() == gw.origin
                    &&& final(self).global_available == old(self).global_available
                    &&& final(self).global_in_use == old(self).global_in_use
                    &&& if serve_local {
                        &&& eff.moved_to_global == Some(lw)
                        &&& final(self).origin_available(o) == old(self).origin_available(o)
                        &&& final(self).origin_in_use(o) == old(self).origin_in_use(o)
                        &&& final(self).origin_q_pri(o) == lp1
                        &&& final(self).origin_q_norm(o) == ln1
                        &&& if lp.len() > 0 {
                            final(self).gq_pri@ == gqp1.push(
                                GlobalWaiter { waiter: lw, origin: ticket.origin_spec() },
                            ) && final(self).gq_norm@ == gqn1
                        } else {
                            final(self).gq_norm@ == gqn1.push(
                                GlobalWaiter { waiter: lw, origin: ticket.origin_spec() },
                            ) && final(self).gq_pri@ == gqp1
                        }
                    } else {
                        &&& eff.moved_to_global is None
                        &&& final(self).origin_available(o) == old(self).origin_available(o) + 1
                        &&& final(self).origin_in_use(o) == old(self).origin_in_use(o) - 1
                        &&& final(self).origin_q_pri(o) == lp
                        &&& final(self).origin_q_norm(o) == ln
                        &&& final(self).gq_pri@ == gqp1
                        &&& final(self).gq_norm@ == gqn1
                    }
                } else {
                    &&& eff.moved_to_global is None
                    &&& if serve_local {
                        &&& eff.granted matches Some(g) && g.waiter == lw
                            && g.ticket.origin_spec() == ticket.origin_spec()
                        &&& final(self).global_available == old(self).global_available
                        &&& final(self).global_in_use == old(self).global_in_use
                        &&& final(self).origin_available(o) == old(self).origin_available(o)
                        &&& final(self).origin_in_use(o) == old(self).origin_in_use(o)
                        &&& final(self).origin_q_pri(o) == lp1
                        &&& final(self).origin_q_norm(o) == ln1
                        &&& final(self).gq_pri@ == gqp
                        &&& final(self).gq_norm@ == gqn
                    } else {
                        &&& eff.granted is None
                        &&& final(self).global_available == old(self).global_available + 1
                        &&& final(self).global_in_use == old(self).global_in_use - 1
                        &&& final(self).origin_available(o) == old(self).origin_available(o) + 1
                        &&& final(self).origin_in_use(o) == old(self).origin_in_use(o) - 1
                        &&& final(self).origin_q_pri(o) == lp
                        &&& final(self).origin_q_norm(o) == ln
                        &&& final(self).gq_pri@ == gqp
                        &&& final(self).gq_norm@ == gqn
                    }
                }
            }),
    {
        let o = ticket.origin();
        // global unit first: pass it to the front global waiter, if any
        let granted_global: Option<Grant> = if self.gq_pri.len() > 0 {
            let gw = self.gq_pri.remove(0);
            proof {
                assert(old(self).gq_pri@.remove(0) =~= old(self).gq_pri@.skip(1));
            }
            Some(Grant { waiter: gw.waiter, ticket: Ticket { origin: gw.origin } })
        } else if self.gq_norm.len() > 0 {
            let gw = self.gq_norm.remove(0);
            proof {
                assert(old(self).gq_norm@.remove(0) =~= old(self).gq_norm@.skip(1));
            }
            Some(Grant { waiter: gw.waiter, ticket: Ticket { origin: gw.origin } })
        } else {
            self.global_available = self.global_available + 1;
            self.global_in_use = self.global_in_use - 1;
            None
        };
        let ghost mid = *self;
        // then the local unit of the ticket's origin
        let locked = self.origins[o].locked_till > now;
        let serve_local = !locked && (self.origins[o].q_pri.len() > 0
            || self.origins[o].q_norm.len() > 0);
        if !serve_local {
            self.origins[o].available = self.origins[o].available + 1;
            self.origins[o].in_use = self.origins[o].in_use - 1;
            proof {
                lemma_others_unchanged(mid, *self, o as int);
                lemma_others_unchanged(*old(self), mid, o as int);
                lemma_unchanged_trans(*old(self), mid, *self, o as int);
            }
            return ReleaseEffect { granted: granted_global, moved_to_global: None };
        }
        let was_pri = self.origins[o].q_pri.len() > 0;
        let lw = if was_pri {
            let w = self.origins[o].q_pri.remove(0);
            proof {
                assert(old(self).origin_q_pri(o as int).remove(0) =~= old(self).origin_q_pri(
                    o as int,
                ).skip(1));
            }
            w
        } else {
            let w = self.origins[o].q_norm.remove(0);
            proof {
                assert(old(self).origin_q_norm(o as int).remove(0) =~= old(self).origin_q_norm(
                    o as int,
                ).skip(1));
            }
            w
        };
        let eff = if self.global_available > 0 {
            // only reachable when no global waiter was queued, so the freed
            // global unit is still in the pool and the local waiter takes it
            self.global_available = self.global_available - 1;
            self.global_in_use = self.global_in_use + 1;
            ReleaseEffect {
                granted: Some(Grant { waiter: lw, ticket: Ticket { origin: o } }),
                moved_to_global: None,
            }
        } else {
            if was_pri {
                self.gq_pri.push(GlobalWaiter { waiter: lw, origin: o });
            } else {
                self.gq_norm.push(GlobalWaiter { waiter: lw, origin: o });
            }
            ReleaseEffect { granted: granted_global, moved_to_global: Some(lw) }
        };
        proof {
            lemma_others_unchanged(mid, *self, o as int);
            lemma_others_unchanged(*old(self), mid, o as int);
            lemma_unchanged_trans(*old(self), mid, *self, o as int);
        }
        eff
    }

    /// Admits the longest-waiting eligible waiter of `origin`, if any: the
    /// runtime calls this after a lockout deadline has passed (and repeats
    /// it until it returns `None`) to drain waiters that queued while the
    /// origin was locked or exhausted. Nothing happens while the lockout is
    /// still active, while the origin's pool is empty, or while nobody
    /// waits.
    pub fn admit_next(&mut self, origin: usize, now: u64) -> (woke: Option<WakeEvent>)
        requires
            old(self).wf(),
        ensures
            final(self).wf(),
            final(self).policy == old(self).policy,
            forall|j: int| j != origin ==> origin_unchanged(*old(self), *final(self), j),
            final(self).origin_locked_till(origin as int) == old(self).origin_locked_till(
                origin as int,
            ),
            ({
                let o = origin as int;
                let lp = old(self).origin_q_pri(o);
                let ln = old(self).origin_q_norm(o);
                let avail = old(self).origin_available(o);
                let eligible = old(self).origin_locked_till(o) <= now && avail > 0 && (lp.len()
                    > 0 || ln.len() > 0);
                let lw = if lp.len() > 0 {
                    lp[0]
                } else {
                    ln[0]
                };
                let lp1 = if lp.len() > 0 {
                    lp.skip(1)
                } else {
                    lp
                };
                let ln1 = if lp.len() > 0 {
                    ln
                } else {
                    ln.skip(1)
                };
                if !eligible {
                    &&& woke is None
                    &&& origin_unchanged(*old(self), *final(self), o)
                    &&& global_unchanged(*old(self), *final(self))
                } else {
                    &&& final(self).origin_available(o) == avail - 1
                    &&& final(self).origin_in_use(o) == old(self).origin_in_use(o) + 1
                    &&& final(self).origin_q_pri(o) == lp1
                    &&& final(self).origin_q_norm(o) == ln1
                    &&& if old(self).global_available > 0 {
                        &&& woke matches Some(WakeEvent::Granted(g)) && g.waiter == lw
                            && g.ticket.origin_spec() == origin
                        &&& final(self).global_available == old(self).global_available - 1
                        &&& final(self).global_in_use == old(self).global_in_use + 1
                        &&& final(self).gq_pri@ == old(self).gq_pri@
                        &&& final(self).gq_norm@ == old(self).gq_norm@
                    } else {
                        &&& woke == Some(WakeEvent::MovedToGlobal(lw))
                        &&& final(self).global_available == old(self).global_available
                        &&& final(self).global_in_use == old(self).global_in_use
                        &&& if lp.len() > 0 {
                            final(self).gq_pri@ == old(self).gq_pri@.push(
                                GlobalWaiter { waiter: lw, origin },
                            ) && final(self).gq_norm@ == old(self).gq_norm@
                        } else {
                            final(self).gq_norm@ == old(self).gq_norm@.push(
                                GlobalWaiter { waiter: lw, origin },
                            ) && final(self).gq_pri@ == old(self).gq_pri@
                        }
                    }
                }
            }),
    {
        if origin >= self.origins.len() {
            return None;
        }
        if self.origins[origin].locked_till > now || self.origins[origin].available == 0 {
            return None;
        }
        let was_pri = self.origins[origin].q_pri.len() > 0;
        if !was_pri && self.origins[origin].q_norm.len() == 0 {
            return None;
        }
        let lw = if was_pri {
            let w = self.origins[origin].q_pri.remove(0);
            proof {
                assert(old(self).origin_q_pri(origin as int).remove(0) =~= old(
                    self,
                ).origin_q_pri(origin as int).skip(1));
            }
            w
        } else {
            let w = self.origins[origin].q_norm.remove(0);
            proof {
                assert(old(self).origin_q_norm(origin as int).remove(0) =~= old(
                    self,
                ).origin_q_norm(origin as int).skip(1));
            }
            w
        };
        self.origins[origin].available = self.origins[origin].available - 1;
        self.origins[origin].in_use = self.origins[origin].in_use + 1;
        let woke = if self.global_available > 0 {
            self.global_available = self.global_available - 1;
            self.global_in_use = self.global_in_use + 1;
            Some(WakeEvent::Granted(Grant { waiter: lw, ticket: Ticket { origin } }))
        } else {
            if was_pri {
                self.gq_pri.push(GlobalWaiter { waiter: lw, origin });
            } else {
                self.gq_norm.push(GlobalWaiter { waiter: lw, origin });
            }
            Some(WakeEvent::MovedToGlobal(lw))
        };
        proof {
            lemma_others_unchanged(*old(self), *self, origin as int);
        }
        woke
    }
}

/// While an origin's lockout deadline lies in the future, asking for a
/// ticket for it never succeeds: the caller is told to wait out the
/// deadline, and nothing changes.
pub proof fn lemma_no_grant_during_lockout(
    pre: Ticketer,
    post: Ticketer,
    origin: usize,
    waiter: u64,
    priority: bool,
    now: u64,
    out: AcquireOutcome,
)
    requires
        spec_acquire_transition(pre, post, origin, waiter, priority, now, out),
        pre.origin_locked_till(origin as int) > now,
    ensures
        out == AcquireOutcome::Blocked(pre.origin_locked_till(origin as int)),
        !(out is Granted),
        origin_unchanged(pre, post, origin as int),
        global_unchanged(pre, post),
{
}

/// The moment the deadline has passed, a ticket comes at once whenever
/// capacity is free on both levels and nobody is queued ahead.
pub proof fn lemma_grant_once_lockout_passes(
    pre: Ticketer,
    post: Ticketer,
    origin: usize,
    waiter: u64,
    priority: bool,
    now: u64,
    out: AcquireOutcome,
)
    requires
        spec_acquire_transition(pre, post, origin, waiter, priority, now, out),
        pre.origin_locked_till(origin as int) <= now,
        pre.origin_available(origin as int) > 0,
        pre.origin_q_pri(origin as int).len() == 0,
        pre.origin_q_norm(origin as int).len() == 0,
        pre.global_available > 0,
    ensures
        out matches AcquireOutcome::Granted(t) && t.origin_spec() == origin,
{
}

/// For every reachable controller state, held capacity never exceeds the
/// ceilings: the number of granted, unreleased tickets stays at or below
/// `max_global`, and each origin's held units (tickets plus waiters already
/// holding a local unit in the global queue) stay at or below
/// `max_per_site`. Every operation above preserves `wf`, so this bound
/// holds across any sequence of concurrent acquires and releases.
pub proof fn lemma_capacity_never_exceeded(t: &Ticketer)
    requires
        t.wf(),
    ensures
        t.global_in_use <= t.policy.max_global,
        forall|o: int| #![auto] t.origin_in_use(o) <= t.policy.max_per_site,
{
    assert forall|o: int| #![auto] t.origin_in_use(o) <= t.policy.max_per_site by {
        if 0 <= o < t.origins@.len() {
            assert(t.origins@[o].wf(t.policy));
        }
    }
}

} // verus!
