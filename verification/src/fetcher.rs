//! The rate-gated batch-fetch coordinator.
//!
//! A [`Session`] owns one [`RateGate`](crate::gate::RateGate); every
//! [`Fetcher`] it hands out shares that gate and owns a private buffer of
//! already-fetched records. A fulfillment either comes straight from the
//! buffer ([`Fetcher::fulfill_from_buffer`], the coordination-free fast path)
//! or grows the buffer first. The growth loop's outside work — suspending the
//! thread and the remote round trip itself — is the embedding application's;
//! each of its decisions is taken here, verified, by [`Fetcher::next_action`]:
//!
//! - hold the shared gate (rate-limited tier only) across the whole growth phase,
//!   via [`Fetcher::gate`] and [`RateGate::acquire`](crate::gate::RateGate::acquire);
//! - before each remote call, wait out what is left of the minimum interval
//!   ([`GrowthAction::WaitThenFetch`]); unlimited callers fetch back to back
//!   ([`GrowthAction::Fetch`]);
//! - append each fetched batch with [`Fetcher::absorb`] and mark the shared gate;
//! - stop as soon as the buffer can satisfy the request
//!   ([`GrowthAction::Finish`]).
//!
//! A remote failure simply ends the loop early: everything absorbed so far
//! stays buffered, and dropping the guard releases the shared gate.

use vstd::prelude::*;
use crate::constants::MIN_INTERVAL_MS;
use crate::gate::{spec_required_wait, required_wait_ms, GateGuard, RateGate};
use crate::opts::{Opts, Tier};
use crate::types::Proxy;

verus! {

/// What a growing fetcher should do next.
#[derive(Clone, Copy, Debug, PartialEq, Eq, Structural)]
pub enum GrowthAction {
    /// The buffer can satisfy the request; take the records and stop.
    Finish,
    /// Call the remote boundary now, with no delay and no gate interaction.
    Fetch,
    /// Suspend for `wait_ms` milliseconds, then call the remote boundary.
    WaitThenFetch { wait_ms: u64 },
}

/// One caller's fetching state: a buffer of records (tail = most recently
/// fetched), the caller's configuration, and a handle to the session's gate.
pub struct Fetcher {
    buffer: Vec<Proxy>,
    opts: Opts,
    tier: Tier,
    request_size: u8,
    gate: RateGate,
}

impl Fetcher {
    #[verifier::type_invariant]
    spec fn wf(&self) -> bool {
        &&& self.request_size >= 1
        &&& self.request_size == self.opts.spec_request_size()
        &&& self.tier == self.opts.spec_tier()
    }

    /// The buffered records, in fetch order.
    pub closed spec fn spec_buffer(&self) -> Seq<Proxy> {
        self.buffer@
    }

    /// This caller's class.
    pub closed spec fn spec_tier(&self) -> Tier {
        self.tier
    }

    /// Records one remote call yields for this caller.
    pub closed spec fn spec_request_size(&self) -> u8 {
        self.request_size
    }

    /// This caller's configuration.
    pub closed spec fn spec_opts(&self) -> Opts {
        self.opts
    }

    /// The timing gate this caller coordinates through. Fetchers of one session
    /// carry the same value here: one timing domain.
    pub closed spec fn spec_gate(&self) -> RateGate {
        self.gate
    }

    fn new(gate: RateGate, opts: Opts) -> (r: Fetcher)
        ensures
            r.spec_buffer() == Seq::<Proxy>::empty(),
            r.spec_opts() == opts,
            r.spec_tier() == opts.spec_tier(),
            r.spec_request_size() == opts.spec_request_size(),
            r.spec_gate() == gate,
    {
        let tier = opts.tier();
        let request_size = opts.request_size();
        Fetcher { buffer: Vec::new(), opts, tier, request_size, gate }
    }

    /// How many records are buffered right now.
    pub fn buffered(&self) -> (n: usize)
        ensures
            n == self.spec_buffer().len(),
    {
        self.buffer.len()
    }

    /// This caller's class.
    pub fn tier(&self) -> (t: Tier)
        ensures
            t == self.spec_tier(),
    {
        self.tier
    }

    /// Records one remote call yields for this caller; never zero.
    pub fn request_size(&self) -> (n: usize)
        ensures
            n == self.spec_request_size() as usize,
            n >= 1,
    {
        proof {
            use_type_invariant(&*self);
        }
        self.request_size as usize
    }

    /// The configuration handed through to the request-building collaborator.
    pub fn opts(&self) -> (r: &Opts)
        ensures
            *r == self.spec_opts(),
    {
        &self.opts
    }

    /// A handle to the session's shared gate, for holding it across a
    /// rate-limited growth phase. Every handle refers to the same gate.
    pub fn gate(&self) -> (r: RateGate)
        ensures
            r == self.spec_gate(),
    {
        self.gate.share()
    }

    /// The fast path: if the buffer already holds `amount` records, the last
    /// `amount` of them leave the buffer and are returned as one transaction,
    /// with no gate interaction and no remote call. Otherwise nothing
    /// changes and the caller must grow the buffer first.
    pub fn fulfill_from_buffer(&mut self, amount: usize) -> (r: Option<Vec<Proxy>>)
        ensures
            old(self).spec_buffer().len() >= amount ==> ({
                &&& r matches Some(v) && v@ == old(self).spec_buffer().subrange(
                    old(self).spec_buffer().len() - amount,
                    old(self).spec_buffer().len() as int,
                )
                &&& final(self).spec_buffer() == old(self).spec_buffer().subrange(
                    0,
                    old(self).spec_buffer().len() - amount,
                )
            }),
            old(self).spec_buffer().len() < amount ==> r is None && final(self).spec_buffer()
                == old(self).spec_buffer(),
            final(self).spec_opts() == old(self).spec_opts(),
            final(self).spec_tier() == old(self).spec_tier(),
            final(self).spec_request_size() == old(self).spec_request_size(),
            final(self).spec_gate() == old(self).spec_gate(),
    {
        proof {
            use_type_invariant(&*self);
        }
        if self.buffer.len() >= amount {
            let mut buffer: Vec<Proxy> = Vec::new();
            core::mem::swap(&mut buffer, &mut self.buffer);
            let at = buffer.len() - amount;
            let out = buffer.split_off(at);
            self.buffer = buffer;
            Some(out)
        } else {
            None
        }
    }

    /// The next step of the growth phase, decided from the buffer, the
    /// caller's tier and the shared gate reading `elapsed_ms` (milliseconds since
    /// the last rate-limited remote call, `None` for a never-marked gate).
    /// Unlimited callers are never told to wait, whatever the shared gate reads.
    pub fn next_action(&self, amount: usize, elapsed_ms: Option<u128>) -> (a: GrowthAction)
        ensures
            self.spec_buffer().len() >= amount ==> a == GrowthAction::Finish,
            self.spec_buffer().len() < amount && self.spec_tier() == Tier::Unlimited ==> a
                == GrowthAction::Fetch,
            self.spec_buffer().len() < amount && self.spec_tier() == Tier::RateLimited ==> a
                == (GrowthAction::WaitThenFetch {
                wait_ms: spec_required_wait(elapsed_ms, MIN_INTERVAL_MS),
            }),
    {
        if self.buffer.len() >= amount {
            GrowthAction::Finish
        } else {
            match self.tier {
                Tier::Unlimited => GrowthAction::Fetch,
                Tier::RateLimited => GrowthAction::WaitThenFetch {
                    wait_ms: required_wait_ms(elapsed_ms, MIN_INTERVAL_MS),
                },
            }
        }
    }

    /// One growth-phase decision against the live gate: reads how long ago
    /// the guarded gate was marked and decides as [`Fetcher::next_action`]
    /// does. The clock is not modelled, so only `next_action`'s contract
    /// pins the wait for a given reading; whatever the reading, the wait
    /// never exceeds the minimum interval and unlimited callers never wait.
    pub fn next_action_gated<'a>(&self, amount: usize, guard: &GateGuard<'a>) -> (a: GrowthAction)
        ensures
            self.spec_buffer().len() >= amount ==> a == GrowthAction::Finish,
            self.spec_buffer().len() < amount && self.spec_tier() == Tier::Unlimited ==> a
                == GrowthAction::Fetch,
            self.spec_buffer().len() < amount && self.spec_tier() == Tier::RateLimited ==> (
            a matches GrowthAction::WaitThenFetch { wait_ms } && wait_ms <= MIN_INTERVAL_MS),
    {
        self.next_action(amount, guard.elapsed_ms())
    }

    /// Appends one fetched batch to the buffer. Records already buffered are
    /// kept: a later failure loses nothing that was absorbed.
    pub fn absorb(&mut self, batch: Vec<Proxy>)
        ensures
            final(self).spec_buffer() == old(self).spec_buffer() + batch@,
            final(self).spec_opts() == old(self).spec_opts(),
            final(self).spec_tier() == old(self).spec_tier(),
            final(self).spec_request_size() == old(self).spec_request_size(),
            final(self).spec_gate() == old(self).spec_gate(),
    {
        proof {
            use_type_invariant(&*self);
        }
        let mut buffer: Vec<Proxy> = Vec::new();
        core::mem::swap(&mut buffer, &mut self.buffer);
        let mut batch = batch;
        buffer.append(&mut batch);
        self.buffer = buffer;
    }

    /// Final drain: every remaining buffered record, in fetch order, with no
    /// remote interaction.
    pub fn drain(self) -> (r: Vec<Proxy>)
        ensures
            r@ == self.spec_buffer(),
    {
        self.buffer
    }
}

/// A factory for fetchers that share one timing domain: every fetcher it
/// creates holds a handle to this session's single gate.
pub struct Session {
    gate: RateGate,
}

impl Session {
    /// This session's one gate: the timing domain every fetcher it creates
    /// belongs to.
    pub closed spec fn spec_gate(&self) -> RateGate {
        self.gate
    }

    /// A fresh timing domain with an unmarked gate: the first rate-limited
    /// remote call owes no wait.
    pub fn new() -> Session {
        Session { gate: RateGate::new() }
    }

    /// A fetcher with default options — keyless, rate-limited, free-tier
    /// request size, no filters — sharing this session's gate.
    pub fn fetcher(&self) -> (r: Fetcher)
        ensures
            r.spec_buffer() == Seq::<Proxy>::empty(),
            r.spec_tier() == Tier::RateLimited,
            r.spec_request_size() == crate::constants::FREE_REQUEST_SIZE,
            r.spec_gate() == self.spec_gate(),
            r.spec_opts().spec_api_key() is None,
            !r.spec_opts().spec_countries().spec_is_allow(),
            r.spec_opts().spec_countries().spec_list().len() == 0,
            r.spec_opts().spec_level() is None,
            r.spec_opts().spec_protocol() is None,
            r.spec_opts().spec_cookies() is None,
    {
        self.fetcher_with_opts(Opts::default())
    }

    /// A fetcher with the given options, sharing this session's gate.
    /// Fetchers are otherwise independent: each owns its own buffer.
    pub fn fetcher_with_opts(&self, opts: Opts) -> (r: Fetcher)
        ensures
            r.spec_buffer() == Seq::<Proxy>::empty(),
            r.spec_opts() == opts,
            r.spec_tier() == opts.spec_tier(),
            r.spec_request_size() == opts.spec_request_size(),
            r.spec_gate() == self.spec_gate(),
    {
        Fetcher::new(self.gate.share(), opts)
    }
}

impl Default for Session {
    /// Same as [`Session::new`].
    fn default() -> Session {
        Session::new()
    }
}

/// One buffer-changing step of a fetcher's life, for stating laws about whole
/// runs: a remote fetch absorbed into the buffer, or a fulfillment taking the
/// last `n` records.
pub enum BufferOp {
    Absorb(Seq<Proxy>),
    Take(nat),
}

/// Whether `op` can apply to a buffer holding `buf`: a fulfillment never
/// takes more than is buffered.
pub open spec fn op_valid(buf: Seq<Proxy>, op: BufferOp) -> bool {
    match op {
        BufferOp::Absorb(_) => true,
        BufferOp::Take(n) => n <= buf.len(),
    }
}

/// The buffer after `op`: absorbing appends, taking removes the tail.
pub open spec fn apply_op(buf: Seq<Proxy>, op: BufferOp) -> Seq<Proxy> {
    match op {
        BufferOp::Absorb(batch) => buf + batch,
        BufferOp::Take(n) => buf.take(buf.len() - n),
    }
}

/// Whether a whole run of steps is valid, each against the buffer the
/// previous steps leave.
pub open spec fn ops_valid(buf: Seq<Proxy>, ops: Seq<BufferOp>) -> bool
    decreases ops.len(),
{
    ops.len() == 0 || (op_valid(buf, ops[0]) && ops_valid(apply_op(buf, ops[0]), ops.drop_first()))
}

/// The buffer left after a whole run of steps.
pub open spec fn final_buffer(buf: Seq<Proxy>, ops: Seq<BufferOp>) -> Seq<Proxy>
    decreases ops.len(),
{
    if ops.len() == 0 {
        buf
    } else {
        final_buffer(apply_op(buf, ops[0]), ops.drop_first())
    }
}

/// How many records the run's fulfillments hand to callers.
pub open spec fn taken_count(ops: Seq<BufferOp>) -> nat
    decreases ops.len(),
{
    if ops.len() == 0 {
        0
    } else {
        (match ops[0] {
            BufferOp::Absorb(_) => 0,
            BufferOp::Take(n) => n,
        }) + taken_count(ops.drop_first())
    }
}

/// How many records the run fetches from the remote boundary.
pub open spec fn fetched_count(ops: Seq<BufferOp>) -> nat
    decreases ops.len(),
{
    if ops.len() == 0 {
        0
    } else {
        (match ops[0] {
            BufferOp::Absorb(batch) => batch.len(),
            BufferOp::Take(_) => 0,
        }) + fetched_count(ops.drop_first())
    }
}

/// Conservation of records: across any valid run of absorbs and
/// fulfillments on one fetcher, the records handed to callers plus those
/// still buffered (the final drain) equal the records initially buffered
/// plus every record ever fetched from the remote boundary. Nothing is
/// duplicated and nothing is silently discarded.
pub proof fn lemma_records_conserved(buf: Seq<Proxy>, ops: Seq<BufferOp>)
    requires
        ops_valid(buf, ops),
    ensures
        final_buffer(buf, ops).len() + taken_count(ops) == buf.len() + fetched_count(ops),
    decreases ops.len(),
{
    if ops.len() > 0 {
        lemma_records_conserved(apply_op(buf, ops[0]), ops.drop_first());
    }
}

/// The records a run's fulfillments hand to callers, in the order they are
/// handed out.
pub open spec fn returned_records(buf: Seq<Proxy>, ops: Seq<BufferOp>) -> Seq<Proxy>
    decreases ops.len(),
{
    if ops.len() == 0 {
        Seq::empty()
    } else {
        (match ops[0] {
            BufferOp::Absorb(_) => Seq::<Proxy>::empty(),
            BufferOp::Take(n) => buf.subrange(buf.len() - n, buf.len() as int),
        }) + returned_records(apply_op(buf, ops[0]), ops.drop_first())
    }
}

/// The records a run fetches from the remote boundary, in fetch order.
pub open spec fn fetched_records(ops: Seq<BufferOp>) -> Seq<Proxy>
    decreases ops.len(),
{
    if ops.len() == 0 {
        Seq::empty()
    } else {
        (match ops[0] {
            BufferOp::Absorb(batch) => batch,
            BufferOp::Take(_) => Seq::<Proxy>::empty(),
        }) + fetched_records(ops.drop_first())
    }
}

/// Conservation, record by record: across any valid run, the records still
/// buffered together with the records handed out are exactly the records
/// initially buffered together with those fetched — as multisets, so no
/// record is invented, duplicated or discarded, only moved.
pub proof fn lemma_no_record_invented_or_discarded(buf: Seq<Proxy>, ops: Seq<BufferOp>)
    requires
        ops_valid(buf, ops),
    ensures
        final_buffer(buf, ops).to_multiset().add(returned_records(buf, ops).to_multiset())
            == buf.to_multiset().add(fetched_records(ops).to_multiset()),
    decreases ops.len(),
{
    broadcast use vstd::seq_lib::lemma_multiset_commutative;
    broadcast use vstd::multiset::group_multiset_axioms;

    if ops.len() > 0 {
        let rest = ops.drop_first();
        let buf2 = apply_op(buf, ops[0]);
        lemma_no_record_invented_or_discarded(buf2, rest);
        let fin = final_buffer(buf2, rest).to_multiset();
        let ret2 = returned_records(buf2, rest).to_multiset();
        let fet2 = fetched_records(rest).to_multiset();
        match ops[0] {
            BufferOp::Absorb(batch) => {
                assert(Seq::<Proxy>::empty() + returned_records(buf2, rest) =~= returned_records(
                    buf2,
                    rest,
                ));
                assert(fin.add(ret2) == (buf + batch).to_multiset().add(fet2));
                assert((buf + batch).to_multiset().add(fet2) =~= buf.to_multiset().add(
                    batch.to_multiset().add(fet2),
                ));
            },
            BufferOp::Take(n) => {
                let sub = buf.subrange(buf.len() - n, buf.len() as int);
                assert(buf2 + sub =~= buf);
                assert(returned_records(buf, ops) == sub + returned_records(buf2, rest));
                assert((sub + returned_records(buf2, rest)).to_multiset() == sub.to_multiset().add(
                    ret2,
                ));
                assert(Seq::<Proxy>::empty() + fetched_records(rest) =~= fetched_records(rest));
                assert(fin.add(sub.to_multiset().add(ret2)) =~= fin.add(ret2).add(
                    sub.to_multiset(),
                ));
                assert(fin.add(ret2).add(sub.to_multiset()) == buf2.to_multiset().add(fet2).add(
                    sub.to_multiset(),
                ));
                assert(buf2.to_multiset().add(fet2).add(sub.to_multiset()) =~= buf2.to_multiset()
                    .add(sub.to_multiset()).add(fet2));
                assert(buf2.to_multiset().add(sub.to_multiset()) == (buf2 + sub).to_multiset());
            },
        }
    }
}

} // verus!
