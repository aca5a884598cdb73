//! Token bucket admission control.
//!
//! The bucket is a plain state machine: each call takes the current time (nanoseconds on a
//! monotonic clock chosen by the caller) and decides. Locking, sleeping and the scoped permit
//! that releases on drop live with the caller.
use vstd::prelude::*;

verus! {

/// What one attempt to take a permit decided.
#[derive(PartialEq, Eq, Structural, Clone, Copy, Debug)]
pub enum Poll {
    /// A permit was granted.
    Granted,
    /// No token is left: try again after this many nanoseconds.
    Wait(u64),
}

/// The mathematical state of a bucket.
pub struct BucketView {
    /// Units that can be spent now.
    pub tokens: nat,
    /// Current ceiling; one lower for each permit held.
    pub capacity: nat,
    /// The ceiling that releases restore up to.
    pub max_capacity: nat,
    /// When the tokens were last refilled.
    pub last_refill: nat,
    /// How long a refill takes to come round.
    pub refill_interval: nat,
}

/// One thing that can happen to a bucket.
pub enum BucketEvent {
    /// An attempt to take a permit at the given time.
    Acquire(u64),
    /// A held permit is given back.
    Release,
}

impl BucketView {
    /// `0 <= tokens <= capacity <= max_capacity`, the counts fit in `usize` and the times in
    /// `u64`.
    pub open spec fn wf(self) -> bool {
        &&& self.tokens <= self.capacity <= self.max_capacity
        &&& self.max_capacity <= usize::MAX
        &&& self.last_refill <= u64::MAX
        &&& self.refill_interval <= u64::MAX
    }

    /// A fresh bucket, full, created at `now`.
    pub open spec fn fresh(capacity: nat, refill_interval: nat, now: nat) -> BucketView {
        BucketView {
            tokens: capacity,
            capacity,
            max_capacity: capacity,
            last_refill: now,
            refill_interval,
        }
    }

    /// Time since the last refill; a clock reading from before it counts as no time.
    pub open spec fn elapsed(self, now: nat) -> nat {
        if now >= self.last_refill {
            (now - self.last_refill) as nat
        } else {
            0
        }
    }

    /// Tokens go back to the current capacity once a whole interval has passed.
    pub open spec fn refilled(self, now: nat) -> BucketView {
        if self.elapsed(now) >= self.refill_interval {
            BucketView { tokens: self.capacity, last_refill: now, ..self }
        } else {
            self
        }
    }

    /// One attempt to take a permit at `now`: the next state and the decision.
    pub open spec fn poll(self, now: nat) -> (BucketView, Poll) {
        let r = self.refilled(now);
        if r.tokens > 0 {
            let spent = BucketView {
                tokens: (r.tokens - 1) as nat,
                capacity: (r.capacity - 1) as nat,
                ..r
            };
            (spent, Poll::Granted)
        } else if r.elapsed(now) < r.refill_interval {
            (r, Poll::Wait((r.refill_interval - r.elapsed(now)) as u64))
        } else {
            (r, Poll::Wait(0))
        }
    }

    /// A permit given back: one unit of capacity, never above `max_capacity`.
    pub open spec fn released(self) -> BucketView {
        BucketView {
            capacity: if self.capacity + 1 <= self.max_capacity {
                self.capacity + 1
            } else {
                self.max_capacity
            },
            ..self
        }
    }

    pub open spec fn step(self, e: BucketEvent) -> BucketView {
        match e {
            BucketEvent::Acquire(now) => self.poll(now as nat).0,
            BucketEvent::Release => self.released(),
        }
    }

    /// The state after a sequence of events.
    pub open spec fn run(self, events: Seq<BucketEvent>) -> BucketView
        decreases events.len(),
    {
        if events.len() == 0 {
            self
        } else {
            self.step(events[0]).run(events.drop_first())
        }
    }

    /// The decisions of a sequence of attempts, none of them released, and the state after.
    pub open spec fn polls(self, times: Seq<u64>) -> (BucketView, Seq<Poll>)
        decreases times.len(),
    {
        if times.len() == 0 {
            (self, Seq::empty())
        } else {
            let (next, p) = self.poll(times[0] as nat);
            let (last, rest) = next.polls(times.drop_first());
            (last, seq![p] + rest)
        }
    }
}

/// Within one interval of its last refill, a bucket grants as many attempts as it has tokens
/// and sends each later one to wait exactly until that interval is over.
proof fn lemma_polls_within_interval(v: BucketView, times: Seq<u64>)
    requires
        v.wf(),
        forall|i: int|
            0 <= i < times.len() ==> v.last_refill <= #[trigger] times[i] && times[i]
                < v.last_refill + v.refill_interval,
    ensures
        v.polls(times).1.len() == times.len(),
        forall|i: int|
            0 <= i < times.len() ==> #[trigger] v.polls(times).1[i] == if i < v.tokens {
                Poll::Granted
            } else {
                Poll::Wait((v.last_refill + v.refill_interval - times[i]) as u64)
            },
    decreases times.len(),
{
    if times.len() > 0 {
        let next = v.poll(times[0] as nat).0;
        let rest = times.drop_first();
        assert forall|i: int| 0 <= i < rest.len() implies next.last_refill <= #[trigger] rest[i]
            && rest[i] < next.last_refill + next.refill_interval by {
            assert(rest[i] == times[i + 1]);
        }
        lemma_polls_within_interval(next, rest);
        let ps = v.polls(times).1;
        assert forall|i: int| 0 <= i < times.len() implies #[trigger] ps[i] == if i < v.tokens {
            Poll::Granted
        } else {
            Poll::Wait((v.last_refill + v.refill_interval - times[i]) as u64)
        } by {
            if i > 0 {
                assert(ps[i] == next.polls(rest).1[i - 1]);
                assert(rest[i - 1] == times[i]);
            }
        }
    }
}

/// A fresh bucket of capacity `n` grants the first `n` attempts made within one interval of
/// its creation, and sends the next one to wait until a whole interval has passed since the
/// bucket was created.
pub proof fn lemma_burst_then_wait(
    capacity: usize,
    refill_interval: u64,
    created: u64,
    times: Seq<u64>,
)
    requires
        times.len() == capacity + 1,
        forall|i: int|
            0 <= i < times.len() ==> created <= #[trigger] times[i] && times[i] < created
                + refill_interval,
    ensures
        ({
            let v = BucketView::fresh(capacity as nat, refill_interval as nat, created as nat);
            let ps = v.polls(times).1;
            &&& ps.len() == capacity + 1
            &&& forall|i: int| 0 <= i < capacity ==> #[trigger] ps[i] == Poll::Granted
            &&& ps[capacity as int] matches Poll::Wait(w) && times[capacity as int] + w == created
                + refill_interval
        }),
{
    let v = BucketView::fresh(capacity as nat, refill_interval as nat, created as nat);
    lemma_polls_within_interval(v, times);
}

/// Whatever attempts and releases happen, a well-formed bucket stays well formed: its
/// capacity never goes above `max_capacity`, and `max_capacity` never changes.
pub proof fn lemma_capacity_never_exceeds_max(v: BucketView, events: Seq<BucketEvent>)
    requires
        v.wf(),
    ensures
        v.run(events).wf(),
        v.run(events).capacity <= v.run(events).max_capacity,
        v.run(events).max_capacity == v.max_capacity,
    decreases events.len(),
{
    if events.len() > 0 {
        lemma_capacity_never_exceeds_max(v.step(events[0]), events.drop_first());
    }
}

/// How many permits are held after `events`, starting from `held`: a granted attempt adds
/// one, a release gives one back.
pub open spec fn held_after(v: BucketView, events: Seq<BucketEvent>, held: int) -> int
    decreases events.len(),
{
    if events.len() == 0 {
        held
    } else {
        let next_held = match events[0] {
            BucketEvent::Acquire(now) => if v.poll(now as nat).1 == Poll::Granted {
                held + 1
            } else {
                held
            },
            BucketEvent::Release => held - 1,
        };
        held_after(v.step(events[0]), events.drop_first(), next_held)
    }
}

/// Whether every release in `events` gives back a permit that is held at that point.
pub open spec fn releases_held(v: BucketView, events: Seq<BucketEvent>, held: int) -> bool
    decreases events.len(),
{
    if events.len() == 0 {
        true
    } else {
        let next_held = match events[0] {
            BucketEvent::Acquire(now) => if v.poll(now as nat).1 == Poll::Granted {
                held + 1
            } else {
                held
            },
            BucketEvent::Release => held - 1,
        };
        &&& (events[0] is Release ==> held > 0)
        &&& releases_held(v.step(events[0]), events.drop_first(), next_held)
    }
}

/// When each release gives back a held permit, the capacity is always `max_capacity` minus
/// the permits still held: once every permit is back, it is `max_capacity` again.
pub proof fn lemma_capacity_counts_held_permits(
    v: BucketView,
    events: Seq<BucketEvent>,
    held: int,
)
    requires
        v.wf(),
        held >= 0,
        v.capacity + held == v.max_capacity,
        releases_held(v, events, held),
    ensures
        held_after(v, events, held) >= 0,
        v.run(events).capacity + held_after(v, events, held) == v.run(events).max_capacity,
        v.run(events).max_capacity == v.max_capacity,
        held_after(v, events, held) == 0 ==> v.run(events).capacity == v.max_capacity,
    decreases events.len(),
{
    if events.len() > 0 {
        let next_held = match events[0] {
            BucketEvent::Acquire(now) => if v.poll(now as nat).1 == Poll::Granted {
                held + 1
            } else {
                held
            },
            BucketEvent::Release => held - 1,
        };
        lemma_capacity_counts_held_permits(v.step(events[0]), events.drop_first(), next_held);
    }
}

/// Once every permit is back and a whole interval has passed since the last refill, an
/// attempt is granted and leaves `max_capacity - 1` tokens.
pub proof fn lemma_grant_after_refill(v: BucketView, now: nat)
    requires
        v.wf(),
        v.capacity == v.max_capacity,
        v.max_capacity >= 1,
        v.elapsed(now) >= v.refill_interval,
    ensures
        v.poll(now).1 == Poll::Granted,
        v.poll(now).0.tokens == v.max_capacity - 1,
        v.poll(now).0.capacity == v.max_capacity - 1,
{
}

/// A rate limit: at most `capacity` permits per `refill_interval`.
pub struct TokenBucket {
    tokens: usize,
    capacity: usize,
    max_capacity: usize,
    last_refill: u64,
    refill_interval: u64,
}

impl View for TokenBucket {
    type V = BucketView;

    closed spec fn view(&self) -> BucketView {
        BucketView {
            tokens: self.tokens as nat,
            capacity: self.capacity as nat,
            max_capacity: self.max_capacity as nat,
            last_refill: self.last_refill as nat,
            refill_interval: self.refill_interval as nat,
        }
    }
}

impl TokenBucket {
    #[verifier::type_invariant]
    spec fn inv(self) -> bool {
        self.tokens <= self.capacity <= self.max_capacity
    }

    /// A full bucket of `capacity` tokens, created at `now`. `refill_interval` and every time
    /// given to the bucket are nanoseconds on one monotonic clock.
    pub fn new(capacity: usize, refill_interval: u64, now: u64) -> (r: TokenBucket)
        ensures
            r@ == BucketView::fresh(capacity as nat, refill_interval as nat, now as nat),
            r@.wf(),
    {
        TokenBucket {
            tokens: capacity,
            capacity,
            max_capacity: capacity,
            last_refill: now,
            refill_interval,
        }
    }

    /// Resets the tokens to the current capacity if a whole interval has passed.
    fn refill(&mut self, now: u64)
        ensures
            final(self)@ == old(self)@.refilled(now as nat),
    {
        let elapsed: u64 = if now >= self.last_refill {
            now - self.last_refill
        } else {
            0
        };
        if elapsed >= self.refill_interval {
            proof {
                use_type_invariant(&*self);
            }
            self.tokens = self.capacity;
            self.last_refill = now;
        }
    }

    /// One attempt to take a permit at `now`. On `Granted` both the tokens and the
    /// capacity go down by one; on `Wait(d)` nothing is spent and `d` is the time left
    /// until the next refill.
    pub fn poll_acquire(&mut self, now: u64) -> (r: Poll)
        ensures
            (final(self)@, r) == old(self)@.poll(now as nat),
            final(self)@.wf(),
    {
        self.refill(now);
        proof {
            use_type_invariant(&*self);
        }
        if self.tokens > 0 {
            self.tokens = self.tokens - 1;
            self.capacity = self.capacity - 1;
            Poll::Granted
        } else {
            let elapsed: u64 = if now >= self.last_refill {
                now - self.last_refill
            } else {
                0
            };
            if elapsed < self.refill_interval {
                Poll::Wait(self.refill_interval - elapsed)
            } else {
                Poll::Wait(0)
            }
        }
    }

    /// Gives back one held permit: the capacity goes up by one, never above the maximum.
    pub fn release(&mut self)
        ensures
            final(self)@ == old(self)@.released(),
            final(self)@.wf(),
            final(self)@.capacity <= final(self)@.max_capacity,
    {
        proof {
            use_type_invariant(&*self);
        }
        if self.capacity < self.max_capacity {
            self.capacity = self.capacity + 1;
        }
    }

    /// Units that can be spent now.
    pub fn tokens(&self) -> (r: usize)
        ensures
            r as nat == self@.tokens,
    {
        self.tokens
    }

    /// The current ceiling.
    pub fn capacity(&self) -> (r: usize)
        ensures
            r as nat == self@.capacity,
    {
        self.capacity
    }

    /// The ceiling that releases restore up to.
    pub fn max_capacity(&self) -> (r: usize)
        ensures
            r as nat == self@.max_capacity,
    {
        self.max_capacity
    }
}

} // verus!
