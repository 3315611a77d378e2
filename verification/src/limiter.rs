//! The pacing of requests: a bounded store of rate tokens that a timer refills.
//!
//! The driver owns the timer and the queue of waiting callers. What it asks
//! of this module is the rule: whether a tick adds a token, and whether a
//! caller may take one. Callers that ask at the same time are taken one at
//! a time, so any number of them is one run of beats, in the order in which
//! the store saw them.

use vstd::prelude::*;

verus! {

/// The largest number of tokens a limiter can hold.
pub const MAX_PERMITS: usize = usize::MAX / 8;

/// A limiter as a pair of numbers: the tokens that stand unclaimed and the
/// ceiling at or below which a tick adds one.
pub ghost struct Bucket {
    pub permits: nat,
    pub limit: nat,
}

/// What can happen to a limiter: the timer ticks, or a caller asks for a
/// token.
pub enum Beat {
    Refill,
    Acquire,
}

impl Bucket {
    /// One tick of the timer: a token is added while the count is at or
    /// below the ceiling.
    pub open spec fn refill(self) -> Bucket {
        if self.permits <= self.limit {
            Bucket { permits: self.permits + 1, limit: self.limit }
        } else {
            self
        }
    }

    /// One request for a token: it is granted, and the token leaves for
    /// good, exactly when a token stands.
    pub open spec fn take(self) -> Bucket {
        if self.permits > 0 {
            Bucket { permits: (self.permits - 1) as nat, limit: self.limit }
        } else {
            self
        }
    }

    pub open spec fn apply(self, beat: Beat) -> Bucket {
        match beat {
            Beat::Refill => self.refill(),
            Beat::Acquire => self.take(),
        }
    }

    /// The limiter after a whole run of beats.
    pub open spec fn after(self, run: Seq<Beat>) -> Bucket
        decreases run.len(),
    {
        if run.len() == 0 {
            self
        } else {
            self.after(run.drop_last()).apply(run.last())
        }
    }

    /// Beat `i` of the run is a request that finds a token.
    pub open spec fn grants(self, run: Seq<Beat>, i: int) -> bool {
        &&& 0 <= i < run.len()
        &&& run[i] == Beat::Acquire
        &&& self.after(run.take(i)).permits > 0
    }

    /// How many requests of the run are granted.
    pub open spec fn granted(self, run: Seq<Beat>) -> nat
        decreases run.len(),
    {
        if run.len() == 0 {
            0
        } else if self.grants(run, run.len() - 1) {
            self.granted(run.drop_last()) + 1
        } else {
            self.granted(run.drop_last())
        }
    }
}

/// How many beats of the run are ticks.
pub open spec fn ticks(run: Seq<Beat>) -> nat
    decreases run.len(),
{
    if run.len() == 0 {
        0
    } else if run.last() == Beat::Refill {
        ticks(run.drop_last()) + 1
    } else {
        ticks(run.drop_last())
    }
}

/// The token store of a limiter with its configuration.
#[derive(Debug, Clone, Copy, PartialEq, Eq)]
pub struct RateLimit {
    permits: usize,
    limit: usize,
    refill_rate: u64,
}

impl View for RateLimit {
    type V = Bucket;

    closed spec fn view(&self) -> Bucket {
        Bucket { permits: self.permits as nat, limit: self.limit as nat }
    }
}

impl RateLimit {
    /// The seconds between two ticks of the timer.
    pub closed spec fn period(self) -> nat {
        self.refill_rate as nat
    }

    /// What every limiter satisfies: the store and the ceiling are within
    /// what a store can hold, and the timer has a period.
    #[verifier::type_invariant]
    closed spec fn wf(self) -> bool {
        &&& self.permits <= MAX_PERMITS
        &&& self.limit < MAX_PERMITS
        &&& self.refill_rate > 0
    }

    /// A limiter that starts with `initial_permits` tokens, gains one at
    /// each tick while it holds `limit` or fewer, and ticks every
    /// `refill_rate` seconds.
    pub fn new(initial_permits: usize, limit: usize, refill_rate: u64) -> (limiter: RateLimit)
        requires
            initial_permits <= MAX_PERMITS,
            limit < MAX_PERMITS,
            refill_rate > 0,
        ensures
            limiter@ == (Bucket { permits: initial_permits as nat, limit: limit as nat }),
            limiter.period() == refill_rate,
    {
        RateLimit { permits: initial_permits, limit, refill_rate }
    }

    /// The tokens that stand unclaimed.
    pub fn available_permits(&self) -> (permits: usize)
        ensures
            permits == self@.permits,
            permits <= MAX_PERMITS,
    {
        proof {
            use_type_invariant(self);
        }
        self.permits
    }

    /// The ceiling at or below which a tick adds a token.
    pub fn limit(&self) -> (limit: usize)
        ensures
            limit == self@.limit,
    {
        self.limit
    }

    /// The seconds between two ticks.
    pub fn refill_rate(&self) -> (seconds: u64)
        ensures
            seconds == self.period(),
            seconds > 0,
    {
        proof {
            use_type_invariant(self);
        }
        self.refill_rate
    }

    /// How many tokens a tick adds to a store that holds `available`.
    pub fn due(&self, available: usize) -> (tokens: usize)
        ensures
            tokens == if available <= self@.limit { 1usize } else { 0usize },
            (Bucket { permits: available as nat, limit: self@.limit }).refill().permits
                == available + tokens,
    {
        if available <= self.limit {
            1
        } else {
            0
        }
    }

    /// One tick of the timer.
    pub fn replenish(&mut self)
        ensures
            final(self)@ == old(self)@.refill(),
            final(self).period() == old(self).period(),
    {
        proof {
            use_type_invariant(&*self);
        }
        if self.permits <= self.limit {
            self.permits = self.permits + 1;
        }
    }

    /// One request for a token. A granted token is spent: it does not come
    /// back to the store.
    pub fn acquire(&mut self) -> (granted: bool)
        ensures
            granted == (old(self)@.permits > 0),
            final(self)@ == old(self)@.take(),
            final(self).period() == old(self).period(),
    {
        proof {
            use_type_invariant(&*self);
        }
        if self.permits > 0 {
            self.permits = self.permits - 1;
            true
        } else {
            false
        }
    }
}

/// The store never holds more than its ceiling allows: once the count is at
/// most one above the ceiling it stays so, whatever the run.
pub proof fn capacity_is_bounded(start: Bucket, run: Seq<Beat>)
    requires
        start.permits <= start.limit + 1,
    ensures
        start.after(run).permits <= start.limit + 1,
        start.after(run).limit == start.limit,
    decreases run.len(),
{
    if run.len() > 0 {
        capacity_is_bounded(start, run.drop_last());
    }
}

/// Tokens are never handed out faster than the timer makes them: a run
/// grants at most the tokens it started with plus one for each tick.
pub proof fn grants_follow_ticks(start: Bucket, run: Seq<Beat>)
    ensures
        start.granted(run) + start.after(run).permits <= start.permits + ticks(run),
    decreases run.len(),
{
    if run.len() > 0 {
        grants_follow_ticks(start, run.drop_last());
    }
}

/// A stretch of requests alone never adds a token.
proof fn requests_add_nothing(start: Bucket, run: Seq<Beat>, from: int, to: int)
    requires
        0 <= from <= to <= run.len(),
        forall|k: int| from <= k < to ==> run[k] == Beat::Acquire,
    ensures
        start.after(run.take(to)).permits <= start.after(run.take(from)).permits,
    decreases to - from,
{
    if from < to {
        requests_add_nothing(start, run, from, to - 1);
        assert(run.take(to).drop_last() =~= run.take(to - 1));
    }
}

/// With a ceiling of zero the limiter paces strictly: between any
/// two granted requests the timer has ticked at least once.
pub proof fn grants_are_paced(start: Bucket, run: Seq<Beat>, i: int, j: int)
    requires
        start.limit == 0,
        start.permits <= 1,
        i < j,
        start.grants(run, i),
        start.grants(run, j),
    ensures
        exists|k: int| i < k < j && run[k] == Beat::Refill,
{
    if forall|k: int| i < k < j ==> run[k] != Beat::Refill {
        capacity_is_bounded(start, run.take(i));
        assert(run.take(i + 1).drop_last() =~= run.take(i));
        assert forall|k: int| i + 1 <= k < j implies run[k] == Beat::Acquire by {}
        requests_add_nothing(start, run, i + 1, j);
        assert(false);
    }
}

/// The beats of a run happen at the times `at`, one after the other, and two
/// ticks are never closer together than `period`.
pub open spec fn well_timed(run: Seq<Beat>, at: Seq<int>, period: nat) -> bool {
    &&& at.len() == run.len()
    &&& forall|a: int, b: int| 0 <= a <= b < run.len() ==> #[trigger] at[a] <= #[trigger] at[b]
    &&& forall|a: int, b: int|
        0 <= a < b < run.len() && run[a] == Beat::Refill && run[b] == Beat::Refill ==> #[trigger] at[b]
            - #[trigger] at[a] >= period
}

/// With a ceiling of zero, a request that is granted at the very time of a
/// tick is followed by no other grant for a whole period. This is the
/// limiter under load: while callers wait, each token leaves at the tick
/// that made it, and two requests are never sent closer together than the
/// period. (A token that stood unclaimed for a while can still be followed
/// by the next one sooner than that.)
pub proof fn grants_keep_their_distance(
    start: Bucket,
    run: Seq<Beat>,
    at: Seq<int>,
    period: nat,
    tick: int,
    i: int,
    j: int,
)
    requires
        start.limit == 0,
        start.permits <= 1,
        well_timed(run, at, period),
        0 <= tick < i < j,
        run[tick] == Beat::Refill,
        at[tick] == at[i],
        start.grants(run, i),
        start.grants(run, j),
    ensures
        at[j] - at[i] >= period,
{
    grants_are_paced(start, run, i, j);
    let k = choose|k: int| i < k < j && run[k] == Beat::Refill;
    assert(at[k] <= at[j]);
}

} // verus!
