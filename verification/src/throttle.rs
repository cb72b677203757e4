use vstd::prelude::*;

verus! {

/// Length of the throttle window in milliseconds.
pub const WINDOW_MS: u64 = 1000;

/// A rate limiter bounding the outbound call weight admitted per rolling
/// window. The throttle itself is a pure state machine over millisecond
/// timestamps: the caller reads the clock, offers `(weight, now)`, and either
/// proceeds or sleeps until the instant the throttle names and offers again.
#[derive(Debug, Clone, PartialEq, Eq, Structural)]
pub struct RequestThrottle {
    /// Maximum cumulative weight admitted per window; 0 disables throttling.
    pub requests_per_second_limit: usize,
    /// Cumulative weight admitted since the current window opened.
    pub requests_in_window: usize,
    /// When the current window opened, in milliseconds.
    pub window_start_ms: u64,
}

impl RequestThrottle {
    /// Timestamps stay far enough from the top of `u64` that a window end can
    /// be computed; true of every reachable state fed realistic clocks.
    pub open spec fn wf(&self) -> bool {
        self.window_start_ms <= u64::MAX - WINDOW_MS
    }

    /// The bound the throttle maintains while every offered weight is within
    /// the limit: the weight admitted in the open window never exceeds it.
    pub open spec fn within_limit(&self) -> bool {
        self.requests_per_second_limit > 0 ==> self.requests_in_window
            <= self.requests_per_second_limit
    }

    /// What one offer of `(weight, now_ms)` does: the successor state, and
    /// `None` when the weight is admitted or `Some(t)` when the caller must
    /// wait until `t` and offer again.
    pub open spec fn admit_step(self, weight: usize, now_ms: u64) -> (RequestThrottle, Option<
        u64,
    >) {
        let limit = self.requests_per_second_limit;
        if limit == 0 {
            (self, None)
        } else if now_ms >= self.window_start_ms + WINDOW_MS {
            (
                RequestThrottle {
                    requests_in_window: weight,
                    window_start_ms: now_ms,
                    ..self
                },
                None,
            )
        } else if self.requests_in_window <= limit && weight <= limit - self.requests_in_window {
            (
                RequestThrottle {
                    requests_in_window: (self.requests_in_window + weight) as usize,
                    ..self
                },
                None,
            )
        } else {
            (self, Some((self.window_start_ms + WINDOW_MS) as u64))
        }
    }

    pub fn new(requests_per_second_limit: usize) -> (r: RequestThrottle)
        ensures
            r.requests_per_second_limit == requests_per_second_limit,
            r.requests_in_window == 0,
            r.window_start_ms == 0,
            r.wf(),
            r.within_limit(),
    {
        RequestThrottle { requests_per_second_limit, requests_in_window: 0, window_start_ms: 0 }
    }

    /// Offers `weight` at time `now_ms`. Returns `None` when the weight is
    /// admitted (the caller may issue its calls now) or `Some(t)` when it is
    /// not: the caller sleeps until `t > now_ms` and offers again, so no offer
    /// is ever rejected, only delayed, and any offer made at or after the end
    /// of the current window is admitted at once.
    pub fn increment_or_sleep(&mut self, weight: usize, now_ms: u64) -> (r: Option<u64>)
        requires
            old(self).wf(),
            now_ms <= u64::MAX - WINDOW_MS,
        ensures
            (*final(self), r) == old(self).admit_step(weight, now_ms),
            final(self).wf(),
            old(self).requests_per_second_limit == 0 ==> r is None,
            now_ms >= old(self).window_start_ms + WINDOW_MS ==> r is None,
            r is Some ==> *final(self) == *old(self) && r->0 == old(self).window_start_ms
                + WINDOW_MS && r->0 > now_ms,
            old(self).within_limit() && weight <= old(self).requests_per_second_limit
                ==> final(self).within_limit(),
    {
        let limit = self.requests_per_second_limit;
        if limit == 0 {
            return None;
        }
        if now_ms >= self.window_start_ms + WINDOW_MS {
            self.requests_in_window = weight;
            self.window_start_ms = now_ms;
            return None;
        }
        if self.requests_in_window <= limit && weight <= limit - self.requests_in_window {
            self.requests_in_window = self.requests_in_window + weight;
            return None;
        }
        Some(self.window_start_ms + WINDOW_MS)
    }
}

/// The state after feeding a sequence of `(now_ms, weight)` offers, in order,
/// to a throttle, keeping only the admitted-or-not step semantics.
pub open spec fn run_throttle(t: RequestThrottle, events: Seq<(u64, usize)>) -> RequestThrottle
    decreases events.len(),
{
    if events.len() == 0 {
        t
    } else {
        run_throttle(t.admit_step(events[0].1, events[0].0).0, events.skip(1))
    }
}

/// A throttle with a positive limit, offered any sequence of weights each at
/// most the limit, never holds more than the limit of admitted weight in its
/// open window — at every point of the run, whatever the offer times. Tasks
/// running in parallel and sharing one throttle interleave into one such
/// sequence (the critical section admits one offer at a time), so the bound
/// holds for their aggregate call rate too. A single weight above the limit
/// is outside this bound: it is admitted at a window boundary and consumes
/// the whole window by itself.
pub proof fn lemma_throttle_bounded(t: RequestThrottle, events: Seq<(u64, usize)>)
    requires
        t.within_limit(),
        forall|i: int| 0 <= i < events.len() ==> (#[trigger] events[i]).1
            <= t.requests_per_second_limit,
    ensures
        forall|k: int| 0 <= k <= events.len() ==> (#[trigger] run_throttle(
            t,
            events.take(k),
        )).within_limit(),
    decreases events.len(),
{
    assert(events.take(0) =~= Seq::<(u64, usize)>::empty());
    assert(run_throttle(t, events.take(0)) == t);
    if events.len() > 0 {
        let t1 = t.admit_step(events[0].1, events[0].0).0;
        assert(t1.within_limit());
        assert(t1.requests_per_second_limit == t.requests_per_second_limit);
        let rest = events.skip(1);
        assert(forall|i: int| 0 <= i < rest.len() ==> (#[trigger] rest[i]).1
            <= t1.requests_per_second_limit);
        lemma_throttle_bounded(t1, rest);
        assert forall|k: int| 0 < k <= events.len() implies (#[trigger] run_throttle(
            t,
            events.take(k),
        )).within_limit() by {
            let p = events.take(k);
            assert(p.len() == k);
            assert(p[0] == events[0]);
            assert(p.skip(1) =~= rest.take(k - 1));
            assert(run_throttle(t, p) == run_throttle(t1, rest.take(k - 1)));
        }
    }
}

/// The generation-level form of the bound: a throttle created fresh for a
/// run with a positive limit, shared by every task of that run, admits at
/// most the limit of cumulative weight within its open window at every point
/// of the run, provided each offered weight stays within the limit.
pub proof fn lemma_fresh_throttle_bounded(limit: usize, events: Seq<(u64, usize)>)
    requires
        limit > 0,
        forall|i: int| 0 <= i < events.len() ==> (#[trigger] events[i]).1 <= limit,
    ensures
        forall|k: int| 0 <= k <= events.len() ==> (#[trigger] run_throttle(
            RequestThrottle {
                requests_per_second_limit: limit,
                requests_in_window: 0,
                window_start_ms: 0,
            },
            events.take(k),
        )).within_limit(),
{
    let t = RequestThrottle {
        requests_per_second_limit: limit,
        requests_in_window: 0,
        window_start_ms: 0,
    };
    lemma_throttle_bounded(t, events);
}

/// No offer is ever rejected, only delayed: a blocked offer leaves the state
/// untouched and names a strictly future instant, and the same offer made at
/// that instant (or any later one) is admitted.
pub proof fn lemma_throttle_no_rejection(t: RequestThrottle, weight: usize, now_ms: u64)
    requires
        t.wf(),
    ensures
        ({
            let (t1, r) = t.admit_step(weight, now_ms);
            r is Some ==> t1 == t && r->0 > now_ms && t.admit_step(weight, r->0).1 is None
        }),
{
}

/// With the limit 0 the throttle is a pass-through: no offer ever blocks and
/// the state never changes.
pub proof fn lemma_throttle_unlimited_never_blocks(
    t: RequestThrottle,
    weight: usize,
    now_ms: u64,
)
    requires
        t.requests_per_second_limit == 0,
    ensures
        t.admit_step(weight, now_ms).1 is None,
        t.admit_step(weight, now_ms).0 == t,
{
}

} // verus!
