//! Frame pacing: a minimum interval between two forwarded frames.
//!
//! Timestamps are microseconds on a monotonic clock of the caller's choice.

use vstd::prelude::*;

verus! {

/// Target display rate in frames per second.
pub const TARGET_FPS: u64 = 240;

/// Microseconds in one second.
pub const MICROS_PER_SECOND: u64 = 1_000_000;

/// Minimum interval between two forwarded frames at the target rate, which is
/// also the producer's tick period.
pub const FRAME_INTERVAL_US: u64 = 4166;

/// Whole microseconds between two frames at `fps` frames per second.
pub open spec fn interval_for_rate(fps: int) -> int {
    MICROS_PER_SECOND as int / fps
}

/// The interval constant is the one derived from the target rate.
pub proof fn lemma_interval_matches_target()
    ensures
        FRAME_INTERVAL_US == interval_for_rate(TARGET_FPS as int),
{
}

/// Tick period and minimum frame interval for a rate of `fps`.
pub fn interval_us_for(fps: u64) -> (us: u64)
    requires
        fps > 0,
    ensures
        us == interval_for_rate(fps as int),
{
    MICROS_PER_SECOND / fps
}

/// Time that has passed from `last_us` to `now_us`; zero when the clock
/// reading is older than the mark.
pub open spec fn elapsed_between(last_us: u64, now_us: u64) -> int {
    if now_us >= last_us {
        now_us - last_us
    } else {
        0
    }
}

/// Pacing state of one direction: the interval to keep and the time of the
/// last forwarded frame.
#[derive(Clone, Copy, Debug, PartialEq, Eq, Structural)]
pub struct Pacer {
    pub interval_us: u64,
    pub last_us: u64,
}

impl Pacer {
    /// Whether a frame arriving at `now_us` may be forwarded.
    pub open spec fn due_at(self, now_us: u64) -> bool {
        elapsed_between(self.last_us, now_us) >= self.interval_us
    }

    /// The state after a frame was forwarded at `now_us`.
    pub open spec fn marked(self, now_us: u64) -> Pacer {
        Pacer { interval_us: self.interval_us, last_us: now_us }
    }

    /// The state after a frame arrived at `now_us` and was forwarded if due.
    pub open spec fn after_arrival(self, now_us: u64) -> Pacer {
        if self.due_at(now_us) {
            self.marked(now_us)
        } else {
            self
        }
    }

    /// A pacer that starts counting at `start_us`.
    pub fn new(interval_us: u64, start_us: u64) -> (pacer: Pacer)
        ensures
            pacer == (Pacer { interval_us, last_us: start_us }),
    {
        Pacer { interval_us, last_us: start_us }
    }

    /// A pacer for the target rate.
    pub fn at_target_rate(start_us: u64) -> (pacer: Pacer)
        ensures
            pacer == (Pacer { interval_us: FRAME_INTERVAL_US, last_us: start_us }),
    {
        Pacer { interval_us: FRAME_INTERVAL_US, last_us: start_us }
    }

    /// Whether at least one interval has passed since the last forward.
    pub fn due(&self, now_us: u64) -> (due: bool)
        ensures
            due == self.due_at(now_us),
    {
        if now_us >= self.last_us {
            now_us - self.last_us >= self.interval_us
        } else {
            self.interval_us == 0
        }
    }

    /// Records a forward at `now_us`.
    pub fn mark(&mut self, now_us: u64)
        ensures
            *final(self) == old(self).marked(now_us),
    {
        self.last_us = now_us;
    }

    /// Decides on a frame arriving at `now_us`: forwards it, and records the
    /// time, exactly when it is due.
    pub fn accept(&mut self, now_us: u64) -> (forward: bool)
        ensures
            forward == old(self).due_at(now_us),
            *final(self) == old(self).after_arrival(now_us),
    {
        if self.due(now_us) {
            self.mark(now_us);
            true
        } else {
            false
        }
    }
}

/// Clock readings never go back: each is at least the one before it.
pub open spec fn nondecreasing(times: Seq<u64>) -> bool {
    forall|i: int, j: int| 0 <= i <= j < times.len() ==> times[i] <= times[j]
}

/// The times at which frames go out, for frames arriving at `times`.
///
/// A frame goes out when it is due and the receiving side takes it
/// (`accepted`); only then is the time recorded. Every other frame is dropped
/// and leaves the pacing state as it was.
pub open spec fn forward_times(pacer: Pacer, times: Seq<u64>, accepted: Seq<bool>) -> Seq<u64>
    decreases times.len(),
{
    if times.len() == 0 {
        Seq::<u64>::empty()
    } else if pacer.due_at(times[0]) && accepted[0] {
        seq![times[0]] + forward_times(
            pacer.marked(times[0]),
            times.drop_first(),
            accepted.drop_first(),
        )
    } else {
        forward_times(pacer, times.drop_first(), accepted.drop_first())
    }
}

/// The first frame that goes out does so a full interval after the start, and
/// any two frames in a row are a full interval apart.
pub proof fn lemma_forward_gaps(pacer: Pacer, times: Seq<u64>, accepted: Seq<bool>)
    requires
        times.len() == accepted.len(),
        nondecreasing(times),
        forall|i: int| 0 <= i < times.len() ==> pacer.last_us <= times[i],
    ensures
        forall|i: int|
            0 <= i < forward_times(pacer, times, accepted).len() ==> pacer.last_us
                + pacer.interval_us <= #[trigger] forward_times(pacer, times, accepted)[i],
        forall|i: int|
            0 <= i && i + 1 < forward_times(pacer, times, accepted).len()
                ==> #[trigger] forward_times(pacer, times, accepted)[i] + pacer.interval_us
                <= forward_times(pacer, times, accepted)[i + 1],
    decreases times.len(),
{
    if times.len() == 0 {
    } else {
        let now = times[0];
        let rest = times.drop_first();
        let rest_accepted = accepted.drop_first();
        assert forall|i: int, j: int| 0 <= i <= j < rest.len() implies rest[i] <= rest[j] by {
            assert(rest[i] == times[i + 1]);
            assert(rest[j] == times[j + 1]);
        }
        if pacer.due_at(now) && accepted[0] {
            let next = pacer.marked(now);
            assert forall|i: int| 0 <= i < rest.len() implies next.last_us <= rest[i] by {
                assert(rest[i] == times[i + 1]);
            }
            lemma_forward_gaps(next, rest, rest_accepted);
            let tail = forward_times(next, rest, rest_accepted);
            let all = forward_times(pacer, times, accepted);
            assert(all == seq![now] + tail);
            assert forall|i: int| 0 <= i < all.len() implies pacer.last_us + pacer.interval_us
                <= #[trigger] all[i] by {
                if i > 0 {
                    assert(all[i] == tail[i - 1]);
                }
            }
            assert forall|i: int| 0 <= i && i + 1 < all.len() implies #[trigger] all[i]
                + pacer.interval_us <= all[i + 1] by {
                assert(all[i + 1] == tail[i]);
                if i > 0 {
                    assert(all[i] == tail[i - 1]);
                }
            }
        } else {
            assert forall|i: int| 0 <= i < rest.len() implies pacer.last_us <= rest[i] by {
                assert(rest[i] == times[i + 1]);
            }
            lemma_forward_gaps(pacer, rest, rest_accepted);
            assert(forward_times(pacer, times, accepted) == forward_times(
                pacer,
                rest,
                rest_accepted,
            ));
        }
    }
}

/// The delivered rate never exceeds the configured one by more than one
/// frame: any `k + 1` frames that go out in a row span at least `k` whole
/// intervals, whatever the speed at which frames arrive.
pub proof fn lemma_rate_bounded(
    pacer: Pacer,
    times: Seq<u64>,
    accepted: Seq<bool>,
    first: int,
    k: nat,
)
    requires
        times.len() == accepted.len(),
        nondecreasing(times),
        forall|i: int| 0 <= i < times.len() ==> pacer.last_us <= times[i],
        0 <= first,
        first + k < forward_times(pacer, times, accepted).len(),
    ensures
        forward_times(pacer, times, accepted)[first] + k * pacer.interval_us <= forward_times(
            pacer,
            times,
            accepted,
        )[first + k],
    decreases k,
{
    let sent = forward_times(pacer, times, accepted);
    if k > 0 {
        lemma_rate_bounded(pacer, times, accepted, first, (k - 1) as nat);
        lemma_forward_gaps(pacer, times, accepted);
        let before = first + k - 1;
        assert(sent[before] + pacer.interval_us <= sent[before + 1]);
        assert(k * pacer.interval_us == (k - 1) * pacer.interval_us + pacer.interval_us)
            by (nonlinear_arith);
    } else {
        assert(k * pacer.interval_us == 0) by (nonlinear_arith)
            requires
                k == 0,
        ;
    }
}

/// Every frame that goes out is one of the frames that arrived, so pacing
/// only ever drops frames.
pub proof fn lemma_forwarded_are_arrivals(pacer: Pacer, times: Seq<u64>, accepted: Seq<bool>)
    requires
        times.len() == accepted.len(),
    ensures
        forward_times(pacer, times, accepted).len() <= times.len(),
        forall|i: int|
            0 <= i < forward_times(pacer, times, accepted).len() ==> times.contains(
                #[trigger] forward_times(pacer, times, accepted)[i],
            ),
    decreases times.len(),
{
    if times.len() > 0 {
        let rest = times.drop_first();
        let rest_accepted = accepted.drop_first();
        let next = if pacer.due_at(times[0]) && accepted[0] {
            pacer.marked(times[0])
        } else {
            pacer
        };
        lemma_forwarded_are_arrivals(next, rest, rest_accepted);
        let tail = forward_times(next, rest, rest_accepted);
        let all = forward_times(pacer, times, accepted);
        assert forall|i: int| 0 <= i < all.len() implies times.contains(#[trigger] all[i]) by {
            if pacer.due_at(times[0]) && accepted[0] {
                if i == 0 {
                    assert(times[0] == all[0]);
                } else {
                    assert(all[i] == tail[i - 1]);
                    let j = choose|j: int| 0 <= j < rest.len() && rest[j] == tail[i - 1];
                    assert(times[j + 1] == all[i]);
                }
            } else {
                let j = choose|j: int| 0 <= j < rest.len() && rest[j] == tail[i];
                assert(times[j + 1] == all[i]);
            }
        }
    }
}

} // verus!
