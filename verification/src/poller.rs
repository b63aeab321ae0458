//! The convergence poller: for reads that no answer can be matched to, the
//! cache is sampled at a fixed interval until it holds something new or the
//! deadline has passed.

use vstd::prelude::*;

verus! {

/// What the poller does after one look at the cache.
#[derive(Debug)]
pub enum PollStep<T> {
    /// The cache holds what was asked for.
    Found(T),
    /// Nothing yet: sleep for the interval, then look again.
    Wait,
    /// The deadline has passed.
    TimedOut,
}

impl<T: View> View for PollStep<T> {
    type V = PollStep<T::V>;

    open spec fn view(&self) -> PollStep<T::V> {
        match self {
            PollStep::Found(value) => PollStep::Found(value@),
            PollStep::Wait => PollStep::Wait,
            PollStep::TimedOut => PollStep::TimedOut,
        }
    }
}

/// The deadline of a poll has passed once as many whole seconds have elapsed
/// as the caller allowed.
pub open spec fn spec_deadline_passed(elapsed_secs: u64, timeout_secs: u64) -> bool {
    elapsed_secs >= timeout_secs
}

/// Whether the deadline of a poll has passed.
#[verifier::when_used_as_spec(spec_deadline_passed)]
pub fn deadline_passed(elapsed_secs: u64, timeout_secs: u64) -> (r: bool)
    ensures
        r == spec_deadline_passed(elapsed_secs, timeout_secs),
{
    elapsed_secs >= timeout_secs
}

/// What one look at the cache leads to: once the deadline has passed the
/// poll is over, whatever the cache holds; before that, what was found is
/// handed over, and where nothing was found the poll waits.
pub open spec fn poll_outcome<T>(found: Option<T>, elapsed_secs: u64, timeout_secs: u64) -> PollStep<
    T,
> {
    if deadline_passed(elapsed_secs, timeout_secs) {
        PollStep::TimedOut
    } else {
        match found {
            Some(value) => PollStep::Found(value),
            None => PollStep::Wait,
        }
    }
}

/// Once the deadline has passed a look at the cache ends the poll, whatever
/// it finds; and a look that finds nothing before the deadline leads to a
/// wait and to nothing else.
pub proof fn lemma_poll_ends_at_deadline<T>(found: Option<T>, elapsed_secs: u64, timeout_secs: u64)
    ensures
        elapsed_secs >= timeout_secs ==> poll_outcome(found, elapsed_secs, timeout_secs) is TimedOut,
        elapsed_secs < timeout_secs && found is None ==> poll_outcome(
            found,
            elapsed_secs,
            timeout_secs,
        ) is Wait,
        poll_outcome(found, elapsed_secs, timeout_secs) is Wait ==> elapsed_secs < timeout_secs,
{
}

/// A poll waits only while its deadline has not passed. With the times of
/// its looks at the cache at least one interval apart, starting no earlier
/// than the poll itself, the number of waits is bounded by the timeout: the
/// last look that led to a wait came before the deadline, so that the poll
/// ends no later than one sleep after it, even where nothing ever arrives.
pub proof fn lemma_poll_waits_are_bounded(looks: Seq<int>, timeout: int, interval: int)
    requires
        interval > 0,
        looks.len() > 0,
        looks[0] >= 0,
        forall|i: int| 0 <= i < looks.len() - 1 ==> #[trigger] looks[i + 1] >= looks[i] + interval,
        forall|i: int| 0 <= i < looks.len() ==> #[trigger] looks[i] < timeout,
    ensures
        (looks.len() - 1) * interval < timeout,
        looks.last() < timeout,
    decreases looks.len(),
{
    lemma_look_times_grow(looks, interval, looks.len() - 1);
}

/// The look at position `i` comes no earlier than `i` intervals after the
/// first.
proof fn lemma_look_times_grow(looks: Seq<int>, interval: int, i: int)
    requires
        interval > 0,
        0 <= i < looks.len(),
        looks[0] >= 0,
        forall|j: int| 0 <= j < looks.len() - 1 ==> #[trigger] looks[j + 1] >= looks[j] + interval,
    ensures
        looks[i] >= i * interval,
    decreases i,
{
    if i > 0 {
        lemma_look_times_grow(looks, interval, i - 1);
        assert(looks[(i - 1) + 1] >= looks[i - 1] + interval);
        assert(i * interval == (i - 1) * interval + interval) by (nonlinear_arith);
    }
}

} // verus!
