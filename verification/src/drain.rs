//! The teardown drain: after end-of-stream is signalled to the codec, its
//! buffered frames are pulled and discarded so the codec's resources can be
//! released cleanly. The number of pull attempts is bounded, so teardown
//! terminates even against a codec that would yield frames indefinitely,
//! and a failed pull is treated as "queue empty", never reported.

use vstd::prelude::*;
use crate::decode::PullEvent;

verus! {

/// The maximum number of pull attempts the teardown drain makes before
/// giving up.
pub const MAX_DRAIN_ITERATIONS: u32 = 100;

/// The progress of a teardown drain.
#[derive(Clone, Copy, Debug, PartialEq, Eq, Structural)]
pub struct DrainState {
    /// Pull attempts made so far.
    pub attempts: u32,
    /// The drain is over: no further pull may be attempted.
    pub finished: bool,
}

impl DrainState {
    /// The drain never exceeds its attempt bound, and is over once the
    /// bound is reached.
    pub open spec fn wf(self) -> bool {
        &&& self.attempts <= MAX_DRAIN_ITERATIONS
        &&& self.attempts == MAX_DRAIN_ITERATIONS ==> self.finished
    }
}

/// The drain as it begins: no attempts made, and already over when the
/// codec did not accept the end-of-stream signal.
pub fn drain_start(eof_accepted: bool) -> (s: DrainState)
    ensures
        s == (DrainState { attempts: 0, finished: !eof_accepted }),
        s.wf(),
{
    DrainState { attempts: 0, finished: !eof_accepted }
}

/// What one pull attempt does to the drain: the attempt is counted, any
/// drained frame is discarded, and the drain is over on a failed pull
/// (treated as "queue empty", not as an error) or once the attempt bound
/// is reached.
pub open spec fn drain_step_spec(s: DrainState, pull: PullEvent) -> DrainState
    recommends
        s.attempts < MAX_DRAIN_ITERATIONS,
{
    DrainState {
        attempts: (s.attempts + 1) as u32,
        finished: pull is Failed || s.attempts + 1 == MAX_DRAIN_ITERATIONS,
    }
}

/// Advances the drain by one pull attempt.
pub fn drain_step(s: DrainState, pull: PullEvent) -> (r: DrainState)
    requires
        s.wf(),
        !s.finished,
    ensures
        r == drain_step_spec(s, pull),
        r.wf(),
        r.attempts == s.attempts + 1,
{
    DrainState {
        attempts: s.attempts + 1,
        finished: matches!(pull, PullEvent::Failed(_)) || s.attempts + 1 == MAX_DRAIN_ITERATIONS,
    }
}

/// The drain state after consuming a sequence of pull outcomes: one step
/// per outcome until the drain is over; outcomes after that change nothing.
pub open spec fn run_drain(s: DrainState, pulls: Seq<PullEvent>) -> DrainState
    decreases pulls.len(),
{
    if pulls.len() == 0 || s.finished {
        s
    } else {
        run_drain(drain_step_spec(s, pulls[0]), pulls.drop_first())
    }
}

/// Runs a teardown drain over the given pull outcomes: `eof_accepted` says
/// whether the codec took the end-of-stream signal; pulls are then
/// attempted until one fails or the attempt bound is reached. The final
/// state is returned; it is unfinished when the outcomes ran out first.
pub fn drain(eof_accepted: bool, pulls: &Vec<PullEvent>) -> (s: DrainState)
    ensures
        s == run_drain(DrainState { attempts: 0, finished: !eof_accepted }, pulls@),
        s.attempts <= MAX_DRAIN_ITERATIONS,
{
    let mut state = drain_start(eof_accepted);
    let mut idx: usize = 0;
    proof {
        assert(pulls@.skip(0) =~= pulls@);
    }
    while idx < pulls.len()
        invariant
            idx <= pulls.len(),
            state.wf(),
            run_drain(state, pulls@.skip(idx as int)) == run_drain(
                DrainState { attempts: 0, finished: !eof_accepted },
                pulls@,
            ),
        decreases pulls.len() - idx,
    {
        if state.finished {
            return state;
        }
        let pull = pulls[idx];
        proof {
            assert(pulls@.skip(idx as int).drop_first() =~= pulls@.skip(idx as int + 1));
            assert(pulls@.skip(idx as int)[0] == pull);
        }
        state = drain_step(state, pull);
        idx = idx + 1;
    }
    proof {
        assert(pulls@.skip(pulls.len() as int) =~= Seq::<PullEvent>::empty());
    }
    state
}

/// The teardown drain makes at most `MAX_DRAIN_ITERATIONS` pull attempts,
/// whatever the codec reports, and is over within that bound even against
/// a codec that would yield frames indefinitely: any run of at least that
/// many outcomes leaves it finished.
pub proof fn lemma_drain_bounded(s: DrainState, pulls: Seq<PullEvent>)
    requires
        s.wf(),
    ensures
        run_drain(s, pulls).wf(),
        run_drain(s, pulls).attempts <= MAX_DRAIN_ITERATIONS,
        s.attempts + pulls.len() >= MAX_DRAIN_ITERATIONS ==> run_drain(s, pulls).finished,
    decreases pulls.len(),
{
    if pulls.len() > 0 && !s.finished {
        lemma_drain_bounded(drain_step_spec(s, pulls[0]), pulls.drop_first());
    }
}

} // verus!
