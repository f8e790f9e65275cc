//! The submit-then-poll status tracker. After submission a transaction is
//! `Received`; polls then report the current state — `Committed` in zero
//! or more candidate blocks — until a single block wins and the status is
//! `Finalized`, which is terminal: the tracker stops polling the moment
//! it observes it and never leaves it.
use vstd::prelude::*;
use crate::hex32::Hash32;

verus! {

/// The status of a submitted transaction: a lattice, not a strict chain.
/// A submission may transiently be committed to zero or more candidate
/// blocks before one block wins finalization.
#[derive(Debug)]
pub enum TransactionStatus {
    /// The node has received the submission; it is in no block yet.
    Received,
    /// The submission is committed to the given candidate blocks.
    Committed(Vec<Hash32>),
    /// The submission is finalized in the given blocks; terminal.
    Finalized(Vec<Hash32>),
}

/// The tracker for one submission: the last status a poll observed, and
/// whether polling has stopped because finalization was observed. Each
/// submission is tracked by exactly one tracker.
#[derive(Debug)]
pub struct StatusTracker {
    /// The status most recently observed.
    pub current: TransactionStatus,
    /// Whether finalization was observed; once set, observations are over.
    pub finished: bool,
}

/// The tracker state entered immediately on successful submission.
pub open spec fn initial_tracker() -> StatusTracker {
    StatusTracker { current: TransactionStatus::Received, finished: false }
}

/// One poll: the tracker takes over whatever current state the status
/// query returned — the query returns a state, not a delta — and stops
/// once that state is `Finalized`. A finished tracker ignores everything.
pub open spec fn step_spec(state: StatusTracker, observed: TransactionStatus) -> StatusTracker {
    if state.finished {
        state
    } else {
        StatusTracker { current: observed, finished: observed is Finalized }
    }
}

/// The tracker state after a whole sequence of polls, in order.
pub open spec fn run_spec(state: StatusTracker, observations: Seq<TransactionStatus>) -> StatusTracker
    decreases observations.len(),
{
    if observations.len() == 0 {
        state
    } else {
        run_spec(step_spec(state, observations[0]), observations.drop_first())
    }
}

/// A tracker is well formed when it is finished exactly if the status it
/// holds is `Finalized`.
pub open spec fn tracker_wf(state: StatusTracker) -> bool {
    state.finished <==> state.current is Finalized
}

impl StatusTracker {
    /// The tracker entered immediately on successful submission.
    pub fn start() -> (r: StatusTracker)
        ensures
            r == initial_tracker(),
            tracker_wf(r),
    {
        StatusTracker { current: TransactionStatus::Received, finished: false }
    }

    /// Records one poll's answer, exactly as step_spec says.
    pub fn observe(&mut self, observed: TransactionStatus)
        ensures
            *final(self) == step_spec(*old(self), observed),
            tracker_wf(*old(self)) ==> tracker_wf(*final(self)),
    {
        if !self.finished {
            self.finished = matches!(observed, TransactionStatus::Finalized(_));
            self.current = observed;
        }
    }
}

/// Law: every poll preserves tracker well-formedness, and `Finalized` is
/// terminal for a single poll — a finished tracker is left exactly as it
/// is by any observation.
pub proof fn lemma_step_preserves_wf(state: StatusTracker, observed: TransactionStatus)
    ensures
        tracker_wf(state) ==> tracker_wf(step_spec(state, observed)),
        state.finished ==> step_spec(state, observed) == state,
{
}

/// Law: the status never transitions out of `Finalized` across any
/// sequence of polls — a well-formed tracker whose status is `Finalized`
/// is left exactly as it is by every further observation sequence.
pub proof fn lemma_finalized_is_terminal(state: StatusTracker, observations: Seq<TransactionStatus>)
    requires
        tracker_wf(state),
        state.current is Finalized,
    ensures
        run_spec(state, observations) == state,
    decreases observations.len(),
{
    if observations.len() > 0 {
        lemma_finalized_is_terminal(state, observations.drop_first());
    }
}

/// Drives a tracker over the answers of successive polls, in order,
/// stopping the moment finalization is observed. Returns the tracker and
/// the number of polls consumed: every consumed poll but the last
/// observed an unfinalized status, and the loop stops exactly once — and
/// only if — a poll observes `Finalized`.
pub fn track_to_finality(observations: Vec<TransactionStatus>) -> (r: (StatusTracker, usize))
    ensures
        tracker_wf(r.0),
        r.1 <= observations@.len(),
        r.0 == run_spec(initial_tracker(), observations@.subrange(0, r.1 as int)),
        forall|k: int| 0 <= k < r.1 - 1 ==> !(#[trigger] observations@[k] is Finalized),
        r.0.finished ==> r.1 > 0 && observations@[r.1 - 1] is Finalized && r.0.current
            == observations@[r.1 - 1],
        !r.0.finished ==> r.1 == observations@.len() && forall|k: int|
            0 <= k < observations@.len() ==> !(#[trigger] observations@[k] is Finalized),
{
    let ghost all = observations@;
    let total = observations.len();
    let mut rest = observations;
    let mut tracker = StatusTracker::start();
    let mut used: usize = 0;
    while rest.len() > 0 && !tracker.finished
        invariant
            total == all.len(),
            used + rest@.len() == all.len(),
            rest@ =~= all.subrange(used as int, all.len() as int),
            tracker_wf(tracker),
            tracker == run_spec(initial_tracker(), all.subrange(0, used as int)),
            forall|k: int| 0 <= k < used - 1 ==> !(#[trigger] all[k] is Finalized),
            tracker.finished ==> used > 0 && all[used - 1] is Finalized && tracker.current
                == all[used - 1],
            !tracker.finished ==> forall|k: int| 0 <= k < used ==> !(#[trigger] all[k] is Finalized),
        decreases rest@.len(),
    {
        let observed = rest.remove(0);
        proof {
            assert(observed == all[used as int]);
        }
        tracker.observe(observed);
        used = used + 1;
        proof {
            let prefix_new = all.subrange(0, used as int);
            let prefix_old = all.subrange(0, used - 1);
            lemma_run_snoc(initial_tracker(), prefix_old, all[used - 1]);
            assert(prefix_new =~= prefix_old.push(all[used - 1]));
            assert(tracker == run_spec(initial_tracker(), prefix_new));
        }
    }
    proof {
        if rest@.len() == 0 {
            assert(used == all.len());
        }
    }
    (tracker, used)
}

/// Whether a poll loop should give up instead of polling forever: the
/// transaction's own expiry, plus a grace margin for the last block to
/// finalize, has passed without finalization being observed. The node
/// rejects the transaction on-chain after its expiry, so no later poll
/// can succeed.
pub fn poll_deadline_passed(now: u64, expiry: u64, grace: u64) -> (r: bool)
    ensures
        r == (now as int > expiry as int + grace as int),
{
    if grace > u64::MAX - expiry {
        false
    } else {
        now > expiry + grace
    }
}

/// Running one more observation after a sequence is one more step.
proof fn lemma_run_snoc(state: StatusTracker, observations: Seq<TransactionStatus>, last: TransactionStatus)
    ensures
        run_spec(state, observations.push(last)) == step_spec(
            run_spec(state, observations),
            last,
        ),
    decreases observations.len(),
{
    let p = observations.push(last);
    assert(p.len() > 0);
    assert(run_spec(state, p) == run_spec(step_spec(state, p[0]), p.drop_first()));
    if observations.len() == 0 {
        assert(p[0] == last);
        assert(p.drop_first() =~= observations);
        assert(run_spec(state, observations) == state);
    } else {
        assert(p[0] == observations[0]);
        assert(p.drop_first() =~= observations.drop_first().push(last));
        lemma_run_snoc(step_spec(state, observations[0]), observations.drop_first(), last);
        assert(run_spec(state, observations) == run_spec(
            step_spec(state, observations[0]),
            observations.drop_first(),
        ));
    }
}

} // verus!
