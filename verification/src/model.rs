use vstd::prelude::*;

verus! {

/// The state of the abstract run after some prefix of worker outcomes has
/// been handled: how many generation attempts completed, how many matches
/// were finalized into artifacts, and whether the stop has been
/// signalled.
pub struct ModelState {
    pub tried: nat,
    pub found: nat,
    pub stopped: bool,
}

/// The state a run starts in.
pub open spec fn run_init() -> ModelState {
    ModelState { tried: 0, found: 0, stopped: false }
}

/// Whether a found-count has just reached the configured quota.
pub open spec fn quota_hit(quota: Option<u64>, found: nat) -> bool {
    quota matches Some(n) && n == found
}

/// How the pipeline handles one worker outcome. After the stop has been
/// signalled nothing further is handled: records still in flight are
/// discarded, by design. Before it, the attempt is counted, a match is
/// finalized into exactly one artifact, and the stop is signalled exactly
/// when the found-count reaches the quota.
pub open spec fn run_step(s: ModelState, matched: bool, quota: Option<u64>) -> ModelState {
    if s.stopped {
        s
    } else if matched {
        let found = s.found + 1;
        ModelState { tried: s.tried + 1, found: found, stopped: quota_hit(quota, found) }
    } else {
        ModelState { tried: s.tried + 1, found: s.found, stopped: false }
    }
}

/// The state of the run after handling the whole outcome sequence, in
/// order. The effect of a run is a function of the outcome sequence and
/// the quota alone: any fixed sequence of match verdicts is handled
/// deterministically.
pub open spec fn run_after(outcomes: Seq<bool>, quota: Option<u64>) -> ModelState
    decreases outcomes.len(),
{
    if outcomes.len() == 0 {
        run_init()
    } else {
        run_step(run_after(outcomes.drop_last(), quota), outcomes.last(), quota)
    }
}

/// The number of matching outcomes in the sequence.
pub open spec fn count_matches(outcomes: Seq<bool>) -> nat
    decreases outcomes.len(),
{
    if outcomes.len() == 0 {
        0
    } else {
        count_matches(outcomes.drop_last()) + if outcomes.last() {
            1nat
        } else {
            0nat
        }
    }
}

/// Basic bounds of a run: attempts counted never exceed outcomes handled,
/// artifacts never exceed attempts, and artifacts never exceed the
/// matches actually found.
pub proof fn lemma_run_bounds(outcomes: Seq<bool>, quota: Option<u64>)
    ensures
        run_after(outcomes, quota).tried <= outcomes.len(),
        run_after(outcomes, quota).found <= run_after(outcomes, quota).tried,
        run_after(outcomes, quota).found <= count_matches(outcomes),
    decreases outcomes.len(),
{
    if outcomes.len() > 0 {
        lemma_run_bounds(outcomes.drop_last(), quota);
    }
}

/// The try-counter is non-decreasing throughout a run: observing it after
/// more outcomes have been handled never shows a smaller value.
pub proof fn lemma_tried_monotonic(outcomes: Seq<bool>, quota: Option<u64>, i: int, j: int)
    requires
        0 <= i <= j <= outcomes.len(),
    ensures
        run_after(outcomes.take(i), quota).tried <= run_after(outcomes.take(j), quota).tried,
    decreases j - i,
{
    if i < j {
        lemma_tried_monotonic(outcomes, quota, i, j - 1);
        assert(outcomes.take(j).drop_last() =~= outcomes.take(j - 1));
    }
}

/// Until the stop is signalled the counters are exact: the try-counter
/// equals the number of completed attempts, and the found-count equals
/// the number of matches among them — every match is delivered and
/// finalized exactly once, and no artifact is invented.
pub proof fn lemma_counters_exact(outcomes: Seq<bool>, quota: Option<u64>)
    requires
        !run_after(outcomes, quota).stopped,
    ensures
        run_after(outcomes, quota).tried == outcomes.len(),
        run_after(outcomes, quota).found == count_matches(outcomes),
    decreases outcomes.len(),
{
    if outcomes.len() > 0 {
        assert(!run_after(outcomes.drop_last(), quota).stopped);
        lemma_counters_exact(outcomes.drop_last(), quota);
    }
}

/// Once the stop has been signalled the run is frozen: however many
/// further outcomes arrive, nothing is counted and nothing is written.
pub proof fn lemma_stopped_frozen(outcomes: Seq<bool>, quota: Option<u64>, i: int)
    requires
        0 <= i <= outcomes.len(),
        run_after(outcomes.take(i), quota).stopped,
    ensures
        run_after(outcomes, quota) == run_after(outcomes.take(i), quota),
    decreases outcomes.len() - i,
{
    if i < outcomes.len() {
        assert(outcomes.take(i + 1).drop_last() =~= outcomes.take(i));
        lemma_stopped_frozen(outcomes, quota, i + 1);
    } else {
        assert(outcomes.take(i) =~= outcomes);
    }
}

/// Under a quota of `q` the found-count never exceeds `q`; while the run
/// has not stopped it stays strictly below `q`; and at the stop it equals
/// `q` exactly — no undercount, no duplicate artifact.
pub proof fn lemma_quota_exact(outcomes: Seq<bool>, q: u64)
    requires
        q >= 1,
    ensures
        run_after(outcomes, Some(q)).found <= q,
        !run_after(outcomes, Some(q)).stopped ==> run_after(outcomes, Some(q)).found < q,
        run_after(outcomes, Some(q)).stopped ==> run_after(outcomes, Some(q)).found == q,
    decreases outcomes.len(),
{
    if outcomes.len() > 0 {
        lemma_quota_exact(outcomes.drop_last(), q);
    }
}

/// With a quota of `q` and at least `q` matches among the outcomes, the
/// run stops, having written exactly `q` artifacts.
pub proof fn lemma_quota_reached(outcomes: Seq<bool>, q: u64)
    requires
        q >= 1,
        count_matches(outcomes) >= q,
    ensures
        run_after(outcomes, Some(q)).stopped,
        run_after(outcomes, Some(q)).found == q,
    decreases outcomes.len(),
{
    let prefix = outcomes.drop_last();
    if count_matches(prefix) >= q {
        lemma_quota_reached(prefix, q);
    } else {
        lemma_run_bounds(prefix, Some(q));
        lemma_quota_exact(prefix, q);
        assert(!run_after(prefix, Some(q)).stopped);
        lemma_counters_exact(prefix, Some(q));
    }
}

/// When no outcome matches, the found-count stays zero and the run never
/// stops on its own, however many attempts complete.
pub proof fn lemma_no_match_never_stops(outcomes: Seq<bool>, quota: Option<u64>)
    requires
        forall|i: int| 0 <= i < outcomes.len() ==> !outcomes[i],
        quota matches Some(n) ==> n >= 1,
    ensures
        !run_after(outcomes, quota).stopped,
        run_after(outcomes, quota).found == 0,
        run_after(outcomes, quota).tried == outcomes.len(),
    decreases outcomes.len(),
{
    if outcomes.len() > 0 {
        lemma_no_match_never_stops(outcomes.drop_last(), quota);
    }
}

/// With no quota the run never stops on its own: every attempt is counted
/// and every match is finalized.
pub proof fn lemma_unbounded_runs_on(outcomes: Seq<bool>)
    ensures
        !run_after(outcomes, Option::<u64>::None).stopped,
        run_after(outcomes, Option::<u64>::None).tried == outcomes.len(),
        run_after(outcomes, Option::<u64>::None).found == count_matches(outcomes),
    decreases outcomes.len(),
{
    if outcomes.len() > 0 {
        lemma_unbounded_runs_on(outcomes.drop_last());
    }
}

/// A snapshot of the run's counters and stop flag.
#[derive(Clone, Copy, PartialEq, Eq, Structural, Debug)]
pub struct RunStats {
    pub tried: u64,
    pub found: u64,
    pub stopped: bool,
}

/// Replays the pipeline's handling of one fixed sequence of match
/// verdicts. The result is exactly what the model predicts, so the effect
/// of a run is deterministic in the verdict sequence even though key
/// generation itself is not.
pub fn run_on_outcomes(outcomes: &Vec<bool>, stop_after: Option<u64>) -> (r: RunStats)
    ensures
        r.tried == run_after(outcomes@, stop_after).tried,
        r.found == run_after(outcomes@, stop_after).found,
        r.stopped == run_after(outcomes@, stop_after).stopped,
{
    let mut tried: u64 = 0;
    let mut found: u64 = 0;
    let mut stopped: bool = false;
    let mut i: usize = 0;
    while i < outcomes.len()
        invariant
            i <= outcomes@.len(),
            tried == run_after(outcomes@.take(i as int), stop_after).tried,
            found == run_after(outcomes@.take(i as int), stop_after).found,
            stopped == run_after(outcomes@.take(i as int), stop_after).stopped,
        decreases outcomes@.len() - i,
    {
        let matched = outcomes[i];
        proof {
            lemma_run_bounds(outcomes@.take(i as int), stop_after);
            assert(outcomes@.take(i as int + 1).drop_last() =~= outcomes@.take(i as int));
            assert(outcomes@.take(i as int + 1).last() == outcomes@[i as int]);
        }
        if !stopped {
            tried = tried + 1;
            if matched {
                found = found + 1;
                stopped = match stop_after {
                    Some(q) => found == q,
                    None => false,
                };
            }
        }
        i = i + 1;
    }
    proof {
        assert(outcomes@.take(outcomes@.len() as int) =~= outcomes@);
    }
    RunStats { tried, found, stopped }
}

} // verus!
