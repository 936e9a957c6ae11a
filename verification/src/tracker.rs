//! The failure tracker: how many probes of one endpoint have run, how many of
//! them failed, and whether the alert has been raised.
//!
//! Failures accumulate over the whole observation window. A healthy probe
//! never lowers the count.

use vstd::prelude::*;
use crate::health::ServerState;

verus! {

/// Number of probes in one observation window.
pub const MAX_ITERATIONS: u32 = 10;

/// The alert is raised once more than this many probes of a window failed.
pub const FAILURE_THRESHOLD: u32 = 5;

/// Mathematical state of a tracker.
pub struct Observation {
    pub iterations_run: nat,
    pub failure_count: nat,
    pub alerted: bool,
}

impl Observation {
    /// The state before the first probe.
    pub open spec fn initial() -> Observation {
        Observation { iterations_run: 0, failure_count: 0, alerted: false }
    }

    /// The states a tracker can be in.
    pub open spec fn wf(self) -> bool {
        &&& self.failure_count <= self.iterations_run
        &&& self.iterations_run <= MAX_ITERATIONS
        &&& self.failure_count <= FAILURE_THRESHOLD + 1
        &&& self.alerted <==> self.failure_count > FAILURE_THRESHOLD
    }

    /// Whether another probe is due: no alert yet and the window not used up.
    pub open spec fn active(self) -> bool {
        !self.alerted && self.iterations_run < MAX_ITERATIONS
    }

    /// The state after one more outcome. A tracker that is no longer active
    /// stays as it is.
    pub open spec fn observe(self, outcome: ServerState) -> Observation {
        if self.active() {
            let failures = if outcome == ServerState::ServerUnresponsive {
                self.failure_count + 1
            } else {
                self.failure_count
            };
            Observation {
                iterations_run: self.iterations_run + 1,
                failure_count: failures,
                alerted: failures > FAILURE_THRESHOLD,
            }
        } else {
            self
        }
    }

    /// Whether this outcome is the one that raises the alert.
    pub open spec fn fires(self, outcome: ServerState) -> bool {
        self.active() && self.observe(outcome).alerted
    }

    /// The state after a sequence of outcomes, oldest first.
    pub open spec fn observe_all(self, outcomes: Seq<ServerState>) -> Observation
        decreases outcomes.len(),
    {
        if outcomes.len() == 0 {
            self
        } else {
            self.observe_all(outcomes.drop_last()).observe(outcomes.last())
        }
    }
}

/// Number of unresponsive outcomes in a sequence.
pub open spec fn failures(outcomes: Seq<ServerState>) -> nat
    decreases outcomes.len(),
{
    if outcomes.len() == 0 {
        0
    } else {
        failures(outcomes.drop_last()) + if outcomes.last() == ServerState::ServerUnresponsive {
            1nat
        } else {
            0nat
        }
    }
}

/// The outcomes that fall into the observation window.
pub open spec fn window(outcomes: Seq<ServerState>) -> Seq<ServerState> {
    if outcomes.len() <= MAX_ITERATIONS {
        outcomes
    } else {
        outcomes.take(MAX_ITERATIONS as int)
    }
}

/// Whether the outcome at position `k` of a run from the initial state is the
/// one that raises the alert.
pub open spec fn fires_at(outcomes: Seq<ServerState>, k: int) -> bool {
    Observation::initial().observe_all(outcomes.take(k)).fires(outcomes[k])
}

/// The tracker of one endpoint.
#[derive(Clone, Copy, Debug, PartialEq, Eq)]
pub struct ObservationState {
    iterations_run: u32,
    failure_count: u32,
    alerted: bool,
}

impl View for ObservationState {
    type V = Observation;

    closed spec fn view(&self) -> Observation {
        Observation {
            iterations_run: self.iterations_run as nat,
            failure_count: self.failure_count as nat,
            alerted: self.alerted,
        }
    }
}

impl ObservationState {
    /// Validity of a tracker: its state is one that `new` and `observe` can
    /// produce. Every tracker is valid at all times.
    #[verifier::type_invariant]
    pub open spec fn wf(&self) -> bool {
        self@.wf()
    }

    /// A tracker before the first probe.
    pub fn new() -> (state: ObservationState)
        ensures
            state@ == Observation::initial(),
            state.wf(),
    {
        ObservationState { iterations_run: 0, failure_count: 0, alerted: false }
    }

    /// Probes completed so far.
    pub fn iterations_run(&self) -> (n: u32)
        ensures
            n == self@.iterations_run,
    {
        self.iterations_run
    }

    /// Failed probes so far.
    pub fn failure_count(&self) -> (n: u32)
        ensures
            n == self@.failure_count,
    {
        self.failure_count
    }

    /// Whether the alert has been raised.
    pub fn alerted(&self) -> (b: bool)
        ensures
            b == self@.alerted,
    {
        self.alerted
    }

    /// Whether another probe is due.
    pub fn is_active(&self) -> (b: bool)
        ensures
            b == self@.active(),
    {
        !self.alerted && self.iterations_run < MAX_ITERATIONS
    }

    /// Takes in the outcome of one probe and counts the iteration. Returns
    /// `true` exactly when this outcome raises the alert. A tracker that is
    /// no longer active ignores the outcome.
    pub fn observe(&mut self, outcome: ServerState) -> (fire: bool)
        ensures
            final(self)@ == old(self)@.observe(outcome),
            fire == old(self)@.fires(outcome),
            old(self).wf(),
            final(self).wf(),
    {
        proof {
            use_type_invariant(&*self);
        }
        if self.alerted || self.iterations_run >= MAX_ITERATIONS {
            return false;
        }
        let failures: u32 = match outcome {
            ServerState::ServerUnresponsive => self.failure_count + 1,
            ServerState::ServerOk => self.failure_count,
        };
        let fire = failures > FAILURE_THRESHOLD;
        *self = ObservationState {
            iterations_run: self.iterations_run + 1,
            failure_count: failures,
            alerted: fire,
        };
        fire
    }
}

/// Every step keeps a tracker valid, never lowers a counter and never takes
/// an alert back; once the alert is raised the state no longer changes.
pub proof fn law_observe_monotone(obs: Observation, outcome: ServerState)
    requires
        obs.wf(),
    ensures
        obs.observe(outcome).wf(),
        obs.observe(outcome).iterations_run >= obs.iterations_run,
        obs.observe(outcome).iterations_run <= obs.iterations_run + 1,
        obs.observe(outcome).failure_count >= obs.failure_count,
        obs.alerted ==> obs.observe(outcome) == obs,
        obs.iterations_run == MAX_ITERATIONS ==> obs.observe(outcome) == obs,
        obs.fires(outcome) <==> !obs.alerted && obs.observe(outcome).alerted,
{
}

/// A longer prefix holds at least as many failures as a shorter one.
pub proof fn lemma_failures_prefix(outcomes: Seq<ServerState>, i: int, j: int)
    requires
        0 <= i <= j <= outcomes.len(),
    ensures
        failures(outcomes.take(i)) <= failures(outcomes.take(j)),
    decreases j - i,
{
    if i < j {
        lemma_failures_prefix(outcomes, i, j - 1);
        assert(outcomes.take(j).drop_last() =~= outcomes.take(j - 1));
    }
}

/// What a run from the initial state has counted: the failures among the
/// outcomes it took in. It takes in outcomes until the alert is raised or the
/// window is used up, and the last outcome taken in before an alert is a
/// failure.
pub proof fn lemma_run_counts(outcomes: Seq<ServerState>)
    ensures
        ({
            let obs = Observation::initial().observe_all(outcomes);
            &&& obs.wf()
            &&& obs.iterations_run <= outcomes.len()
            &&& obs.failure_count == failures(outcomes.take(obs.iterations_run as int))
            &&& !obs.alerted ==> obs.iterations_run == window(outcomes).len()
            &&& obs.alerted ==> obs.iterations_run >= 1
                && outcomes[obs.iterations_run - 1] == ServerState::ServerUnresponsive
        }),
    decreases outcomes.len(),
{
    if outcomes.len() > 0 {
        let before = outcomes.drop_last();
        let prev = Observation::initial().observe_all(before);
        lemma_run_counts(before);
        let n = prev.iterations_run as int;
        assert(before.take(n) =~= outcomes.take(n));
        if prev.active() {
            assert(outcomes.take(n + 1) =~= outcomes);
        }
    }
}

/// While at most five outcomes of the window are failures, no outcome raises
/// the alert and the run ends without one.
pub proof fn law_no_alert_up_to_threshold(outcomes: Seq<ServerState>)
    requires
        failures(window(outcomes)) <= FAILURE_THRESHOLD,
    ensures
        !Observation::initial().observe_all(outcomes).alerted,
        Observation::initial().observe_all(outcomes).iterations_run == window(outcomes).len(),
        Observation::initial().observe_all(outcomes).failure_count == failures(window(outcomes)),
        forall|k: int| 0 <= k < outcomes.len() ==> !fires_at(outcomes, k),
{
    let w = window(outcomes);
    assert(w =~= outcomes.take(w.len() as int));
    lemma_run_counts(outcomes);
    let obs = Observation::initial().observe_all(outcomes);
    if obs.alerted {
        lemma_failures_prefix(outcomes, obs.iterations_run as int, w.len() as int);
    }
    assert forall|k: int| 0 <= k < outcomes.len() implies !fires_at(outcomes, k) by {
        if fires_at(outcomes, k) {
            law_alert_fires_at_first_excess(outcomes, k);
            lemma_failures_prefix(outcomes, k + 1, w.len() as int);
        }
    }
}

/// The alert is raised by exactly that outcome of the window with which the
/// number of failures first exceeds five.
pub proof fn law_alert_fires_at_first_excess(outcomes: Seq<ServerState>, k: int)
    requires
        0 <= k < outcomes.len(),
    ensures
        fires_at(outcomes, k) <==> {
            &&& k < MAX_ITERATIONS
            &&& outcomes[k] == ServerState::ServerUnresponsive
            &&& failures(outcomes.take(k + 1)) == FAILURE_THRESHOLD + 1
        },
{
    let head = outcomes.take(k);
    let obs = Observation::initial().observe_all(head);
    lemma_run_counts(head);
    let n = obs.iterations_run as int;
    assert(head.take(n) =~= outcomes.take(n));
    assert(outcomes.take(k + 1).drop_last() =~= head);
    lemma_failures_prefix(outcomes, n, k);
}

/// No run raises the alert twice.
pub proof fn law_alert_fires_once(outcomes: Seq<ServerState>, j: int, k: int)
    requires
        0 <= j < outcomes.len(),
        0 <= k < outcomes.len(),
        fires_at(outcomes, j),
        fires_at(outcomes, k),
    ensures
        j == k,
{
    law_alert_fires_at_first_excess(outcomes, j);
    law_alert_fires_at_first_excess(outcomes, k);
    if j < k {
        lemma_failures_prefix(outcomes, j + 1, k);
        assert(outcomes.take(k + 1).drop_last() =~= outcomes.take(k));
    } else if k < j {
        lemma_failures_prefix(outcomes, k + 1, j);
        assert(outcomes.take(j + 1).drop_last() =~= outcomes.take(j));
    }
}

} // verus!
