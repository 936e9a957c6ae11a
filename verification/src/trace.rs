//! Whole runs of a monitor: what holds of every sequence of events.

use vstd::prelude::*;
use crate::health::ServerState;
use crate::mail::{alert_mails, MailView};
use crate::monitor::{ActionView, Event, MonitorView, Phase};
use crate::tracker::{
    failures,
    lemma_failures_prefix,
    lemma_run_counts,
    window,
    Observation,
    FAILURE_THRESHOLD,
    MAX_ITERATIONS,
};

verus! {

/// The state a monitor reaches from `start` when told `events`, oldest
/// first.
pub open spec fn state_after(start: MonitorView, events: Seq<Event>) -> MonitorView
    decreases events.len(),
{
    if events.len() == 0 {
        start
    } else {
        state_after(start, events.drop_last()).step(events.last()).0
    }
}

/// The actions a monitor asks for on the way, one for each event.
pub open spec fn actions_of(start: MonitorView, events: Seq<Event>) -> Seq<ActionView>
    decreases events.len(),
{
    if events.len() == 0 {
        Seq::empty()
    } else {
        actions_of(start, events.drop_last()).push(
            state_after(start, events.drop_last()).step(events.last()).1,
        )
    }
}

/// Number of probes among the actions.
pub open spec fn probes(actions: Seq<ActionView>) -> nat
    decreases actions.len(),
{
    if actions.len() == 0 {
        0
    } else {
        probes(actions.drop_last()) + if actions.last() is Probe {
            1nat
        } else {
            0nat
        }
    }
}

/// The mails handed out by the actions, in their order.
pub open spec fn sends(actions: Seq<ActionView>) -> Seq<MailView>
    decreases actions.len(),
{
    if actions.len() == 0 {
        Seq::empty()
    } else {
        match actions.last() {
            ActionView::Send(mail) => sends(actions.drop_last()).push(mail),
            _ => sends(actions.drop_last()),
        }
    }
}

/// The iteration numbers under which the actions report probe outcomes, in
/// their order.
pub open spec fn reported_iterations(actions: Seq<ActionView>) -> Seq<nat>
    decreases actions.len(),
{
    if actions.len() == 0 {
        Seq::empty()
    } else {
        match actions.last() {
            ActionView::Pause { iteration, .. } => reported_iterations(actions.drop_last()).push(
                iteration,
            ),
            _ => reported_iterations(actions.drop_last()),
        }
    }
}

/// The probe outcomes that the actions report, in their order.
pub open spec fn reported_outcomes(actions: Seq<ActionView>) -> Seq<ServerState>
    decreases actions.len(),
{
    if actions.len() == 0 {
        Seq::empty()
    } else {
        match actions.last() {
            ActionView::Pause { outcome, .. } => reported_outcomes(actions.drop_last()).push(
                outcome,
            ),
            _ => reported_outcomes(actions.drop_last()),
        }
    }
}

/// Probes that a monitor in this state has asked for.
pub open spec fn probes_begun(state: MonitorView) -> nat {
    match state.phase {
        Phase::Probing => state.observation.iterations_run + 1,
        Phase::Pausing(_) => state.observation.iterations_run + 1,
        _ => state.observation.iterations_run,
    }
}

/// Probe outcomes that a monitor in this state has reported.
pub open spec fn outcomes_reported(state: MonitorView) -> nat {
    match state.phase {
        Phase::Pausing(_) => state.observation.iterations_run + 1,
        _ => state.observation.iterations_run,
    }
}

/// Alert mails that a monitor in this state has handed out.
pub open spec fn mails_handed_out(state: MonitorView) -> nat {
    match state.phase {
        Phase::Notifying(index) => (index + 1) as nat,
        Phase::Finished => if state.observation.alerted {
            state.recipients.len()
        } else {
            0
        },
        _ => 0,
    }
}

/// All the alert mails of a monitor.
pub open spec fn batch(state: MonitorView) -> Seq<MailView> {
    alert_mails(state.sender, state.server.server_name, state.recipients)
}

/// The numbers from 0 up to, not including, `n`.
pub open spec fn count_up(n: nat) -> Seq<nat> {
    Seq::new(n, |j: int| j as nat)
}

/// How a state reached from `start` hangs together with the actions asked
/// for on the way.
pub open spec fn consistent(start: MonitorView, state: MonitorView, actions: Seq<ActionView>) -> bool {
    &&& state.wf()
    &&& state.server == start.server
    &&& state.sender == start.sender
    &&& state.recipients == start.recipients
    &&& probes(actions) == probes_begun(state)
    &&& sends(actions) == batch(state).take(mails_handed_out(state) as int)
    &&& reported_iterations(actions) == count_up(outcomes_reported(state))
    &&& reported_outcomes(actions).len() == outcomes_reported(state)
    &&& state.observation == Observation::initial().observe_all(
        reported_outcomes(actions).take(state.observation.iterations_run as int),
    )
    &&& state.phase matches Phase::Pausing(outcome) ==> reported_outcomes(actions).last()
        == outcome
}

proof fn lemma_step_consistent(
    start: MonitorView,
    state: MonitorView,
    actions: Seq<ActionView>,
    event: Event,
)
    requires
        consistent(start, state, actions),
    ensures
        consistent(start, state.step(event).0, actions.push(state.step(event).1)),
{
    let (next, action) = state.step(event);
    let after = actions.push(action);
    assert(after.drop_last() =~= actions);
    let outcomes = reported_outcomes(actions);
    let n = state.observation.iterations_run as int;
    match (state.phase, event) {
        (Phase::Probing, Event::Probed(_)) => {
            assert(reported_iterations(after) =~= count_up(outcomes_reported(next)));
            assert(reported_outcomes(after).take(n) =~= outcomes.take(n));
        },
        (Phase::Pausing(outcome), Event::Paused) => {
            assert(outcomes.take(n + 1) =~= outcomes);
            if state.observation.fires(outcome) && 0 < state.recipients.len() {
                assert(sends(after) =~= batch(next).take(1));
            }
        },
        (Phase::Notifying(index), Event::Dispatched(_)) => {
            if index + 1 < state.recipients.len() {
                assert(sends(after) =~= batch(next).take(index + 2));
            }
        },
        _ => {},
    }
}

/// Every state of a run from a monitor that has not been started is
/// consistent with the actions of the run.
pub proof fn lemma_run_consistent(start: MonitorView, events: Seq<Event>)
    requires
        start.wf(),
        start.phase == Phase::Idle,
    ensures
        consistent(start, state_after(start, events), actions_of(start, events)),
        actions_of(start, events).len() == events.len(),
    decreases events.len(),
{
    if events.len() == 0 {
        let actions = actions_of(start, events);
        assert(sends(actions) =~= batch(start).take(0));
        assert(reported_iterations(actions) =~= count_up(0));
    } else {
        lemma_run_consistent(start, events.drop_last());
        lemma_step_consistent(
            start,
            state_after(start, events.drop_last()),
            actions_of(start, events.drop_last()),
            events.last(),
        );
    }
}

/// The action at position `j` of a run is the answer to event `j` in the
/// state reached by the events before it.
pub proof fn lemma_action_at(start: MonitorView, events: Seq<Event>, j: int)
    requires
        0 <= j < events.len(),
    ensures
        actions_of(start, events).len() == events.len(),
        actions_of(start, events)[j] == state_after(start, events.take(j)).step(events[j]).1,
    decreases events.len(),
{
    lemma_actions_len(start, events);
    lemma_actions_len(start, events.drop_last());
    if j < events.len() - 1 {
        lemma_action_at(start, events.drop_last(), j);
        assert(events.drop_last().take(j) =~= events.take(j));
    }
}

proof fn lemma_actions_len(start: MonitorView, events: Seq<Event>)
    ensures
        actions_of(start, events).len() == events.len(),
    decreases events.len(),
{
    if events.len() > 0 {
        lemma_actions_len(start, events.drop_last());
    }
}

/// Once the alert is raised the tracker's state stays as it is, whatever
/// events follow.
pub proof fn lemma_alert_stays(start: MonitorView, events: Seq<Event>, k: int, j: int)
    requires
        start.wf(),
        start.phase == Phase::Idle,
        0 <= k <= j <= events.len(),
        state_after(start, events.take(k)).observation.alerted,
    ensures
        state_after(start, events.take(j)).observation == state_after(
            start,
            events.take(k),
        ).observation,
    decreases j - k,
{
    if k < j {
        lemma_alert_stays(start, events, k, j - 1);
        lemma_run_consistent(start, events.take(j - 1));
        assert(events.take(j).drop_last() =~= events.take(j - 1));
    }
}

/// A monitor never asks for more than ten probes.
pub proof fn law_at_most_ten_probes(start: MonitorView, events: Seq<Event>)
    requires
        start.wf(),
        start.phase == Phase::Idle,
    ensures
        probes(actions_of(start, events)) <= MAX_ITERATIONS,
{
    lemma_run_consistent(start, events);
}

/// Once the alert is raised, no later action of the run is a probe.
pub proof fn law_no_probe_after_alert(start: MonitorView, events: Seq<Event>, k: int, j: int)
    requires
        start.wf(),
        start.phase == Phase::Idle,
        0 <= k <= j < events.len(),
        state_after(start, events.take(k)).observation.alerted,
    ensures
        !(actions_of(start, events)[j] is Probe),
{
    lemma_action_at(start, events, j);
    lemma_alert_stays(start, events, k, j);
    lemma_run_consistent(start, events.take(j));
}

/// The tracker of a run has counted exactly the outcomes that the run has
/// reported and whose pause is over.
pub proof fn law_tracker_follows_reports(start: MonitorView, events: Seq<Event>)
    requires
        start.wf(),
        start.phase == Phase::Idle,
    ensures
        ({
            let state = state_after(start, events);
            let outcomes = reported_outcomes(actions_of(start, events));
            let counted = outcomes.take(state.observation.iterations_run as int);
            &&& state.observation.iterations_run <= outcomes.len()
            &&& state.observation == Observation::initial().observe_all(counted)
            &&& state.observation.failure_count == failures(counted)
            &&& state.observation.alerted <==> failures(counted) > FAILURE_THRESHOLD
        }),
{
    lemma_run_consistent(start, events);
    let state = state_after(start, events);
    let outcomes = reported_outcomes(actions_of(start, events));
    let counted = outcomes.take(state.observation.iterations_run as int);
    lemma_run_counts(counted);
    assert(counted.take(state.observation.iterations_run as int) =~= counted);
}

/// While at most five of the outcomes reported within the window are
/// failures, the alert is not raised and no mail is handed out.
pub proof fn law_no_mail_up_to_threshold(start: MonitorView, events: Seq<Event>)
    requires
        start.wf(),
        start.phase == Phase::Idle,
        failures(window(reported_outcomes(actions_of(start, events)))) <= FAILURE_THRESHOLD,
    ensures
        !state_after(start, events).observation.alerted,
        sends(actions_of(start, events)).len() == 0,
{
    lemma_run_consistent(start, events);
    law_tracker_follows_reports(start, events);
    let counted = state_after(start, events).observation.iterations_run as int;
    let outcomes = reported_outcomes(actions_of(start, events));
    let w = window(outcomes);
    assert(w =~= outcomes.take(w.len() as int));
    lemma_failures_prefix(outcomes, counted, w.len() as int);
}

/// The mails handed out in a run are the first alerts of the monitor's batch,
/// one for each recipient in the recipients' order. None goes out before the
/// alert is raised, and a run that ends after the alert has handed out all of
/// them: as many as there are recipients, each with the server's name in its
/// body.
pub proof fn law_alert_mails(start: MonitorView, events: Seq<Event>)
    requires
        start.wf(),
        start.phase == Phase::Idle,
    ensures
        ({
            let state = state_after(start, events);
            let mails = sends(actions_of(start, events));
            let all = alert_mails(start.sender, start.server.server_name, start.recipients);
            &&& mails == all.take(mails.len() as int)
            &&& mails.len() <= start.recipients.len()
            &&& !state.observation.alerted ==> mails.len() == 0
            &&& state.observation.alerted && state.phase == Phase::Finished ==> mails == all
                && mails.len() == start.recipients.len()
        }),
{
    lemma_run_consistent(start, events);
}

/// The events of a caller that sees an alert through: the end of the pause,
/// then for each mail how its delivery went.
pub open spec fn alert_events(deliveries: Seq<bool>) -> Seq<Event> {
    Seq::new(
        deliveries.len() + 1,
        |i: int|
            if i == 0 {
                Event::Paused
            } else {
                Event::Dispatched(deliveries[i - 1])
            },
    )
}

proof fn lemma_alert_progress(
    state: MonitorView,
    outcome: ServerState,
    deliveries: Seq<bool>,
    k: int,
)
    requires
        state.wf(),
        state.phase == Phase::Pausing(outcome),
        state.observation.fires(outcome),
        deliveries.len() == state.recipients.len(),
        0 <= k <= deliveries.len(),
    ensures
        ({
            let events = alert_events(deliveries).take(k + 1);
            let reached = state_after(state, events);
            let actions = actions_of(state, events);
            &&& reached.server == state.server
            &&& reached.sender == state.sender
            &&& reached.recipients == state.recipients
            &&& reached.observation == state.observation.observe(outcome)
            &&& k < deliveries.len() ==> reached.phase == Phase::Notifying(k as usize)
            &&& k == deliveries.len() ==> reached.phase == Phase::Finished
            &&& actions.len() == k + 1
            &&& k < deliveries.len() ==> actions.last() == ActionView::Send(state.mail(k))
            &&& k == deliveries.len() ==> actions.last() == ActionView::Stop
            &&& probes(actions) == 0
            &&& k < deliveries.len() ==> sends(actions) == batch(state).take(k + 1)
            &&& k == deliveries.len() ==> sends(actions) == batch(state)
        }),
    decreases k,
{
    let events = alert_events(deliveries).take(k + 1);
    let actions = actions_of(state, events);
    assert(actions.drop_last() =~= actions_of(state, events.drop_last()));
    if k == 0 {
        assert(probes(actions.drop_last()) == 0);
        assert(sends(actions.drop_last()) =~= Seq::<MailView>::empty());
    } else {
        lemma_alert_progress(state, outcome, deliveries, k - 1);
        assert(events.drop_last() =~= alert_events(deliveries).take(k));
    }
}

/// Once an outcome raises the alert, a caller that sees it through gets every
/// mail of the batch, one for each recipient and in the recipients' order,
/// then the end of the run, and no probe. How the deliveries go does not
/// matter.
pub proof fn law_alert_completes(state: MonitorView, outcome: ServerState, deliveries: Seq<bool>)
    requires
        state.wf(),
        state.phase == Phase::Pausing(outcome),
        state.observation.fires(outcome),
        deliveries.len() == state.recipients.len(),
    ensures
        ({
            let events = alert_events(deliveries);
            let actions = actions_of(state, events);
            &&& state_after(state, events).phase == Phase::Finished
            &&& state_after(state, events).observation.alerted
            &&& actions.len() == state.recipients.len() + 1
            &&& actions.last() == ActionView::Stop
            &&& probes(actions) == 0
            &&& sends(actions) == alert_mails(
                state.sender,
                state.server.server_name,
                state.recipients,
            )
            &&& sends(actions).len() == state.recipients.len()
        }),
{
    let events = alert_events(deliveries);
    lemma_alert_progress(state, outcome, deliveries, deliveries.len() as int);
    assert(events.take(deliveries.len() as int + 1) =~= events);
}

/// The outcome reports of a run carry the iteration numbers 0, 1, 2 and so
/// on, in this order.
pub proof fn law_reports_in_order(start: MonitorView, events: Seq<Event>, j: int)
    requires
        start.wf(),
        start.phase == Phase::Idle,
        0 <= j < reported_iterations(actions_of(start, events)).len(),
    ensures
        reported_iterations(actions_of(start, events))[j] == j,
        reported_iterations(actions_of(start, events)).len() <= MAX_ITERATIONS,
{
    lemma_run_consistent(start, events);
}

} // verus!
