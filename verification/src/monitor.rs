//! The monitor of one endpoint, as a state machine.
//!
//! A monitor never touches the network, the clock or the mail transport. It
//! is told what happened and answers with the next thing to do; the caller
//! performs it and reports back.

use vstd::prelude::*;
use crate::config::{json_string_lists, recipients_of, ConfigError, MailInfo};
use crate::health::{classify, outcome_of, ProbeResult, ServerState, PROBE_TIMEOUT_SECS};
use crate::mail::{alert_mail, Mail, MailView};
use crate::server::{ServerInfo, ServerInfoView};
use crate::tracker::{Observation, ObservationState};

verus! {

/// Seconds to let pass between two probes of one endpoint.
pub const PAUSE_SECS: u64 = 2;

/// What a monitor is waiting for.
#[derive(Clone, Copy, Debug, PartialEq, Eq, Structural)]
pub enum Phase {
    /// Not started yet.
    Idle,
    /// A probe is under way.
    Probing,
    /// The pause after a probe is under way. The probe's outcome is counted
    /// when the pause is over.
    Pausing(ServerState),
    /// The alert for the recipient of this index is under way.
    Notifying(usize),
    /// The observation window is used up, or the alert has gone out.
    Finished,
}

/// What the caller reports to a monitor.
#[derive(Clone, Copy, Debug, PartialEq, Eq, Structural)]
pub enum Event {
    /// The run begins.
    Started,
    /// The probe that was asked for has ended with this result.
    Probed(ProbeResult),
    /// The pause that was asked for is over.
    Paused,
    /// The mail that was handed out has been dealt with; `true` if the
    /// transport took it.
    Dispatched(bool),
}

/// What a monitor asks its caller to do.
#[derive(Clone, Debug, PartialEq, Eq)]
pub enum Action {
    /// Send one GET request to `url`, giving up after `timeout_secs` seconds,
    /// and report with [`Event::Probed`].
    Probe { url: String, timeout_secs: u64 },
    /// Note the outcome of the probe of this iteration, let `secs` seconds
    /// pass, and report with [`Event::Paused`].
    Pause { secs: u64, iteration: u32, outcome: ServerState },
    /// Try once to deliver this mail and report with [`Event::Dispatched`].
    Send(Mail),
    /// The monitor is done.
    Stop,
    /// The event was not the one waited for and has been ignored.
    Nothing,
}

/// Mathematical value of an [`Action`].
pub enum ActionView {
    Probe { url: Seq<char>, timeout_secs: u64 },
    Pause { secs: u64, iteration: nat, outcome: ServerState },
    Send(MailView),
    Stop,
    Nothing,
}

impl View for Action {
    type V = ActionView;

    open spec fn view(&self) -> ActionView {
        match self {
            Action::Probe { url, timeout_secs } => ActionView::Probe {
                url: url@,
                timeout_secs: *timeout_secs,
            },
            Action::Pause { secs, iteration, outcome } => ActionView::Pause {
                secs: *secs,
                iteration: *iteration as nat,
                outcome: *outcome,
            },
            Action::Send(mail) => ActionView::Send(mail@),
            Action::Stop => ActionView::Stop,
            Action::Nothing => ActionView::Nothing,
        }
    }
}

/// Mathematical state of a monitor.
pub struct MonitorView {
    pub server: ServerInfoView,
    pub sender: Seq<char>,
    pub recipients: Seq<Seq<char>>,
    pub observation: Observation,
    pub phase: Phase,
}

impl MonitorView {
    /// The state of a monitor that has not been started.
    pub open spec fn initial(
        server: ServerInfoView,
        sender: Seq<char>,
        recipients: Seq<Seq<char>>,
    ) -> MonitorView {
        MonitorView {
            server,
            sender,
            recipients,
            observation: Observation::initial(),
            phase: Phase::Idle,
        }
    }

    /// The states a monitor can be in. A probe or a pause is under way only
    /// while the tracker is active, and alerts go out only once it has raised
    /// the alert. The recipients fit a vector.
    pub open spec fn wf(self) -> bool {
        &&& self.observation.wf()
        &&& self.recipients.len() <= usize::MAX
        &&& match self.phase {
            Phase::Idle => self.observation == Observation::initial(),
            Phase::Probing => self.observation.active(),
            Phase::Pausing(_) => self.observation.active(),
            Phase::Notifying(index) => self.observation.alerted && index < self.recipients.len(),
            Phase::Finished => !self.observation.active(),
        }
    }

    /// The request for the next probe.
    pub open spec fn probe(self) -> ActionView {
        ActionView::Probe { url: self.server.target_url, timeout_secs: PROBE_TIMEOUT_SECS }
    }

    /// The alert for the recipient of the given index.
    pub open spec fn mail(self, index: int) -> MailView {
        alert_mail(self.sender, self.recipients[index], self.server.server_name)
    }

    /// State and action once the alerts before `index` have been dealt with:
    /// the next alert, or the end of the run when none is left.
    pub open spec fn notify(self, observation: Observation, index: int) -> (
        MonitorView,
        ActionView,
    ) {
        if index < self.recipients.len() {
            (
                MonitorView { observation, phase: Phase::Notifying(index as usize), ..self },
                ActionView::Send(self.mail(index)),
            )
        } else {
            (MonitorView { observation, phase: Phase::Finished, ..self }, ActionView::Stop)
        }
    }

    /// The next state and the action asked for, given what has happened.
    ///
    /// A run goes: probe, pause, count the outcome; then either the alert is
    /// due and goes to each recipient in turn, or another probe follows, or
    /// the window is used up. How a mail fared does not matter to what comes
    /// next. An event that is not waited for changes nothing.
    pub open spec fn step(self, event: Event) -> (MonitorView, ActionView) {
        match (self.phase, event) {
            (Phase::Idle, Event::Started) => (
                MonitorView { phase: Phase::Probing, ..self },
                self.probe(),
            ),
            (Phase::Probing, Event::Probed(result)) => {
                let outcome = outcome_of(result);
                (
                    MonitorView { phase: Phase::Pausing(outcome), ..self },
                    ActionView::Pause {
                        secs: PAUSE_SECS,
                        iteration: self.observation.iterations_run,
                        outcome,
                    },
                )
            },
            (Phase::Pausing(outcome), Event::Paused) => {
                let observation = self.observation.observe(outcome);
                if self.observation.fires(outcome) {
                    self.notify(observation, 0)
                } else if observation.active() {
                    (MonitorView { observation, phase: Phase::Probing, ..self }, self.probe())
                } else {
                    (MonitorView { observation, phase: Phase::Finished, ..self }, ActionView::Stop)
                }
            },
            (Phase::Notifying(index), Event::Dispatched(_)) => self.notify(
                self.observation,
                index + 1,
            ),
            (Phase::Finished, _) => (self, ActionView::Stop),
            _ => (self, ActionView::Nothing),
        }
    }
}

/// A step keeps a monitor valid and its configuration as it is. It never
/// lowers a counter of the tracker, never takes an alert back, and counts at
/// most one iteration.
pub proof fn law_step_monotone(state: MonitorView, event: Event)
    requires
        state.wf(),
    ensures
        state.step(event).0.wf(),
        state.step(event).0.server == state.server,
        state.step(event).0.sender == state.sender,
        state.step(event).0.recipients == state.recipients,
        state.step(event).0.observation.iterations_run >= state.observation.iterations_run,
        state.step(event).0.observation.iterations_run <= state.observation.iterations_run + 1,
        state.step(event).0.observation.failure_count >= state.observation.failure_count,
        state.observation.alerted ==> state.step(event).0.observation == state.observation,
        state.phase == Phase::Finished ==> state.step(event).0 == state,
{
}

/// How far a run has come.
#[derive(Clone, Copy, Debug, PartialEq, Eq)]
struct Progress {
    observation: ObservationState,
    phase: Phase,
}

/// The monitor of one endpoint.
#[derive(Debug, PartialEq, Eq)]
pub struct Monitor {
    server: ServerInfo,
    sender: String,
    recipients: Vec<String>,
    progress: Progress,
}

impl View for Monitor {
    type V = MonitorView;

    closed spec fn view(&self) -> MonitorView {
        MonitorView {
            server: self.server@,
            sender: self.sender@,
            recipients: self.recipients.deep_view(),
            observation: self.progress.observation@,
            phase: self.progress.phase,
        }
    }
}

impl Clone for Monitor {
    /// A second monitor in the same state.
    fn clone(&self) -> (copy: Monitor)
        ensures
            copy@ == self@,
    {
        proof {
            use_type_invariant(self);
        }
        let recipients = self.recipients.clone();
        Monitor {
            server: ServerInfo {
                target_url: self.server.target_url.clone(),
                server_name: self.server.server_name.clone(),
            },
            sender: self.sender.clone(),
            recipients,
            progress: self.progress,
        }
    }
}

impl Monitor {
    /// Validity of a monitor: its state is one that a run can reach. Every
    /// monitor is valid at all times.
    #[verifier::type_invariant]
    pub open spec fn wf(&self) -> bool {
        self@.wf()
    }

    /// A monitor for `server` that has not been started. Its alerts go from
    /// `sender` to each of `recipients`.
    pub fn with_recipients(server: ServerInfo, sender: String, recipients: Vec<String>) -> (monitor:
        Monitor)
        ensures
            monitor@ == MonitorView::initial(server@, sender@, recipients.deep_view()),
            monitor.wf(),
    {
        assert(recipients.deep_view().len() == recipients.len());
        Monitor {
            server,
            sender,
            recipients,
            progress: Progress { observation: ObservationState::new(), phase: Phase::Idle },
        }
    }

    /// A monitor for `server` with sender and recipients taken from the mail
    /// configuration. Fails when the configuration names no recipients.
    pub fn new(server: ServerInfo, mail_info: &MailInfo) -> (made: Result<Monitor, ConfigError>)
        ensures
            match recipients_of(json_string_lists(mail_info@.recipient_source)) {
                Ok(list) => made is Ok && made->Ok_0.wf() && made->Ok_0@ == MonitorView::initial(
                    server@,
                    mail_info@.sender_address,
                    list,
                ),
                Err(error) => made is Err && made->Err_0 == error,
            },
    {
        match mail_info.recipients() {
            Ok(recipients) => Ok(
                Monitor::with_recipients(server, mail_info.sender_address.clone(), recipients),
            ),
            Err(error) => Err(error),
        }
    }

    /// What the monitor is waiting for.
    pub fn phase(&self) -> (phase: Phase)
        ensures
            phase == self@.phase,
    {
        self.progress.phase
    }

    /// The tracker's state.
    pub fn observation(&self) -> (observation: ObservationState)
        ensures
            observation@ == self@.observation,
    {
        self.progress.observation
    }

    /// The endpoint that is monitored.
    pub fn server(&self) -> (server: &ServerInfo)
        ensures
            server@ == self@.server,
    {
        &self.server
    }

    /// The address that alerts are sent from.
    pub fn sender(&self) -> (sender: &String)
        ensures
            sender@ == self@.sender,
    {
        &self.sender
    }

    /// The addresses that alerts go to.
    pub fn recipients(&self) -> (recipients: &Vec<String>)
        ensures
            recipients.deep_view() == self@.recipients,
    {
        &self.recipients
    }

    /// Whether the run is over.
    pub fn is_finished(&self) -> (done: bool)
        ensures
            done == (self@.phase == Phase::Finished),
    {
        match self.progress.phase {
            Phase::Finished => true,
            _ => false,
        }
    }

    fn probe_action(&self) -> (action: Action)
        ensures
            action@ == self@.probe(),
    {
        Action::Probe { url: self.server.target_url.clone(), timeout_secs: PROBE_TIMEOUT_SECS }
    }

    fn notify(&mut self, observation: ObservationState, index: usize) -> (action: Action)
        requires
            observation@.alerted,
            index <= old(self).recipients.len(),
        ensures
            (final(self)@, action@) == old(self)@.notify(observation@, index as int),
    {
        proof {
            use_type_invariant(&*self);
            use_type_invariant(&observation);
        }
        if index < self.recipients.len() {
            self.progress = Progress { observation, phase: Phase::Notifying(index) };
            Action::Send(
                Mail::alert(
                    self.sender.as_str(),
                    self.recipients[index].as_str(),
                    self.server.server_name.as_str(),
                ),
            )
        } else {
            self.progress = Progress { observation, phase: Phase::Finished };
            Action::Stop
        }
    }

    /// Takes in what has happened and says what to do next.
    pub fn step(&mut self, event: Event) -> (action: Action)
        ensures
            (final(self)@, action@) == old(self)@.step(event),
            old(self).wf(),
            final(self).wf(),
    {
        proof {
            use_type_invariant(&*self);
        }
        let observation = self.progress.observation;
        match (self.progress.phase, event) {
            (Phase::Idle, Event::Started) => {
                self.progress = Progress { observation, phase: Phase::Probing };
                self.probe_action()
            },
            (Phase::Probing, Event::Probed(result)) => {
                let outcome = classify(result);
                self.progress = Progress { observation, phase: Phase::Pausing(outcome) };
                Action::Pause { secs: PAUSE_SECS, iteration: observation.iterations_run(), outcome }
            },
            (Phase::Pausing(outcome), Event::Paused) => {
                let mut counted = observation;
                let fire = counted.observe(outcome);
                if fire {
                    self.notify(counted, 0)
                } else if counted.is_active() {
                    self.progress = Progress { observation: counted, phase: Phase::Probing };
                    self.probe_action()
                } else {
                    self.progress = Progress { observation: counted, phase: Phase::Finished };
                    Action::Stop
                }
            },
            (Phase::Notifying(index), Event::Dispatched(_)) => {
                self.notify(observation, index + 1)
            },
            (Phase::Finished, _) => Action::Stop,
            _ => Action::Nothing,
        }
    }
}

} // verus!
