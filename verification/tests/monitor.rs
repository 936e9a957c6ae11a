use server_monitor::config::{ConfigError, MailInfo};
use server_monitor::health::{ProbeResult, ServerState};
use server_monitor::mail::Mail;
use server_monitor::monitor::{Action, Event, Monitor, Phase, PAUSE_SECS};
use server_monitor::server::ServerInfo;

const UP: ProbeResult = ProbeResult::Status(200);
const LATE: ProbeResult = ProbeResult::Status(408);
const GONE: ProbeResult = ProbeResult::TransportFailure;

fn monitor_for(recipients: &[&str]) -> Monitor {
    Monitor::with_recipients(
        ServerInfo::new("http://10.0.0.7:8080/health", "web-1"),
        "watchdog@example.org".to_string(),
        recipients.iter().map(|r| r.to_string()).collect(),
    )
}

fn alert_to(recipient: &str) -> Mail {
    Mail {
        from: "watchdog@example.org".to_string(),
        to: recipient.to_string(),
        subject: "Control Servidores RTO".to_string(),
        body: "Server web-1 potentially down, please check.".to_string(),
    }
}

fn probe() -> Action {
    Action::Probe { url: "http://10.0.0.7:8080/health".to_string(), timeout_secs: 10 }
}

/// Plays the caller's part: performs each action by taking the next prepared
/// result, until the monitor stops.
fn drive(monitor: &mut Monitor, probes: &[ProbeResult], deliveries: &[bool]) -> Vec<Action> {
    let mut actions = Vec::new();
    let mut probed = 0usize;
    let mut delivered = 0usize;
    let mut event = Event::Started;
    loop {
        let action = monitor.step(event);
        actions.push(action.clone());
        event = match action {
            Action::Probe { .. } => {
                probed += 1;
                Event::Probed(probes[probed - 1])
            }
            Action::Pause { .. } => Event::Paused,
            Action::Send(_) => {
                delivered += 1;
                Event::Dispatched(deliveries[delivered - 1])
            }
            Action::Stop => break,
            Action::Nothing => panic!("the monitor ignored an event it had asked for"),
        };
    }
    actions
}

fn count_probes(actions: &[Action]) -> usize {
    actions.iter().filter(|a| matches!(a, Action::Probe { .. })).count()
}

fn mails(actions: &[Action]) -> Vec<Mail> {
    let mut found = Vec::new();
    for action in actions {
        if let Action::Send(mail) = action {
            found.push(mail.clone());
        }
    }
    found
}

fn reports(actions: &[Action]) -> Vec<(u32, ServerState)> {
    let mut found = Vec::new();
    for action in actions {
        if let Action::Pause { iteration, outcome, .. } = action {
            found.push((*iteration, *outcome));
        }
    }
    found
}

#[test]
fn new_monitor_waits_to_be_started() {
    let monitor = monitor_for(&["ann@example.org"]);
    assert_eq!(monitor.phase(), Phase::Idle);
    assert!(!monitor.is_finished());
    assert_eq!(monitor.observation().iterations_run(), 0);
    assert_eq!(monitor.observation().failure_count(), 0);
    assert!(!monitor.observation().alerted());
    assert_eq!(monitor.server().target_url, "http://10.0.0.7:8080/health");
    assert_eq!(monitor.server().server_name, "web-1");
    assert_eq!(monitor.sender(), "watchdog@example.org");
    assert_eq!(monitor.recipients(), &vec!["ann@example.org".to_string()]);
}

#[test]
fn first_action_is_a_probe_with_ten_second_timeout() {
    let mut monitor = monitor_for(&["ann@example.org"]);
    assert_eq!(monitor.step(Event::Started), probe());
    assert_eq!(monitor.phase(), Phase::Probing);
}

#[test]
fn probe_is_followed_by_a_two_second_pause_that_reports_the_outcome() {
    let mut monitor = monitor_for(&["ann@example.org"]);
    monitor.step(Event::Started);
    let action = monitor.step(Event::Probed(LATE));
    assert_eq!(
        action,
        Action::Pause { secs: 2, iteration: 0, outcome: ServerState::ServerUnresponsive }
    );
    assert_eq!(PAUSE_SECS, 2);
    assert_eq!(monitor.phase(), Phase::Pausing(ServerState::ServerUnresponsive));
    assert_eq!(monitor.observation().iterations_run(), 0);
    assert_eq!(monitor.observation().failure_count(), 0);
}

#[test]
fn outcome_is_counted_when_the_pause_is_over() {
    let mut monitor = monitor_for(&["ann@example.org"]);
    monitor.step(Event::Started);
    monitor.step(Event::Probed(GONE));
    assert_eq!(monitor.step(Event::Paused), probe());
    assert_eq!(monitor.phase(), Phase::Probing);
    assert_eq!(monitor.observation().iterations_run(), 1);
    assert_eq!(monitor.observation().failure_count(), 1);
}

#[test]
fn endpoint_that_never_responds_alerts_at_iteration_six() {
    let mut monitor = monitor_for(&["ann@example.org", "bob@example.org"]);
    let actions = drive(&mut monitor, &[GONE; 10], &[true, true]);
    assert_eq!(count_probes(&actions), 6);
    assert_eq!(reports(&actions).len(), 6);
    assert_eq!(mails(&actions), vec![alert_to("ann@example.org"), alert_to("bob@example.org")]);
    assert_eq!(actions.last(), Some(&Action::Stop));
    assert!(monitor.is_finished());
    assert!(monitor.observation().alerted());
    assert_eq!(monitor.observation().iterations_run(), 6);
    assert_eq!(monitor.observation().failure_count(), 6);
    let mut expected = Vec::new();
    for iteration in 0u32..6 {
        expected.push(probe());
        expected.push(Action::Pause {
            secs: 2,
            iteration,
            outcome: ServerState::ServerUnresponsive,
        });
    }
    expected.push(Action::Send(alert_to("ann@example.org")));
    expected.push(Action::Send(alert_to("bob@example.org")));
    expected.push(Action::Stop);
    assert_eq!(actions, expected);
}

#[test]
fn endpoint_that_always_responds_200_runs_ten_checks_without_alert() {
    let mut monitor = monitor_for(&["ann@example.org", "bob@example.org"]);
    let actions = drive(&mut monitor, &[UP; 10], &[]);
    assert_eq!(count_probes(&actions), 10);
    assert!(mails(&actions).is_empty());
    assert_eq!(actions.len(), 21);
    assert_eq!(actions.last(), Some(&Action::Stop));
    assert!(monitor.is_finished());
    assert!(!monitor.observation().alerted());
    assert_eq!(monitor.observation().iterations_run(), 10);
    assert_eq!(monitor.observation().failure_count(), 0);
}

#[test]
fn failed_send_does_not_keep_the_next_recipient_from_being_tried() {
    let mut monitor = monitor_for(&["ann@example.org", "bob@example.org"]);
    let actions = drive(&mut monitor, &[LATE; 10], &[false, true]);
    assert_eq!(mails(&actions), vec![alert_to("ann@example.org"), alert_to("bob@example.org")]);
    assert_eq!(actions.last(), Some(&Action::Stop));
    assert!(monitor.is_finished());
}

#[test]
fn every_send_may_fail_and_the_monitor_still_ends() {
    let mut monitor = monitor_for(&["ann@example.org", "bob@example.org", "cy@example.org"]);
    let actions = drive(&mut monitor, &[GONE; 10], &[false, false, false]);
    assert_eq!(mails(&actions).len(), 3);
    assert_eq!(actions.last(), Some(&Action::Stop));
    assert!(monitor.is_finished());
}

#[test]
fn five_failures_in_the_window_send_nothing() {
    let mut monitor = monitor_for(&["ann@example.org"]);
    let results = [GONE, UP, LATE, UP, GONE, UP, LATE, UP, GONE, UP];
    let actions = drive(&mut monitor, &results, &[]);
    assert_eq!(count_probes(&actions), 10);
    assert!(mails(&actions).is_empty());
    assert!(!monitor.observation().alerted());
    assert_eq!(monitor.observation().failure_count(), 5);
}

#[test]
fn alert_goes_out_at_the_first_iteration_past_five_failures() {
    let mut monitor = monitor_for(&["ann@example.org"]);
    let results = [GONE, UP, LATE, GONE, UP, GONE, GONE, ProbeResult::Status(500), UP, UP];
    let actions = drive(&mut monitor, &results, &[true]);
    assert_eq!(count_probes(&actions), 8);
    assert_eq!(mails(&actions), vec![alert_to("ann@example.org")]);
    assert_eq!(monitor.observation().iterations_run(), 8);
    assert_eq!(monitor.observation().failure_count(), 6);
    let sent_at = actions.iter().position(|a| matches!(a, Action::Send(_))).unwrap();
    assert_eq!(count_probes(&actions[sent_at..]), 0);
}

#[test]
fn alert_raised_by_the_tenth_probe_still_goes_out() {
    let mut monitor = monitor_for(&["ann@example.org"]);
    let results = [UP, UP, UP, UP, GONE, GONE, GONE, GONE, GONE, GONE];
    let actions = drive(&mut monitor, &results, &[true]);
    assert_eq!(count_probes(&actions), 10);
    assert_eq!(mails(&actions), vec![alert_to("ann@example.org")]);
    assert!(monitor.observation().alerted());
}

#[test]
fn alert_without_recipients_ends_the_run_at_once() {
    let mut monitor = monitor_for(&[]);
    let actions = drive(&mut monitor, &[GONE; 10], &[]);
    assert_eq!(count_probes(&actions), 6);
    assert!(mails(&actions).is_empty());
    assert!(monitor.observation().alerted());
    assert!(monitor.is_finished());
}

#[test]
fn no_run_has_more_than_ten_probes() {
    for pattern in 0u32..1024 {
        let results: Vec<ProbeResult> =
            (0..10).map(|bit| if pattern >> bit & 1 == 1 { GONE } else { UP }).collect();
        let mut monitor = monitor_for(&["ann@example.org", "bob@example.org"]);
        let actions = drive(&mut monitor, &results, &[true, false]);
        assert!(count_probes(&actions) <= 10);
        let sent = mails(&actions);
        if pattern.count_ones() > 5 {
            assert_eq!(sent, vec![alert_to("ann@example.org"), alert_to("bob@example.org")]);
        } else {
            assert!(sent.is_empty());
            assert_eq!(count_probes(&actions), 10);
        }
        if let Some(first) = actions.iter().position(|a| matches!(a, Action::Send(_))) {
            assert_eq!(count_probes(&actions[first..]), 0);
        }
    }
}

#[test]
fn reports_carry_the_iterations_in_order() {
    let mut monitor = monitor_for(&["ann@example.org"]);
    let results = [UP, GONE, UP, LATE, UP, UP, GONE, UP, UP, UP];
    let actions = drive(&mut monitor, &results, &[]);
    let down = ServerState::ServerUnresponsive;
    let ok = ServerState::ServerOk;
    assert_eq!(
        reports(&actions),
        vec![
            (0, ok),
            (1, down),
            (2, ok),
            (3, down),
            (4, ok),
            (5, ok),
            (6, down),
            (7, ok),
            (8, ok),
            (9, ok)
        ]
    );
}

#[test]
fn two_monitors_stepped_in_turn_keep_their_own_order() {
    let mut first = monitor_for(&["ann@example.org"]);
    let mut second = Monitor::with_recipients(
        ServerInfo::new("http://10.0.0.8/", "db-1"),
        "watchdog@example.org".to_string(),
        vec!["ann@example.org".to_string()],
    );
    let mut first_reports = Vec::new();
    let mut second_reports = Vec::new();
    first.step(Event::Started);
    second.step(Event::Started);
    for _ in 0..10 {
        if let Action::Pause { iteration, .. } = first.step(Event::Probed(UP)) {
            first_reports.push(iteration);
        }
        if let Action::Pause { iteration, .. } = second.step(Event::Probed(GONE)) {
            second_reports.push(iteration);
        }
        second.step(Event::Paused);
        first.step(Event::Paused);
    }
    assert_eq!(first_reports, vec![0, 1, 2, 3, 4, 5, 6, 7, 8, 9]);
    assert_eq!(second_reports, vec![0, 1, 2, 3, 4, 5]);
    assert!(!first.observation().alerted());
    assert!(second.observation().alerted());
    assert_eq!(first.observation().failure_count(), 0);
}

#[test]
fn finished_monitor_keeps_saying_stop() {
    let mut monitor = monitor_for(&["ann@example.org"]);
    drive(&mut monitor, &[UP; 10], &[]);
    let before = monitor.clone();
    for event in [Event::Started, Event::Probed(GONE), Event::Paused, Event::Dispatched(true)] {
        assert_eq!(monitor.step(event), Action::Stop);
        assert_eq!(monitor, before);
    }
}

#[test]
fn event_that_is_not_waited_for_changes_nothing() {
    let mut monitor = monitor_for(&["ann@example.org"]);
    let idle = monitor.clone();
    for event in [Event::Probed(UP), Event::Paused, Event::Dispatched(true)] {
        assert_eq!(monitor.step(event), Action::Nothing);
        assert_eq!(monitor, idle);
    }
    monitor.step(Event::Started);
    let probing = monitor.clone();
    for event in [Event::Started, Event::Paused, Event::Dispatched(false)] {
        assert_eq!(monitor.step(event), Action::Nothing);
        assert_eq!(monitor, probing);
    }
    monitor.step(Event::Probed(GONE));
    let pausing = monitor.clone();
    for event in [Event::Started, Event::Probed(GONE), Event::Dispatched(false)] {
        assert_eq!(monitor.step(event), Action::Nothing);
        assert_eq!(monitor, pausing);
    }
}

#[test]
fn stray_events_while_notifying_do_not_repeat_a_mail() {
    let mut monitor = monitor_for(&["ann@example.org", "bob@example.org"]);
    monitor.step(Event::Started);
    let mut action = Action::Nothing;
    for _ in 0..6 {
        monitor.step(Event::Probed(GONE));
        action = monitor.step(Event::Paused);
    }
    assert_eq!(action, Action::Send(alert_to("ann@example.org")));
    assert_eq!(monitor.phase(), Phase::Notifying(0));
    assert_eq!(monitor.step(Event::Paused), Action::Nothing);
    assert_eq!(monitor.step(Event::Probed(UP)), Action::Nothing);
    assert_eq!(monitor.phase(), Phase::Notifying(0));
    assert_eq!(monitor.step(Event::Dispatched(false)), Action::Send(alert_to("bob@example.org")));
    assert_eq!(monitor.phase(), Phase::Notifying(1));
    assert_eq!(monitor.step(Event::Dispatched(true)), Action::Stop);
    assert_eq!(monitor.phase(), Phase::Finished);
}

#[test]
fn monitor_from_configuration_takes_sender_and_recipients() {
    let info = MailInfo::new(
        Some("watchdog@example.org".to_string()),
        Some("smtp.example.org".to_string()),
        Some("hunter2".to_string()),
        Some("{\"emails\": [\"ann@example.org\", \"bob@example.org\"]}".to_string()),
    )
    .unwrap();
    let made = Monitor::new(ServerInfo::new("http://10.0.0.7:8080/health", "web-1"), &info).unwrap();
    assert_eq!(made, monitor_for(&["ann@example.org", "bob@example.org"]));
}

#[test]
fn monitor_from_bad_configuration_fails_alone() {
    let bad = MailInfo::new(
        Some("watchdog@example.org".to_string()),
        Some("smtp.example.org".to_string()),
        Some("hunter2".to_string()),
        Some("not json".to_string()),
    )
    .unwrap();
    let keyless = MailInfo { recipient_source: "{\"to\": []}".to_string(), ..bad.clone() };
    let server = ServerInfo::new("http://10.0.0.7:8080/health", "web-1");
    assert_eq!(Monitor::new(server.clone(), &bad), Err(ConfigError::MalformedRecipients));
    assert_eq!(Monitor::new(server, &keyless), Err(ConfigError::NoEmailsKey));
}
