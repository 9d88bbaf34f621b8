use server_health::config::{Action, ActionTypeSpec, Target};
use server_health::escalation::{Escalation, Round, Stage};
use server_health::messages::{
    build_mail_recipients, make_message_actions_exhausted, make_message_target_up_again,
    make_message_will_take_action,
};
use server_health::protocol::{Event, Notice, Request};
use server_health::status::ServerStatus;

fn step(name: &str, repeat_times: u16, wait_afterwards_secs: u64) -> Action {
    Action {
        informative_name: name.to_string(),
        wait_afterwards_secs,
        repeat_times,
        typespecific: ActionTypeSpec::RunScript { path_to_script: format!("/opt/{}.sh", name) },
    }
}

fn site(retries_before_actions: u16, actions: Vec<Action>) -> Target {
    Target {
        informative_name: "site".to_string(),
        watch_url: "https://site.example/".to_string(),
        timeout_secs: 15,
        retries_before_actions,
        wait_between_tries_secs: 3,
        recipients: vec!["ops@example.org".to_string()],
        actions,
    }
}

fn fail(code: u16) -> Result<ServerStatus, String> {
    Ok(ServerStatus::answered(code))
}

fn healthy() -> Result<ServerStatus, String> {
    Ok(ServerStatus::answered(200))
}

fn probe_of(target: &Target) -> Request {
    Request::Probe { url: target.watch_url.clone(), timeout_secs: target.timeout_secs }
}

fn pause_of(target: &Target) -> Request {
    Request::Wait { secs: target.wait_between_tries_secs }
}

fn run_of(target: &Target, action: usize) -> Request {
    Request::Run { action, mechanism: target.actions[action].typespecific.clone() }
}

fn settle_of(target: &Target, action: usize) -> Request {
    Request::Wait { secs: target.actions[action].wait_afterwards_secs }
}

/// Drives one cycle to its end. Probes are answered from `probes`, one after
/// the other; every run of step `n` gives the output `out-n`.
fn cycle(
    target: &Target,
    known_up: bool,
    probes: Vec<Result<ServerStatus, String>>,
) -> (Escalation, Vec<Request>) {
    let mut run = Escalation::start(target, known_up);
    let mut probes = probes.into_iter();
    let mut log = Vec::new();
    while let Some(request) = run.request(target) {
        let event = match &request {
            Request::Probe { .. } => {
                Event::Probed(probes.next().expect("the cycle asked for more probes than given"))
            },
            Request::Wait { .. } => Event::Completed,
            Request::Notify { .. } => Event::Completed,
            Request::Run { action, .. } => Event::ActionRan(Ok(format!("out-{}", action))),
        };
        log.push(request);
        run.advance(target, event);
        assert!(log.len() < 1_000_000);
    }
    assert!(probes.next().is_none(), "the cycle left probe answers unused");
    (run, log)
}

fn notices(log: &[Request]) -> Vec<Notice> {
    log.iter()
        .filter_map(|request| match request {
            Request::Notify { notice, .. } => Some(*notice),
            _ => None,
        })
        .collect()
}

fn runs(log: &[Request]) -> Vec<usize> {
    log.iter()
        .filter_map(|request| match request {
            Request::Run { action, .. } => Some(*action),
            _ => None,
        })
        .collect()
}

#[test]
fn healthy_target_is_probed_once_and_left_alone() {
    let target = site(2, vec![step("restart", 2, 5)]);
    let (run, log) = cycle(&target, true, vec![healthy()]);
    assert_eq!(log, vec![probe_of(&target)]);
    assert!(run.is_finished());
    assert!(run.is_up());
    assert_eq!(run.status(), &ServerStatus::answered(200));
}

#[test]
fn retry_short_circuit() {
    let target = site(2, vec![step("restart", 2, 5)]);
    assert_eq!(target.tries(), 3);
    let (run, log) = cycle(&target, true, vec![fail(500), fail(503), healthy()]);
    assert!(run.is_finished());
    assert!(run.is_up());
    assert_eq!(
        log,
        vec![
            probe_of(&target),
            pause_of(&target),
            probe_of(&target),
            pause_of(&target),
            probe_of(&target),
        ]
    );
    assert_eq!(runs(&log), Vec::<usize>::new());
    assert_eq!(notices(&log), Vec::<Notice>::new());
}

#[test]
fn retry_exhaustion_reports_the_last_attempt() {
    let target = site(2, Vec::new());
    let third = ServerStatus {
        status_code: 503,
        overall_ok: false,
        exec_error_msg: "upstream gone".to_string(),
    };
    let (run, log) = cycle(
        &target,
        false,
        vec![fail(500), Err("dns error".to_string()), Ok(third.clone())],
    );
    assert!(run.is_finished());
    assert!(!run.is_up());
    assert_eq!(run.status(), &third);
    // The wait between tries follows every failed attempt, the last one too.
    assert_eq!(
        log,
        vec![
            probe_of(&target),
            pause_of(&target),
            probe_of(&target),
            pause_of(&target),
            probe_of(&target),
            pause_of(&target),
        ]
    );
}

#[test]
fn retry_exhaustion_reports_the_last_error_text() {
    let target = site(2, Vec::new());
    let (run, _) = cycle(
        &target,
        false,
        vec![fail(404), Err("first".to_string()), Err("connection refused".to_string())],
    );
    assert_eq!(
        run.status(),
        &ServerStatus {
            status_code: 0,
            overall_ok: false,
            exec_error_msg: "Exception occured: connection refused".to_string(),
        }
    );
}

#[test]
fn escalation_order_and_recovery_on_second_repetition() {
    let target = site(0, vec![step("a", 2, 5), step("b", 3, 7)]);
    // baseline, after a, after a, after b, after b
    let probes = vec![fail(500), fail(500), fail(501), fail(502), healthy()];
    let (run, log) = cycle(&target, false, probes);
    assert!(run.is_finished());
    assert!(run.is_up());
    assert_eq!(runs(&log), vec![0, 0, 1, 1]);
    assert_eq!(notices(&log), vec![Notice::UpAgain]);
    assert_eq!(
        log,
        vec![
            probe_of(&target),
            pause_of(&target),
            run_of(&target, 0),
            settle_of(&target, 0),
            probe_of(&target),
            pause_of(&target),
            run_of(&target, 0),
            settle_of(&target, 0),
            probe_of(&target),
            pause_of(&target),
            run_of(&target, 1),
            settle_of(&target, 1),
            probe_of(&target),
            pause_of(&target),
            run_of(&target, 1),
            settle_of(&target, 1),
            probe_of(&target),
            Request::Notify {
                notice: Notice::UpAgain,
                message: make_message_target_up_again(&target),
                recipients: build_mail_recipients(&target.recipients),
            },
        ]
    );
}

#[test]
fn recovery_of_a_target_believed_up_is_not_reported() {
    let target = site(0, vec![step("a", 2, 5), step("b", 3, 7)]);
    let probes = vec![fail(500), fail(500), fail(501), fail(502), healthy()];
    let (run, log) = cycle(&target, true, probes);
    assert!(run.is_up());
    assert_eq!(runs(&log), vec![0, 0, 1, 1]);
    assert_eq!(
        notices(&log),
        vec![Notice::WillTakeAction { action: 0 }, Notice::WillTakeAction { action: 1 }]
    );
    let first = make_message_will_take_action(&target, 0, &ServerStatus::answered(500), &None);
    let second = make_message_will_take_action(
        &target,
        1,
        &ServerStatus::answered(501),
        &Some("script output: out-0".to_string()),
    );
    let sent: Vec<_> = log
        .iter()
        .filter_map(|request| match request {
            Request::Notify { message, recipients, .. } => Some((message.clone(), recipients.clone())),
            _ => None,
        })
        .collect();
    let to = build_mail_recipients(&target.recipients);
    assert_eq!(sent, vec![(first, to.clone()), (second, to)]);
    assert_eq!(run.last_action_output(), &Some("script output: out-1".to_string()));
}

#[test]
fn lasting_outage_of_a_target_believed_up_is_reported_once() {
    let target = site(1, vec![step("a", 2, 5), step("b", 1, 7)]);
    // 2 tries per round; rounds: baseline, a, a, b
    let probes = vec![
        fail(500),
        fail(500),
        fail(500),
        fail(500),
        fail(500),
        fail(500),
        fail(500),
        Err("timeout".to_string()),
    ];
    let (run, log) = cycle(&target, true, probes);
    assert!(run.is_finished());
    assert!(!run.is_up());
    assert_eq!(runs(&log), vec![0, 0, 1]);
    assert_eq!(
        notices(&log),
        vec![
            Notice::WillTakeAction { action: 0 },
            Notice::WillTakeAction { action: 1 },
            Notice::ActionsExhausted,
        ]
    );
    let last = ServerStatus::unreachable("timeout");
    assert_eq!(run.status(), &last);
    assert_eq!(
        log.last(),
        Some(&Request::Notify {
            notice: Notice::ActionsExhausted,
            message: make_message_actions_exhausted(&target, &last),
            recipients: build_mail_recipients(&target.recipients),
        })
    );
}

#[test]
fn lasting_outage_of_a_target_known_down_is_silent() {
    let target = site(0, vec![step("a", 2, 5), step("b", 1, 7)]);
    let (run, log) = cycle(&target, false, vec![fail(500), fail(500), fail(500), fail(500)]);
    assert!(run.is_finished());
    assert!(!run.is_up());
    assert_eq!(runs(&log), vec![0, 0, 1]);
    assert_eq!(notices(&log), Vec::<Notice>::new());
}

#[test]
fn target_without_plan_is_exhausted_at_once() {
    let target = site(0, Vec::new());
    let (run, log) = cycle(&target, true, vec![fail(500)]);
    assert!(!run.is_up());
    assert_eq!(notices(&log), vec![Notice::ActionsExhausted]);
    let (run, log) = cycle(&target, false, vec![fail(500)]);
    assert!(!run.is_up());
    assert_eq!(notices(&log), Vec::<Notice>::new());
}

#[test]
fn step_without_repetitions_is_announced_but_not_run() {
    let target = site(0, vec![step("never", 0, 5), step("once", 1, 7), step("nor", 0, 9)]);
    let (run, log) = cycle(&target, true, vec![fail(500), fail(500)]);
    assert!(!run.is_up());
    assert_eq!(runs(&log), vec![1]);
    assert_eq!(
        notices(&log),
        vec![
            Notice::WillTakeAction { action: 0 },
            Notice::WillTakeAction { action: 1 },
            Notice::WillTakeAction { action: 2 },
            Notice::ActionsExhausted,
        ]
    );
    let (_, log) = cycle(&target, false, vec![fail(500), fail(500)]);
    assert_eq!(runs(&log), vec![1]);
    assert_eq!(notices(&log), Vec::<Notice>::new());
}

#[test]
fn recheck_uses_the_whole_try_budget() {
    let target = site(2, vec![step("a", 1, 5)]);
    let probes = vec![fail(500), fail(500), fail(500), fail(500), fail(500), healthy()];
    let (run, log) = cycle(&target, false, probes);
    assert!(run.is_up());
    assert_eq!(
        log,
        vec![
            probe_of(&target),
            pause_of(&target),
            probe_of(&target),
            pause_of(&target),
            probe_of(&target),
            pause_of(&target),
            run_of(&target, 0),
            settle_of(&target, 0),
            probe_of(&target),
            pause_of(&target),
            probe_of(&target),
            pause_of(&target),
            probe_of(&target),
            Request::Notify {
                notice: Notice::UpAgain,
                message: make_message_target_up_again(&target),
                recipients: build_mail_recipients(&target.recipients),
            },
        ]
    );
}

#[test]
fn failed_action_is_reported_and_does_not_stop_the_escalation() {
    let target = site(0, vec![step("a", 1, 5), step("b", 1, 7)]);
    let mut run = Escalation::start(&target, true);
    run.advance(&target, Event::Probed(fail(500)));
    run.advance(&target, Event::Completed);
    assert_eq!(run.stage(), Stage::Announcing { action: 0 });
    run.advance(&target, Event::Completed);
    assert_eq!(run.stage(), Stage::Acting { action: 0, repeat: 0 });
    run.advance(&target, Event::ActionRan(Err("permission denied".to_string())));
    assert_eq!(run.stage(), Stage::Settling { action: 0, repeat: 0 });
    assert_eq!(
        run.last_action_output(),
        &Some("error when running script: permission denied".to_string())
    );
    run.advance(&target, Event::Completed);
    assert_eq!(
        run.stage(),
        Stage::Probing { round: Round::Recheck { action: 0, repeat: 0 }, attempt: 0 }
    );
    run.advance(&target, Event::Probed(fail(502)));
    run.advance(&target, Event::Completed);
    assert_eq!(run.stage(), Stage::Announcing { action: 1 });
    match run.request(&target) {
        Some(Request::Notify { notice, message, .. }) => {
            assert_eq!(notice, Notice::WillTakeAction { action: 1 });
            assert!(message.body.contains(
                "(status code = 502). \nexecution of previous action gave output: error when running script: permission denied\n\n server-health will now start action action 2 from 2 total"
            ));
        },
        other => panic!("an announcement was due, not {:?}", other),
    }
}

#[test]
fn event_that_answers_nothing_changes_nothing() {
    let target = site(1, vec![step("a", 1, 5)]);
    let mut run = Escalation::start(&target, true);
    assert!(run.known_up());
    run.advance(&target, Event::Completed);
    run.advance(&target, Event::ActionRan(Ok("stray".to_string())));
    assert_eq!(run.stage(), Stage::Probing { round: Round::Baseline, attempt: 0 });
    assert_eq!(run.status(), &ServerStatus::unknown());
    assert_eq!(run.last_action_output(), &None);
    run.advance(&target, Event::Probed(fail(500)));
    assert_eq!(run.stage(), Stage::Pausing { round: Round::Baseline, attempt: 0 });
    run.advance(&target, Event::Probed(healthy()));
    assert_eq!(run.stage(), Stage::Pausing { round: Round::Baseline, attempt: 0 });
    assert_eq!(run.status(), &ServerStatus::answered(500));
    run.advance(&target, Event::Completed);
    assert_eq!(run.stage(), Stage::Probing { round: Round::Baseline, attempt: 1 });
}

#[test]
fn finished_escalation_asks_for_nothing_more() {
    let target = site(0, Vec::new());
    let (mut run, _) = cycle(&target, true, vec![healthy()]);
    assert_eq!(run.request(&target), None);
    run.advance(&target, Event::Probed(fail(500)));
    run.advance(&target, Event::Completed);
    assert!(run.is_finished());
    assert!(run.is_up());
}

#[test]
fn largest_retry_count_is_honoured() {
    let target = site(u16::MAX, Vec::new());
    let mut probes = vec![fail(500); 65535];
    probes.push(Err("last".to_string()));
    let (run, log) = cycle(&target, false, probes);
    assert_eq!(log.len(), 2 * 65536);
    assert_eq!(run.status(), &ServerStatus::unreachable("last"));
}

#[test]
fn cycle_takes_no_more_requests_than_its_parts_allow() {
    let target = site(2, vec![step("a", 2, 5), step("never", 0, 1), step("b", 3, 7)]);
    let tries = 3;
    // the baseline round, then for each step its announcement and its
    // repetitions, each with a run, a wait and a round, then the closing notice
    let allowed = 2 * tries + (1 + 2 * (2 * tries + 2)) + 1 + (1 + 3 * (2 * tries + 2)) + 1;
    let rounds = 1 + 2 + 3;
    let (_, log) = cycle(&target, true, vec![fail(500); rounds * tries]);
    assert_eq!(log.len(), allowed);
    let (_, log) = cycle(&target, false, vec![fail(500); rounds * tries]);
    assert_eq!(log.len(), allowed - 4);
    let (_, log) = cycle(&target, false, vec![healthy()]);
    assert_eq!(log.len(), 2);
}

#[test]
fn exhausted_notification_carries_the_last_probe_error() {
    let target = site(1, vec![step("a", 1, 5)]);
    let probes = vec![
        fail(500),
        Err("early".to_string()),
        Err("middle".to_string()),
        Err("connection refused".to_string()),
    ];
    let (run, log) = cycle(&target, true, probes);
    assert!(!run.is_up());
    match log.last() {
        Some(Request::Notify { notice, message, .. }) => {
            assert_eq!(*notice, Notice::ActionsExhausted);
            assert!(message.body.contains("(status code = 0). "));
            assert!(message
                .body
                .ends_with("\nThe last health check failed with: Exception occured: connection refused"));
            assert!(!message.body.contains("early"));
            assert!(!message.body.contains("middle"));
        },
        other => panic!("the exhausted notification was due, not {:?}", other),
    }
}
