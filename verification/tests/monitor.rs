use server_health::config::{Action, ActionTypeSpec, SendMailConfig, ServerHealthConfig, Target};
use server_health::messages::{
    build_mail_recipients, make_message_actions_exhausted, make_message_config_rejected,
    make_message_target_up_again,
};
use server_health::monitor::Monitor;
use server_health::protocol::{Command, Event};
use server_health::status::ServerStatus;

const PATH: &str = "/etc/server-health.json";

fn transport() -> SendMailConfig {
    SendMailConfig {
        mail_address: "watchdog@example.org".to_string(),
        user_name: "watchdog".to_string(),
        smtp_url: "smtp.example.org".to_string(),
        password: "not-a-real-one".to_string(),
        port: 465,
    }
}

fn restart(name: &str) -> Action {
    Action {
        informative_name: format!("restart {}", name),
        wait_afterwards_secs: 20,
        repeat_times: 1,
        typespecific: ActionTypeSpec::RunScript { path_to_script: format!("/opt/restart-{}.sh", name) },
    }
}

fn host(name: &str) -> Target {
    Target {
        informative_name: name.to_string(),
        watch_url: format!("https://{}.example/", name),
        timeout_secs: 10,
        retries_before_actions: 0,
        wait_between_tries_secs: 2,
        recipients: vec![format!("{}-owner@example.org", name)],
        actions: vec![restart(name)],
    }
}

fn config_of(names: &[&str], interval: u64) -> ServerHealthConfig {
    ServerHealthConfig {
        send_mail: transport(),
        watch_intervall_secs: interval,
        admin_recipients: vec!["root@example.org".to_string()],
        targets: names.iter().map(|name| host(name)).collect(),
    }
}

fn url_of(name: &str) -> String {
    format!("https://{}.example/", name)
}

/// Drives the monitor through the cycles for which `loads` holds an outcome
/// of reading the configuration file. `health` says, for a cycle (counted
/// from 1) and a probed address, whether the target answers healthy. Gives
/// the commands of each cycle.
fn drive(
    monitor: &mut Monitor,
    loads: Vec<Result<ServerHealthConfig, String>>,
    health: &dyn Fn(usize, &str) -> bool,
) -> Vec<Vec<Command>> {
    let mut loads = loads.into_iter();
    let mut cycles: Vec<Vec<Command>> = Vec::new();
    loop {
        let command = monitor.command();
        let event = match &command {
            Command::LoadConfig { path } => {
                assert_eq!(path, PATH);
                match loads.next() {
                    Some(outcome) => {
                        cycles.push(Vec::new());
                        Event::ConfigRead(outcome)
                    },
                    None => return cycles,
                }
            },
            Command::Probe { url, .. } => {
                if health(cycles.len(), url) {
                    Event::Probed(Ok(ServerStatus::answered(200)))
                } else {
                    Event::Probed(Ok(ServerStatus::answered(503)))
                }
            },
            Command::Wait { .. } => Event::Completed,
            Command::SendMail { .. } => Event::Completed,
            Command::RunAction { .. } => Event::ActionRan(Ok("done".to_string())),
            Command::Halt => {
                cycles.last_mut().unwrap().push(command);
                return cycles;
            },
        };
        cycles.last_mut().unwrap().push(command);
        monitor.advance(event);
        assert!(cycles.iter().map(|c| c.len()).sum::<usize>() < 100_000);
    }
}

fn mails(cycle: &[Command]) -> Vec<&Command> {
    cycle.iter().filter(|command| matches!(command, Command::SendMail { .. })).collect()
}

fn probed(cycle: &[Command]) -> Vec<String> {
    cycle
        .iter()
        .filter_map(|command| match command {
            Command::Probe { url, .. } => Some(url.clone()),
            _ => None,
        })
        .collect()
}

fn subjects(cycle: &[Command]) -> Vec<String> {
    cycle
        .iter()
        .filter_map(|command| match command {
            Command::SendMail { message, .. } => Some(message.subject.clone()),
            _ => None,
        })
        .collect()
}

#[test]
fn healthy_targets_are_never_notified_nor_counted_down() {
    let mut monitor = Monitor::new(PATH.to_string());
    let loads = (0..5).map(|_| Ok(config_of(&["a", "b", "c"], 60))).collect();
    let cycles = drive(&mut monitor, loads, &|_, _| true);
    assert_eq!(cycles.len(), 5);
    for cycle in &cycles {
        assert_eq!(
            cycle,
            &vec![
                Command::LoadConfig { path: PATH.to_string() },
                Command::Probe { url: url_of("a"), timeout_secs: 10 },
                Command::Probe { url: url_of("b"), timeout_secs: 10 },
                Command::Probe { url: url_of("c"), timeout_secs: 10 },
                Command::Wait { secs: 60 },
            ]
        );
    }
    for target in 0..3 {
        assert!(monitor.target_known_up(target));
    }
}

#[test]
fn config_reload_resilience() {
    let mut monitor = Monitor::new(PATH.to_string());
    let good = config_of(&["a", "b"], 30);
    let loads = vec![
        Ok(good.clone()),
        Err("expected value at line 1 column 1".to_string()),
        Ok(good.clone()),
    ];
    // b is down throughout, a is healthy throughout.
    let cycles = drive(&mut monitor, loads, &|_, url| url == url_of("a"));
    assert_eq!(cycles.len(), 3);

    // Cycle 1: b is escalated and reported.
    assert_eq!(probed(&cycles[0]), vec![url_of("a"), url_of("b"), url_of("b")]);
    assert_eq!(mails(&cycles[0]).len(), 2);
    assert_eq!(
        mails(&cycles[0])[1],
        &Command::SendMail {
            transport: transport(),
            message: make_message_actions_exhausted(&host("b"), &ServerStatus::answered(503)),
            recipients: build_mail_recipients(&host("b").recipients),
        }
    );

    // Cycle 2: one alert to the administrators, no target is touched, the
    // poll interval of the configuration held passes.
    assert_eq!(
        cycles[1],
        vec![
            Command::LoadConfig { path: PATH.to_string() },
            Command::SendMail {
                transport: transport(),
                message: make_message_config_rejected(PATH, "expected value at line 1 column 1"),
                recipients: build_mail_recipients(&good.admin_recipients),
            },
            Command::Wait { secs: 30 },
        ]
    );

    // Cycle 3: processing resumes; b is still known to be down, so it is
    // escalated without a word.
    assert_eq!(probed(&cycles[2]), vec![url_of("a"), url_of("b"), url_of("b")]);
    assert_eq!(
        cycles[2].iter().filter(|c| matches!(c, Command::RunAction { .. })).count(),
        1
    );
    assert_eq!(mails(&cycles[2]).len(), 0);
    assert!(monitor.target_known_up(0));
    assert!(!monitor.target_known_up(1));
    assert_eq!(monitor.config(), Some(&good));
    assert!(!monitor.is_halted());
}

#[test]
fn rejected_config_leaves_the_beliefs_alone() {
    let mut monitor = Monitor::new(PATH.to_string());
    let good = config_of(&["a", "b"], 30);
    drive(&mut monitor, vec![Ok(good.clone())], &|_, url| url == url_of("a"));
    assert!(!monitor.target_known_up(1));
    drive(&mut monitor, vec![Err("eof".to_string()), Err("eof".to_string())], &|_, _| true);
    assert!(monitor.target_known_up(0));
    assert!(!monitor.target_known_up(1));
    assert_eq!(monitor.config(), Some(&good));
}

#[test]
fn first_config_must_load() {
    let mut monitor = Monitor::new(PATH.to_string());
    assert_eq!(monitor.config(), None);
    let cycles = drive(&mut monitor, vec![Err("no such file".to_string())], &|_, _| true);
    assert_eq!(
        cycles,
        vec![vec![Command::LoadConfig { path: PATH.to_string() }, Command::Halt]]
    );
    assert!(monitor.is_halted());
    monitor.advance(Event::ConfigRead(Ok(config_of(&["a"], 5))));
    monitor.advance(Event::Completed);
    assert!(monitor.is_halted());
    assert_eq!(monitor.command(), Command::Halt);
    assert_eq!(monitor.config(), None);
}

#[test]
fn recovery_is_reported_once_until_the_next_outage() {
    let mut monitor = Monitor::new(PATH.to_string());
    let loads = (0..6).map(|_| Ok(config_of(&["a"], 60))).collect();
    // down in cycles 1 and 5, healthy in 2, 3, 4 and 6
    let cycles = drive(&mut monitor, loads, &|cycle, _| cycle != 1 && cycle != 5);
    let recovered = make_message_target_up_again(&host("a")).subject;
    let exhausted =
        make_message_actions_exhausted(&host("a"), &ServerStatus::answered(503)).subject;
    assert_eq!(subjects(&cycles[0]).last(), Some(&exhausted));
    assert_eq!(subjects(&cycles[1]), vec![recovered.clone()]);
    assert_eq!(subjects(&cycles[2]), Vec::<String>::new());
    assert_eq!(subjects(&cycles[3]), Vec::<String>::new());
    assert_eq!(subjects(&cycles[4]).last(), Some(&exhausted));
    assert_eq!(subjects(&cycles[4]).len(), 2);
    assert_eq!(subjects(&cycles[5]), vec![recovered]);
    assert!(monitor.target_known_up(0));
}

#[test]
fn lasting_outage_is_reported_in_its_first_cycle_only() {
    let mut monitor = Monitor::new(PATH.to_string());
    let loads = (0..4).map(|_| Ok(config_of(&["a"], 60))).collect();
    let cycles = drive(&mut monitor, loads, &|_, _| false);
    let exhausted =
        make_message_actions_exhausted(&host("a"), &ServerStatus::answered(503)).subject;
    assert_eq!(subjects(&cycles[0]).iter().filter(|s| **s == exhausted).count(), 1);
    for cycle in &cycles[1..] {
        assert_eq!(subjects(cycle), Vec::<String>::new());
        assert_eq!(cycle.iter().filter(|c| matches!(c, Command::RunAction { .. })).count(), 1);
    }
    assert!(!monitor.target_known_up(0));
}

#[test]
fn targets_are_escalated_in_configured_order() {
    let mut monitor = Monitor::new(PATH.to_string());
    let cycles = drive(&mut monitor, vec![Ok(config_of(&["x", "y", "z"], 9))], &|_, url| {
        url == url_of("y")
    });
    let x = host("x");
    let z = host("z");
    let expected = vec![
        Command::LoadConfig { path: PATH.to_string() },
        Command::Probe { url: url_of("x"), timeout_secs: 10 },
        Command::Wait { secs: 2 },
        mails(&cycles[0])[0].clone(),
        Command::RunAction { mechanism: x.actions[0].typespecific.clone() },
        Command::Wait { secs: 20 },
        Command::Probe { url: url_of("x"), timeout_secs: 10 },
        Command::Wait { secs: 2 },
        Command::SendMail {
            transport: transport(),
            message: make_message_actions_exhausted(&x, &ServerStatus::answered(503)),
            recipients: build_mail_recipients(&x.recipients),
        },
        Command::Probe { url: url_of("y"), timeout_secs: 10 },
        Command::Probe { url: url_of("z"), timeout_secs: 10 },
        Command::Wait { secs: 2 },
        mails(&cycles[0])[2].clone(),
        Command::RunAction { mechanism: z.actions[0].typespecific.clone() },
        Command::Wait { secs: 20 },
        Command::Probe { url: url_of("z"), timeout_secs: 10 },
        Command::Wait { secs: 2 },
        Command::SendMail {
            transport: transport(),
            message: make_message_actions_exhausted(&z, &ServerStatus::answered(503)),
            recipients: build_mail_recipients(&z.recipients),
        },
        Command::Wait { secs: 9 },
    ];
    assert_eq!(cycles[0], expected);
    assert!(!monitor.target_known_up(0));
    assert!(monitor.target_known_up(1));
    assert!(!monitor.target_known_up(2));
}

#[test]
fn reloaded_config_takes_effect_in_its_own_cycle() {
    let mut monitor = Monitor::new(PATH.to_string());
    let loads = vec![Ok(config_of(&["a"], 60)), Ok(config_of(&["b", "c"], 5)), Ok(config_of(&[], 7))];
    let cycles = drive(&mut monitor, loads, &|_, _| true);
    assert_eq!(probed(&cycles[0]), vec![url_of("a")]);
    assert_eq!(cycles[0].last(), Some(&Command::Wait { secs: 60 }));
    assert_eq!(probed(&cycles[1]), vec![url_of("b"), url_of("c")]);
    assert_eq!(cycles[1].last(), Some(&Command::Wait { secs: 5 }));
    assert_eq!(
        cycles[2],
        vec![Command::LoadConfig { path: PATH.to_string() }, Command::Wait { secs: 7 }]
    );
}

#[test]
fn beliefs_go_by_place_in_the_configuration() {
    let mut monitor = Monitor::new(PATH.to_string());
    // Cycle 1: the target in place 0 is down. Cycle 2: another target has
    // taken place 0 and is healthy; it inherits the belief and is reported
    // as up again.
    let loads = vec![Ok(config_of(&["a", "b"], 60)), Ok(config_of(&["b", "a"], 60))];
    let cycles = drive(&mut monitor, loads, &|_, url| url == url_of("b"));
    assert_eq!(
        subjects(&cycles[1])[0],
        make_message_target_up_again(&host("b")).subject
    );
    assert!(monitor.target_known_up(0));
    assert!(!monitor.target_known_up(1));
}

#[test]
fn monitor_ignores_events_that_answer_nothing() {
    let mut monitor = Monitor::new(PATH.to_string());
    monitor.advance(Event::Completed);
    monitor.advance(Event::Probed(Ok(ServerStatus::answered(200))));
    assert_eq!(monitor.command(), Command::LoadConfig { path: PATH.to_string() });
    monitor.advance(Event::ConfigRead(Ok(config_of(&["a"], 60))));
    monitor.advance(Event::ConfigRead(Ok(config_of(&["b"], 1))));
    monitor.advance(Event::Completed);
    assert_eq!(monitor.command(), Command::Probe { url: url_of("a"), timeout_secs: 10 });
    monitor.advance(Event::Probed(Ok(ServerStatus::answered(200))));
    assert_eq!(monitor.command(), Command::Wait { secs: 60 });
    monitor.advance(Event::ActionRan(Ok(String::new())));
    assert_eq!(monitor.command(), Command::Wait { secs: 60 });
    monitor.advance(Event::Completed);
    assert_eq!(monitor.command(), Command::LoadConfig { path: PATH.to_string() });
}

#[test]
fn configuration_copy_is_equal() {
    let config = config_of(&["a", "b"], 60);
    assert_eq!(config.clone(), config);
    assert_eq!(config.targets[1].clone(), host("b"));
    assert_eq!(config.targets[0].actions[0].clone(), restart("a"));
}
