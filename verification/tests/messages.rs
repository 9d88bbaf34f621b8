use server_health::config::{Action, ActionTypeSpec, Target};
use server_health::messages::{
    build_mail_recipients, make_message_actions_exhausted, make_message_config_rejected,
    make_message_target_up_again, make_message_will_take_action,
};
use server_health::status::ServerStatus;

fn shop_step(name: &str, repeat_times: u16) -> Action {
    Action {
        informative_name: name.to_string(),
        wait_afterwards_secs: 5,
        repeat_times,
        typespecific: ActionTypeSpec::RunScript { path_to_script: format!("/opt/{}.sh", name) },
    }
}

fn shop() -> Target {
    Target {
        informative_name: "shop".to_string(),
        watch_url: "https://shop.example/health".to_string(),
        timeout_secs: 15,
        retries_before_actions: 2,
        wait_between_tries_secs: 3,
        recipients: vec!["ops@example.org".to_string(), "dev@example.org".to_string()],
        actions: vec![shop_step("restart", 2), shop_step("reboot", 1)],
    }
}

fn down(status_code: u16) -> ServerStatus {
    ServerStatus { status_code, overall_ok: false, exec_error_msg: String::new() }
}

const ESCALATION_TAIL: &str = " total defined reactions to the outage. You don't have to do anything at this point. server-health will report back after the action's success or failure has been determined. When all actions have been exhausted without success, you will receive a final note.";

#[test]
fn up_again_message_names_target_and_url() {
    let message = make_message_target_up_again(&shop());
    assert_eq!(message.body, "server at https://shop.example/health is healthy again.");
    assert_eq!(
        message.subject,
        "🌐 💚 🛫 server health report: server shop is up and running again"
    );
}

#[test]
fn exhausted_message_carries_the_status_code() {
    let message = make_message_actions_exhausted(&shop(), &down(503));
    assert_eq!(
        message.subject,
        "🌐 ⚠️  ⛔️ server-health STATUS DOWN report for shop. ACTION REQUIRED FROM YOU."
    );
    assert_eq!(
        message.body,
        "server-health's health check found server status of target https://shop.example/health not OK (status code = 503). This is the final note informing you that all defined actions have been carried out and the server status is still not healthy."
    );
}

#[test]
fn will_take_action_message_without_previous_output() {
    let message = make_message_will_take_action(&shop(), 0, &down(0), &None);
    assert_eq!(
        message.subject,
        "🌐 ⚠️ ⏲️ 🔄 server-health problem report for shop. No action required from you by now."
    );
    assert_eq!(
        message.body,
        format!(
            "server-health's health check found server status of target https://shop.example/health not OK (status code = 0). \n server-health will now start action action 1 from 2{}",
            ESCALATION_TAIL
        )
    );
}

#[test]
fn will_take_action_message_quotes_previous_output() {
    let last = Some("script output: restarted\n".to_string());
    let message = make_message_will_take_action(&shop(), 1, &down(502), &last);
    assert_eq!(
        message.body,
        format!(
            "server-health's health check found server status of target https://shop.example/health not OK (status code = 502). \nexecution of previous action gave output: script output: restarted\n\n\n server-health will now start action action 2 from 2{}",
            ESCALATION_TAIL
        )
    );
}

#[test]
fn will_take_action_message_passes_over_empty_output() {
    let with_empty = make_message_will_take_action(&shop(), 0, &down(500), &Some(String::new()));
    let without = make_message_will_take_action(&shop(), 0, &down(500), &None);
    assert_eq!(with_empty, without);
}

#[test]
fn will_take_action_message_counts_steps_from_one() {
    let mut target = shop();
    target.actions = (0..12).map(|i| shop_step(&format!("s{}", i), 1)).collect();
    let message = make_message_will_take_action(&target, 9, &down(65535), &None);
    assert!(message.body.contains("(status code = 65535). "));
    assert!(message.body.contains("will now start action action 10 from 12 total defined"));
}

#[test]
fn will_take_action_message_takes_any_step_number() {
    let message = make_message_will_take_action(&shop(), usize::MAX, &down(404), &None);
    let number = (usize::MAX as u128 + 1).to_string();
    assert!(message.body.contains(&format!("action action {} from 2 total", number)));
}

#[test]
fn config_alert_names_file_and_reason() {
    let message =
        make_message_config_rejected("/etc/watch.json", "expected value at line 1 column 1");
    assert_eq!(message.subject, "server health failed to parse config file");
    assert_eq!(
        message.body,
        "server health failed to parse config file /etc/watch.json due to error: expected value at line 1 column 1"
    );
}

#[test]
fn recipients_pair_each_address_with_itself() {
    let pairs = build_mail_recipients(&vec!["a@x.org".to_string(), "b@y.org".to_string()]);
    assert_eq!(
        pairs,
        vec![
            ("a@x.org".to_string(), "a@x.org".to_string()),
            ("b@y.org".to_string(), "b@y.org".to_string()),
        ]
    );
    assert_eq!(build_mail_recipients(&Vec::new()), Vec::<(String, String)>::new());
}

#[test]
fn recipients_are_reachable_from_the_crate_root() {
    let pairs = server_health::build_mail_recipients(&vec!["x@y.z".to_string()]);
    assert_eq!(pairs, vec![("x@y.z".to_string(), "x@y.z".to_string())]);
}

#[test]
fn html_body_wraps_the_text_in_a_paragraph() {
    let message = make_message_target_up_again(&shop());
    assert_eq!(
        message.html_body(),
        "<p>server at https://shop.example/health is healthy again.</p>"
    );
}

#[test]
fn message_copy_is_equal() {
    let message = make_message_actions_exhausted(&shop(), &down(500));
    assert_eq!(message.clone(), message);
}

#[test]
fn exhausted_message_keeps_the_probe_error_text() {
    let status = ServerStatus {
        status_code: 0,
        overall_ok: false,
        exec_error_msg: "Exception occured: timeout".to_string(),
    };
    let message = make_message_actions_exhausted(&shop(), &status);
    assert_eq!(
        message.body,
        "server-health's health check found server status of target https://shop.example/health not OK (status code = 0). This is the final note informing you that all defined actions have been carried out and the server status is still not healthy.\nThe last health check failed with: Exception occured: timeout"
    );
    assert!(message.body.contains("Exception occured: timeout"));
    assert_ne!(message, make_message_actions_exhausted(&shop(), &down(0)));
    assert_eq!(message.subject, make_message_actions_exhausted(&shop(), &down(0)).subject);
}

#[test]
fn exhausted_message_of_a_failed_probe_names_its_cause() {
    let message =
        make_message_actions_exhausted(&shop(), &ServerStatus::unreachable("dns error"));
    assert!(message.body.ends_with(
        "still not healthy.\nThe last health check failed with: Exception occured: dns error"
    ));
}

#[test]
fn exhausted_message_without_error_text_ends_with_its_closing_sentence() {
    let message = make_message_actions_exhausted(&shop(), &down(500));
    assert!(message.body.ends_with("the server status is still not healthy."));
}
