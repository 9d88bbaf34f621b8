//! The notifications of the watchdog, rendered from target and status data.

use vstd::prelude::*;
use crate::config::{Target, TargetView, texts};
use crate::status::{ServerStatus, ServerStatusView};
use crate::text::{decimal, push_decimal};

verus! {

/// One notification, ready for the mailer.
#[derive(Debug, PartialEq, Eq)]
pub struct MailMessage {
    pub body: String,
    pub subject: String,
}

pub struct MailMessageView {
    pub body: Seq<char>,
    pub subject: Seq<char>,
}

impl View for MailMessage {
    type V = MailMessageView;

    open spec fn view(&self) -> MailMessageView {
        MailMessageView { body: self.body@, subject: self.subject@ }
    }
}

pub const ESCALATION_SUBJECT_LEAD: &'static str =
    "\u{1f310} \u{26a0}\u{fe0f} \u{23f2}\u{fe0f} \u{1f504} server-health problem report for ";

pub const ESCALATION_SUBJECT_TAIL: &'static str = ". No action required from you by now.";

pub const DOWN_BODY_LEAD: &'static str =
    "server-health's health check found server status of target ";

pub const DOWN_BODY_CODE: &'static str = " not OK (status code = ";

pub const ESCALATION_BODY_AFTER_CODE: &'static str = "). ";

pub const ESCALATION_BODY_ACTION: &'static str = "\n server-health will now start action action ";

pub const ESCALATION_BODY_FROM: &'static str = " from ";

pub const ESCALATION_BODY_TAIL: &'static str =
    " total defined reactions to the outage. You don't have to do anything at this point. server-health will report back after the action's success or failure has been determined. When all actions have been exhausted without success, you will receive a final note.";

pub const PREVIOUS_OUTPUT_LEAD: &'static str = "\nexecution of previous action gave output: ";

pub const PREVIOUS_OUTPUT_TAIL: &'static str = "\n";

pub const EXHAUSTED_SUBJECT_LEAD: &'static str =
    "\u{1f310} \u{26a0}\u{fe0f}  \u{26d4}\u{fe0f} server-health STATUS DOWN report for ";

pub const EXHAUSTED_SUBJECT_TAIL: &'static str = ". ACTION REQUIRED FROM YOU.";

pub const EXHAUSTED_BODY_TAIL: &'static str =
    "). This is the final note informing you that all defined actions have been carried out and the server status is still not healthy.";

pub const PROBE_ERROR_REPORT_LEAD: &'static str = "\nThe last health check failed with: ";

pub const RECOVERED_BODY_LEAD: &'static str = "server at ";

pub const RECOVERED_BODY_TAIL: &'static str = " is healthy again.";

pub const RECOVERED_SUBJECT_LEAD: &'static str =
    "\u{1f310} \u{1f49a} \u{1f6eb} server health report: server ";

pub const RECOVERED_SUBJECT_TAIL: &'static str = " is up and running again";

pub const CONFIG_ALERT_SUBJECT: &'static str = "server health failed to parse config file";

pub const CONFIG_ALERT_BODY_LEAD: &'static str = "server health failed to parse config file ";

pub const CONFIG_ALERT_BODY_CAUSE: &'static str = " due to error: ";

pub const HTML_BODY_LEAD: &'static str = "<p>";

pub const HTML_BODY_TAIL: &'static str = "</p>";

/// What a notification says of the action that ran last: nothing where none
/// ran or it left no output, else the output between a lead and a line break.
pub open spec fn previous_output_report(last_action_output: Option<Seq<char>>) -> Seq<char> {
    match last_action_output {
        Some(output) => if output.len() > 0 {
            PREVIOUS_OUTPUT_LEAD@ + output + PREVIOUS_OUTPUT_TAIL@
        } else {
            Seq::empty()
        },
        None => Seq::empty(),
    }
}

/// The notification that remediation step `action_idx` (counted from 0) of
/// the target's plan is about to start.
pub open spec fn will_take_action_message(
    target: TargetView,
    action_idx: nat,
    status: ServerStatusView,
    last_action_output: Option<Seq<char>>,
) -> MailMessageView {
    MailMessageView {
        subject: ESCALATION_SUBJECT_LEAD@ + target.informative_name + ESCALATION_SUBJECT_TAIL@,
        body: DOWN_BODY_LEAD@ + target.watch_url + DOWN_BODY_CODE@ + decimal(
            status.status_code as nat,
        ) + ESCALATION_BODY_AFTER_CODE@ + previous_output_report(last_action_output)
            + ESCALATION_BODY_ACTION@ + decimal(action_idx + 1) + ESCALATION_BODY_FROM@ + decimal(
            target.actions.len(),
        ) + ESCALATION_BODY_TAIL@,
    }
}

/// What the final notification says of a probe that could not be carried
/// out: nothing where the status holds no error text, else that text behind a
/// lead.
pub open spec fn probe_error_report(exec_error_msg: Seq<char>) -> Seq<char> {
    if exec_error_msg.len() > 0 {
        PROBE_ERROR_REPORT_LEAD@ + exec_error_msg
    } else {
        Seq::empty()
    }
}

/// The notification that every remediation step was tried and the target is
/// still down. It names the status code that was found last and, where the
/// last probe could not be carried out, ends with the text of that error.
pub open spec fn actions_exhausted_message(
    target: TargetView,
    status: ServerStatusView,
) -> MailMessageView {
    MailMessageView {
        subject: EXHAUSTED_SUBJECT_LEAD@ + target.informative_name + EXHAUSTED_SUBJECT_TAIL@,
        body: DOWN_BODY_LEAD@ + target.watch_url + DOWN_BODY_CODE@ + decimal(
            status.status_code as nat,
        ) + EXHAUSTED_BODY_TAIL@ + probe_error_report(status.exec_error_msg),
    }
}

/// The final notification keeps the text of a probe error: where the status
/// holds one, the body ends with it, letter for letter.
pub proof fn law_final_note_ends_with_probe_error(target: TargetView, status: ServerStatusView)
    requires
        status.exec_error_msg.len() > 0,
    ensures
        ({
            let body = actions_exhausted_message(target, status).body;
            &&& body.len() >= status.exec_error_msg.len()
            &&& body.subrange(body.len() - status.exec_error_msg.len(), body.len() as int)
                == status.exec_error_msg
        }),
{
    let body = actions_exhausted_message(target, status).body;
    let text = status.exec_error_msg;
    assert(body.subrange(body.len() - text.len(), body.len() as int) =~= text);
}

/// The notification that a target that was down is healthy again.
pub open spec fn target_up_again_message(target: TargetView) -> MailMessageView {
    MailMessageView {
        subject: RECOVERED_SUBJECT_LEAD@ + target.informative_name + RECOVERED_SUBJECT_TAIL@,
        body: RECOVERED_BODY_LEAD@ + target.watch_url + RECOVERED_BODY_TAIL@,
    }
}

/// The alert that the configuration file at `path` could not be used, with
/// the reason `error`.
pub open spec fn config_alert_message(path: Seq<char>, error: Seq<char>) -> MailMessageView {
    MailMessageView {
        subject: CONFIG_ALERT_SUBJECT@,
        body: CONFIG_ALERT_BODY_LEAD@ + path + CONFIG_ALERT_BODY_CAUSE@ + error,
    }
}

/// Each address of a list as the pair of display name and address that the
/// mailer takes; the address serves as its own display name.
pub open spec fn mail_recipients(addresses: Seq<Seq<char>>) -> Seq<(Seq<char>, Seq<char>)> {
    Seq::new(addresses.len(), |i: int| (addresses[i], addresses[i]))
}

/// The pairs of a recipient list as mathematical values, in order.
pub open spec fn recipient_views(list: Seq<(String, String)>) -> Seq<(Seq<char>, Seq<char>)> {
    Seq::new(list.len(), |i: int| (list[i].0@, list[i].1@))
}

fn previous_output_text(last_action_output: &Option<String>) -> (report: String)
    ensures
        report@ == previous_output_report(last_action_output.deep_view()),
{
    let mut report = String::new();
    match last_action_output {
        Some(output) => {
            if !output.as_str().is_empty() {
                report.append(PREVIOUS_OUTPUT_LEAD);
                report.append(output.as_str());
                report.append(PREVIOUS_OUTPUT_TAIL);
                assert(report@ =~= PREVIOUS_OUTPUT_LEAD@ + output@ + PREVIOUS_OUTPUT_TAIL@);
            }
        },
        None => {},
    }
    report
}

/// Renders the notification that remediation step `action_idx` (counted from
/// 0) is about to start. The body names the status code found, the output of
/// the step that ran before (if it left any), the step's number counted from
/// 1, and the number of steps in the plan.
pub fn make_message_will_take_action(
    target_conf: &Target,
    action_idx: usize,
    server_status: &ServerStatus,
    last_action_output: &Option<String>,
) -> (message: MailMessage)
    ensures
        message@ == will_take_action_message(
            target_conf@,
            action_idx as nat,
            server_status@,
            last_action_output.deep_view(),
        ),
{
    let mut subject = ESCALATION_SUBJECT_LEAD.to_owned();
    subject.append(target_conf.informative_name.as_str());
    subject.append(ESCALATION_SUBJECT_TAIL);

    let report = previous_output_text(last_action_output);
    let mut body = DOWN_BODY_LEAD.to_owned();
    body.append(target_conf.watch_url.as_str());
    body.append(DOWN_BODY_CODE);
    push_decimal(&mut body, server_status.status_code as u128);
    body.append(ESCALATION_BODY_AFTER_CODE);
    body.append(report.as_str());
    body.append(ESCALATION_BODY_ACTION);
    push_decimal(&mut body, action_idx as u128 + 1);
    body.append(ESCALATION_BODY_FROM);
    push_decimal(&mut body, target_conf.actions.len() as u128);
    body.append(ESCALATION_BODY_TAIL);
    MailMessage { body, subject }
}

fn probe_error_text(server_status: &ServerStatus) -> (report: String)
    ensures
        report@ == probe_error_report(server_status@.exec_error_msg),
{
    let mut report = String::new();
    if !server_status.exec_error_msg.as_str().is_empty() {
        report.append(PROBE_ERROR_REPORT_LEAD);
        report.append(server_status.exec_error_msg.as_str());
        assert(report@ =~= PROBE_ERROR_REPORT_LEAD@ + server_status.exec_error_msg@);
    }
    report
}

/// Renders the final notification of a cycle in which every remediation step
/// was tried in vain, with the status code found last and, where the last
/// probe could not be carried out, the text of its error.
pub fn make_message_actions_exhausted(target_conf: &Target, server_status: &ServerStatus) -> (message:
    MailMessage)
    ensures
        message@ == actions_exhausted_message(target_conf@, server_status@),
{
    let mut subject = EXHAUSTED_SUBJECT_LEAD.to_owned();
    subject.append(target_conf.informative_name.as_str());
    subject.append(EXHAUSTED_SUBJECT_TAIL);

    let report = probe_error_text(server_status);
    let mut body = DOWN_BODY_LEAD.to_owned();
    body.append(target_conf.watch_url.as_str());
    body.append(DOWN_BODY_CODE);
    push_decimal(&mut body, server_status.status_code as u128);
    body.append(EXHAUSTED_BODY_TAIL);
    body.append(report.as_str());
    MailMessage { body, subject }
}

/// Renders the notification that a target is healthy again.
pub fn make_message_target_up_again(target_conf: &Target) -> (message: MailMessage)
    ensures
        message@ == target_up_again_message(target_conf@),
{
    let mut body = RECOVERED_BODY_LEAD.to_owned();
    body.append(target_conf.watch_url.as_str());
    body.append(RECOVERED_BODY_TAIL);

    let mut subject = RECOVERED_SUBJECT_LEAD.to_owned();
    subject.append(target_conf.informative_name.as_str());
    subject.append(RECOVERED_SUBJECT_TAIL);
    MailMessage { body, subject }
}

/// Renders the alert for the administrators that the configuration file at
/// `config_path` was rejected with `error`.
pub fn make_message_config_rejected(config_path: &str, error: &str) -> (message: MailMessage)
    ensures
        message@ == config_alert_message(config_path@, error@),
{
    let mut body = CONFIG_ALERT_BODY_LEAD.to_owned();
    body.append(config_path);
    body.append(CONFIG_ALERT_BODY_CAUSE);
    body.append(error);
    MailMessage { body, subject: CONFIG_ALERT_SUBJECT.to_owned() }
}

/// Turns a list of addresses into the list of pairs that the mailer takes,
/// in the same order, each address paired with itself.
pub fn build_mail_recipients(vec_of_mail_address: &Vec<String>) -> (result: Vec<(String, String)>)
    ensures
        recipient_views(result@) == mail_recipients(texts(vec_of_mail_address@)),
{
    let mut result: Vec<(String, String)> = Vec::new();
    let mut i: usize = 0;
    while i < vec_of_mail_address.len()
        invariant
            i <= vec_of_mail_address.len(),
            result.len() == i,
            forall|k: int|
                0 <= k < i ==> (#[trigger] result[k]).0@ == vec_of_mail_address[k]@ && result[k].1@
                    == vec_of_mail_address[k]@,
        decreases vec_of_mail_address.len() - i,
    {
        let address = &vec_of_mail_address[i];
        result.push((address.clone(), address.clone()));
        i += 1;
    }
    assert(recipient_views(result@) =~= mail_recipients(texts(vec_of_mail_address@)));
    result
}

impl MailMessageView {
    /// The body as the single paragraph of an HTML part.
    pub open spec fn html_body(self) -> Seq<char> {
        HTML_BODY_LEAD@ + self.body + HTML_BODY_TAIL@
    }
}

impl MailMessage {
    /// The body as the single paragraph of an HTML part, for a mailer that
    /// sends the message in both plain text and HTML. The text is not escaped.
    pub fn html_body(&self) -> (html: String)
        ensures
            html@ == self@.html_body(),
    {
        let mut html = HTML_BODY_LEAD.to_owned();
        html.append(self.body.as_str());
        html.append(HTML_BODY_TAIL);
        html
    }
}

impl Clone for MailMessage {
    fn clone(&self) -> (copy: MailMessage)
        ensures
            copy@ == self@,
    {
        MailMessage { body: self.body.clone(), subject: self.subject.clone() }
    }
}

} // verus!
