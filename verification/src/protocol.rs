//! What passes between the state machines and the driver around them: the
//! requests that the driver carries out, and the events that it reports back.

use vstd::prelude::*;
use crate::config::{
    ActionTypeSpec, ActionTypeSpecView, SendMailConfig, SendMailConfigView, ServerHealthConfig,
    ServerHealthConfigView,
};
use crate::messages::{recipient_views, MailMessage, MailMessageView};
use crate::status::{ServerStatus, ServerStatusView};

verus! {

/// What the driver reports back after it has carried out a request.
#[derive(Debug, PartialEq, Eq)]
pub enum Event {
    /// The configuration file was read: the configuration, or why it was
    /// rejected.
    ConfigRead(Result<ServerHealthConfig, String>),
    /// A probe ended: the status of the target's answer, or why there was none.
    Probed(Result<ServerStatus, String>),
    /// A remediation command ended: its captured output, or why it could not
    /// be run to completion.
    ActionRan(Result<String, String>),
    /// A wait has elapsed, or a message was handed to the mailer (whether or
    /// not the mailer could deliver it).
    Completed,
}

pub enum EventView {
    ConfigRead(Result<ServerHealthConfigView, Seq<char>>),
    Probed(Result<ServerStatusView, Seq<char>>),
    ActionRan(Result<Seq<char>, Seq<char>>),
    Completed,
}

impl View for Event {
    type V = EventView;

    open spec fn view(&self) -> EventView {
        match self {
            Event::ConfigRead(Ok(config)) => EventView::ConfigRead(Ok(config@)),
            Event::ConfigRead(Err(error)) => EventView::ConfigRead(Err(error@)),
            Event::Probed(Ok(status)) => EventView::Probed(Ok(status@)),
            Event::Probed(Err(error)) => EventView::Probed(Err(error@)),
            Event::ActionRan(Ok(output)) => EventView::ActionRan(Ok(output@)),
            Event::ActionRan(Err(error)) => EventView::ActionRan(Err(error@)),
            Event::Completed => EventView::Completed,
        }
    }
}

/// The three kinds of notification about a target.
#[derive(Clone, Copy, Debug, PartialEq, Eq, Structural)]
pub enum Notice {
    /// Remediation step `action` (counted from 0) is about to start.
    WillTakeAction { action: usize },
    /// Every remediation step was tried and the target is still down.
    ActionsExhausted,
    /// The target was down and is healthy again.
    UpAgain,
}

/// What the escalation of one target asks the driver to do next.
#[derive(Debug, Clone, PartialEq, Eq)]
pub enum Request {
    /// Probe the target once, giving up after the timeout.
    Probe { url: String, timeout_secs: u16 },
    /// Let the given number of seconds pass.
    Wait { secs: u64 },
    /// Send a notification to the target's recipients.
    Notify { notice: Notice, message: MailMessage, recipients: Vec<(String, String)> },
    /// Run remediation step `action` (counted from 0) once, to completion.
    Run { action: usize, mechanism: ActionTypeSpec },
}

pub enum RequestView {
    Probe { url: Seq<char>, timeout_secs: u16 },
    Wait { secs: u64 },
    Notify { notice: Notice, message: MailMessageView, recipients: Seq<(Seq<char>, Seq<char>)> },
    Run { action: usize, mechanism: ActionTypeSpecView },
}

impl View for Request {
    type V = RequestView;

    open spec fn view(&self) -> RequestView {
        match self {
            Request::Probe { url, timeout_secs } => RequestView::Probe {
                url: url@,
                timeout_secs: *timeout_secs,
            },
            Request::Wait { secs } => RequestView::Wait { secs: *secs },
            Request::Notify { notice, message, recipients } => RequestView::Notify {
                notice: *notice,
                message: message@,
                recipients: recipient_views(recipients@),
            },
            Request::Run { action, mechanism } => RequestView::Run {
                action: *action,
                mechanism: mechanism@,
            },
        }
    }
}

/// What the monitor asks the driver to do next.
#[derive(Debug, Clone, PartialEq, Eq)]
pub enum Command {
    /// Read the configuration file at `path`.
    LoadConfig { path: String },
    /// Probe `url` once, giving up after the timeout.
    Probe { url: String, timeout_secs: u16 },
    /// Let the given number of seconds pass.
    Wait { secs: u64 },
    /// Send `message` to `recipients` over `transport`.
    SendMail { transport: SendMailConfig, message: MailMessage, recipients: Vec<(String, String)> },
    /// Run a remediation command once, to completion.
    RunAction { mechanism: ActionTypeSpec },
    /// Give up: there is no configuration to monitor with.
    Halt,
}

pub enum CommandView {
    LoadConfig { path: Seq<char> },
    Probe { url: Seq<char>, timeout_secs: u16 },
    Wait { secs: u64 },
    SendMail {
        transport: SendMailConfigView,
        message: MailMessageView,
        recipients: Seq<(Seq<char>, Seq<char>)>,
    },
    RunAction { mechanism: ActionTypeSpecView },
    Halt,
}

impl View for Command {
    type V = CommandView;

    open spec fn view(&self) -> CommandView {
        match self {
            Command::LoadConfig { path } => CommandView::LoadConfig { path: path@ },
            Command::Probe { url, timeout_secs } => CommandView::Probe {
                url: url@,
                timeout_secs: *timeout_secs,
            },
            Command::Wait { secs } => CommandView::Wait { secs: *secs },
            Command::SendMail { transport, message, recipients } => CommandView::SendMail {
                transport: transport@,
                message: message@,
                recipients: recipient_views(recipients@),
            },
            Command::RunAction { mechanism } => CommandView::RunAction { mechanism: mechanism@ },
            Command::Halt => CommandView::Halt,
        }
    }
}

impl EventView {
    /// Whether the event reports a probe that found the target healthy.
    pub open spec fn is_healthy_probe(self) -> bool {
        self matches EventView::Probed(Ok(status)) && status.overall_ok
    }

    /// Whether the event reports a probe that did not find the target healthy.
    pub open spec fn is_failed_probe(self) -> bool {
        self is Probed && !self.is_healthy_probe()
    }
}

} // verus!
