//! The monitor loop: reload the configuration, escalate every target in the
//! configured order, rest, and begin again.
//!
//! The monitor is a state machine like the escalation that it runs for each
//! target: in every state it has one command for the driver, and the event
//! that the driver reports back moves it on. It owns the two things that
//! outlive a cycle: the configuration that was last loaded with success, and
//! the set of targets that ended their last cycle down.

use std::collections::HashSet;
use vstd::prelude::*;
use crate::config::{lemma_config_fits, ServerHealthConfig, ServerHealthConfigView};
use crate::escalation::{Escalation, EscalationView};
use crate::messages::{
    build_mail_recipients, config_alert_message, mail_recipients, make_message_config_rejected,
    MailMessage, MailMessageView,
};
use crate::protocol::{Command, CommandView, Event, EventView, Request, RequestView};

verus! {

/// Where the monitor stands within a cycle, as a mathematical value.
pub enum PhaseView {
    /// The configuration is to be read.
    Loading,
    /// The configuration was rejected; the administrators are to be told.
    Warning { alert: MailMessageView },
    /// Target number `target` (counted from 0) is being escalated.
    Watching { target: usize, run: EscalationView },
    /// The cycle's work is done; the poll interval is to pass.
    Resting,
    /// There never was a configuration to monitor with.
    Halted,
}

/// The state of the monitor as a mathematical value.
pub struct MonitorView {
    pub config_path: Seq<char>,
    /// The configuration that was last loaded with success.
    pub config: Option<ServerHealthConfigView>,
    /// The targets, by their place in the configuration, that ended their
    /// last completed cycle down.
    pub known_down: Set<usize>,
    pub phase: PhaseView,
}

/// The command that carries out a request of a target's escalation; mail
/// goes over the transport of `config`.
pub open spec fn command_for(
    request: RequestView,
    config: ServerHealthConfigView,
) -> CommandView {
    match request {
        RequestView::Probe { url, timeout_secs } => CommandView::Probe { url, timeout_secs },
        RequestView::Wait { secs } => CommandView::Wait { secs },
        RequestView::Notify { notice, message, recipients } => CommandView::SendMail {
            transport: config.send_mail,
            message,
            recipients,
        },
        RequestView::Run { action, mechanism } => CommandView::RunAction { mechanism },
    }
}

impl MonitorView {
    /// The state at process start: no configuration, every target believed
    /// healthy.
    pub open spec fn boot(config_path: Seq<char>) -> MonitorView {
        MonitorView {
            config_path,
            config: None,
            known_down: Set::empty(),
            phase: PhaseView::Loading,
        }
    }

    /// The same state in another phase.
    pub open spec fn at(self, phase: PhaseView) -> MonitorView {
        MonitorView { phase, ..self }
    }

    /// Whether the state is one that the monitor can be in: there is a
    /// configuration wherever one is used, and a target under escalation is
    /// one of its targets, with an escalation that fits it, has not finished,
    /// and began with the belief that is held about the target.
    pub open spec fn wf(self) -> bool {
        &&& self.config matches Some(config) ==> config.fits()
        &&& match self.phase {
            PhaseView::Loading => true,
            PhaseView::Warning { .. } => self.config is Some,
            PhaseView::Watching { target, run } => {
                &&& self.config is Some
                &&& target < self.config->0.targets.len()
                &&& run.wf(self.config->0.targets[target as int])
                &&& !run.finished()
                &&& run.known_up == self.known_up(target)
            },
            PhaseView::Resting => self.config is Some,
            PhaseView::Halted => true,
        }
    }

    /// Whether a target is believed healthy: it did not end its last
    /// completed cycle down.
    pub open spec fn known_up(self, target: usize) -> bool {
        !self.known_down.contains(target)
    }

    /// The belief about a target after a cycle that it ended `up` or down.
    pub open spec fn record(self, target: usize, up: bool) -> MonitorView {
        MonitorView {
            known_down: if up {
                self.known_down.remove(target)
            } else {
                self.known_down.insert(target)
            },
            ..self
        }
    }

    /// Turning to target number `from`: its escalation begins with the belief
    /// held about it; behind the last target the monitor rests.
    pub open spec fn watch_from(self, from: nat) -> MonitorView
        recommends
            self.config is Some,
    {
        if from < self.config->0.targets.len() {
            self.at(
                PhaseView::Watching {
                    target: from as usize,
                    run: EscalationView::start(self.known_up(from as usize)),
                },
            )
        } else {
            self.at(PhaseView::Resting)
        }
    }

    /// What the driver is to do in this state.
    pub open spec fn command(self) -> CommandView {
        match self.phase {
            PhaseView::Loading => CommandView::LoadConfig { path: self.config_path },
            PhaseView::Warning { alert } => CommandView::SendMail {
                transport: self.config->0.send_mail,
                message: alert,
                recipients: mail_recipients(self.config->0.admin_recipients),
            },
            PhaseView::Watching { target, run } => match run.request(
                self.config->0.targets[target as int],
            ) {
                Some(request) => command_for(request, self.config->0),
                None => CommandView::Halt,
            },
            PhaseView::Resting => CommandView::Wait { secs: self.config->0.watch_intervall_secs },
            PhaseView::Halted => CommandView::Halt,
        }
    }

    /// The state after `event` was reported in this state.
    ///
    /// A configuration that was read with success replaces the one held, and
    /// the targets are escalated one after the other. A configuration that was
    /// rejected leaves the one held in place: the administrators are alerted
    /// and the targets are left alone for this cycle. Where none is held yet,
    /// the monitor halts. A target that finishes its escalation is recorded
    /// as up or down, and the next one has its turn.
    pub open spec fn next(self, event: EventView) -> MonitorView {
        match self.phase {
            PhaseView::Loading => match event {
                EventView::ConfigRead(Ok(config)) => MonitorView {
                    config: Some(config),
                    ..self
                }.watch_from(0),
                EventView::ConfigRead(Err(error)) => if self.config is Some {
                    self.at(
                        PhaseView::Warning {
                            alert: config_alert_message(self.config_path, error),
                        },
                    )
                } else {
                    self.at(PhaseView::Halted)
                },
                _ => self,
            },
            PhaseView::Warning { .. } => match event {
                EventView::Completed => self.at(PhaseView::Resting),
                _ => self,
            },
            PhaseView::Watching { target, run } => {
                let moved = run.next(self.config->0.targets[target as int], event);
                if moved.finished() {
                    self.record(target, moved.is_up()).watch_from(target as nat + 1)
                } else {
                    self.at(PhaseView::Watching { target, run: moved })
                }
            },
            PhaseView::Resting => match event {
                EventView::Completed => self.at(PhaseView::Loading),
                _ => self,
            },
            PhaseView::Halted => self,
        }
    }
}

/// Every event leaves a monitor that is well formed in a state that is well
/// formed.
pub proof fn lemma_monitor_next_keeps_wf(state: MonitorView, event: EventView)
    requires
        state.wf(),
        event matches EventView::ConfigRead(Ok(config)) ==> config.fits(),
    ensures
        state.next(event).wf(),
{
    match state.phase {
        PhaseView::Watching { target, run } => {
            crate::escalation::lemma_next_keeps_wf(
                run,
                state.config->0.targets[target as int],
                event,
            );
        },
        _ => {},
    }
}

/// A configuration that was read fits, as every configuration in memory does.
proof fn lemma_read_config_fits(event: Event)
    ensures
        event@ matches EventView::ConfigRead(Ok(config)) ==> config.fits(),
{
    match event {
        Event::ConfigRead(Ok(config)) => {
            lemma_config_fits(config);
        },
        _ => {},
    }
}

/// Where the monitor stands within a cycle.
enum Phase {
    Loading,
    Warning { alert: MailMessage },
    Watching { target: usize, run: Escalation },
    Resting,
    Halted,
}

impl View for Phase {
    type V = PhaseView;

    closed spec fn view(&self) -> PhaseView {
        match self {
            Phase::Loading => PhaseView::Loading,
            Phase::Warning { alert } => PhaseView::Warning { alert: alert@ },
            Phase::Watching { target, run } => PhaseView::Watching { target: *target, run: run@ },
            Phase::Resting => PhaseView::Resting,
            Phase::Halted => PhaseView::Halted,
        }
    }
}

/// The monitor loop as a state machine.
pub struct Monitor {
    config_path: String,
    config: Option<ServerHealthConfig>,
    known_down: HashSet<usize>,
    phase: Phase,
}

impl View for Monitor {
    type V = MonitorView;

    closed spec fn view(&self) -> MonitorView {
        MonitorView {
            config_path: self.config_path@,
            config: match self.config {
                Some(config) => Some(config@),
                None => None,
            },
            known_down: self.known_down@,
            phase: self.phase@,
        }
    }
}

fn command_of(request: Request, config: &ServerHealthConfig) -> (command: Command)
    ensures
        command@ == command_for(request@, config@),
{
    match request {
        Request::Probe { url, timeout_secs } => Command::Probe { url, timeout_secs },
        Request::Wait { secs } => Command::Wait { secs },
        Request::Notify { notice, message, recipients } => Command::SendMail {
            transport: config.send_mail.clone(),
            message,
            recipients,
        },
        Request::Run { action, mechanism } => Command::RunAction { mechanism },
    }
}

impl Monitor {
    #[verifier::type_invariant]
    spec fn inv(self) -> bool {
        self@.wf()
    }

    /// The monitor at process start: no configuration yet, every target
    /// believed healthy, the configuration at `config_path` to be read.
    pub fn new(config_path: String) -> (monitor: Monitor)
        ensures
            monitor@ == MonitorView::boot(config_path@),
    {
        Monitor { config_path, config: None, known_down: HashSet::new(), phase: Phase::Loading }
    }

    /// The configuration that was last loaded with success, if any.
    pub fn config(&self) -> (config: Option<&ServerHealthConfig>)
        ensures
            match config {
                Some(c) => self@.config == Some(c@),
                None => self@.config is None,
            },
    {
        self.config.as_ref()
    }

    /// Whether target number `target` is believed healthy.
    pub fn target_known_up(&self, target: usize) -> (known_up: bool)
        ensures
            known_up == self@.known_up(target),
    {
        !self.known_down.contains(&target)
    }

    /// Whether the monitor has given up for want of any configuration.
    pub fn is_halted(&self) -> (halted: bool)
        ensures
            halted == (self@.phase is Halted),
    {
        match self.phase {
            Phase::Halted => true,
            _ => false,
        }
    }

    /// What the driver is to do next.
    pub fn command(&self) -> (command: Command)
        ensures
            command@ == self@.command(),
            self@.wf(),
    {
        proof {
            use_type_invariant(self);
        }
        match &self.phase {
            Phase::Loading => Command::LoadConfig { path: self.config_path.clone() },
            Phase::Warning { alert } => {
                let config = self.config.as_ref().unwrap();
                Command::SendMail {
                    transport: config.send_mail.clone(),
                    message: alert.clone(),
                    recipients: build_mail_recipients(&config.admin_recipients),
                }
            },
            Phase::Watching { target, run } => {
                let config = self.config.as_ref().unwrap();
                match run.request(&config.targets[*target]) {
                    Some(request) => command_of(request, config),
                    None => Command::Halt,
                }
            },
            Phase::Resting => {
                let config = self.config.as_ref().unwrap();
                Command::Wait { secs: config.watch_intervall_secs }
            },
            Phase::Halted => Command::Halt,
        }
    }

    fn record(&mut self, target: usize, up: bool)
        requires
            old(self).phase is Loading,
        ensures
            final(self)@ == old(self)@.record(target, up),
    {
        proof {
            use_type_invariant(&*self);
        }
        // The set is taken out while it changes: the monitor stays whole at
        // every point at which a call could unwind.
        let mut known_down: HashSet<usize> = HashSet::new();
        std::mem::swap(&mut self.known_down, &mut known_down);
        if up {
            known_down.remove(&target);
        } else {
            known_down.insert(target);
        }
        std::mem::swap(&mut self.known_down, &mut known_down);
    }

    fn watch_from(&mut self, from: usize)
        requires
            old(self).config is Some,
            old(self).phase is Loading,
        ensures
            final(self)@ == old(self)@.watch_from(from as nat),
    {
        proof {
            use_type_invariant(&*self);
        }
        let config = self.config.as_ref().unwrap();
        if from < config.targets.len() {
            let known_up = !self.known_down.contains(&from);
            let run = Escalation::start(&config.targets[from], known_up);
            self.phase = Phase::Watching { target: from, run };
        } else {
            self.phase = Phase::Resting;
        }
    }

    /// Takes in what the driver reports and moves on to the next command.
    /// An event that does not answer the pending command changes nothing.
    pub fn advance(&mut self, event: Event)
        ensures
            final(self)@ == old(self)@.next(event@),
            old(self)@.wf(),
            final(self)@.wf(),
    {
        proof {
            use_type_invariant(&*self);
            lemma_read_config_fits(event);
            lemma_monitor_next_keeps_wf(self@, event@);
        }
        // The phase is taken out to be matched by value; `Loading` stands in
        // for it until the next phase is set.
        let mut phase = Phase::Loading;
        std::mem::swap(&mut self.phase, &mut phase);
        match phase {
            Phase::Loading => match event {
                Event::ConfigRead(Ok(config)) => {
                    self.config = Some(config);
                    self.watch_from(0);
                },
                Event::ConfigRead(Err(error)) => {
                    if self.config.is_some() {
                        self.phase = Phase::Warning {
                            alert: make_message_config_rejected(
                                self.config_path.as_str(),
                                error.as_str(),
                            ),
                        };
                    } else {
                        self.phase = Phase::Halted;
                    }
                },
                _ => {},
            },
            Phase::Warning { alert } => match event {
                Event::Completed => {
                    self.phase = Phase::Resting;
                },
                _ => {
                    self.phase = Phase::Warning { alert };
                },
            },
            Phase::Watching { target, run } => {
                let mut run = run;
                run.advance(&self.config.as_ref().unwrap().targets[target], event);
                if run.is_finished() {
                    self.record(target, run.is_up());
                    self.watch_from(target + 1);
                } else {
                    self.phase = Phase::Watching { target, run };
                }
            },
            Phase::Resting => match event {
                Event::Completed => {
                    self.phase = Phase::Loading;
                },
                _ => {
                    self.phase = Phase::Resting;
                },
            },
            Phase::Halted => {
                self.phase = Phase::Halted;
            },
        }
    }
}

} // verus!
