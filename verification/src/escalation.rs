//! The escalation of one target through one cycle: probe with retries, walk
//! the remediation plan while the target stays down, and notify its
//! recipients where its state changes.
//!
//! The escalation is a state machine. In every state but the last it has one
//! request for the driver; the driver carries it out and reports the event
//! back, which moves the machine on. An event that does not answer the
//! pending request leaves the machine where it is.

use vstd::prelude::*;
use crate::actions::{action_report, run_spefice_action};
use crate::config::{lemma_target_fits, ActionView, Target, TargetView};
use crate::messages::{
    actions_exhausted_message, build_mail_recipients, mail_recipients,
    make_message_actions_exhausted, make_message_target_up_again, make_message_will_take_action,
    target_up_again_message, will_take_action_message,
};
use crate::protocol::{Event, EventView, Notice, Request, RequestView};
use crate::status::{ServerStatus, ServerStatusView};

verus! {

/// The probe round that is under way: the first of the cycle, or the one
/// after run number `repeat` (counted from 0) of step `action`.
#[derive(Clone, Copy, Debug, PartialEq, Eq, Structural)]
pub enum Round {
    Baseline,
    Recheck { action: usize, repeat: u16 },
}

/// Where an escalation stands. Every stage but `Finished` waits for the
/// driver to carry out one request.
#[derive(Clone, Copy, Debug, PartialEq, Eq, Structural)]
pub enum Stage {
    /// Attempt number `attempt` (counted from 0) of a probe round is due.
    Probing { round: Round, attempt: u32 },
    /// That attempt failed; the wait between tries is due.
    Pausing { round: Round, attempt: u32 },
    /// The notification that step `action` is about to start is due.
    Announcing { action: usize },
    /// Run number `repeat` of step `action` is due.
    Acting { action: usize, repeat: u16 },
    /// That run is over; the wait after the step is due.
    Settling { action: usize, repeat: u16 },
    /// The notification that the plan is exhausted is due.
    Alerting,
    /// The notification that the target is up again is due.
    Relieving,
    /// The cycle is over for this target.
    Finished,
}

/// The state of an escalation as a mathematical value.
pub struct EscalationView {
    /// Whether the target was believed healthy when the cycle began.
    pub known_up: bool,
    pub stage: Stage,
    /// What the latest probe attempt found.
    pub status: ServerStatusView,
    /// The report on the latest run of a remediation step, if one ran.
    pub last_action_output: Option<Seq<char>>,
}

/// The first step at or after `from` that is run at least once, or the length
/// of the plan where there is none.
pub open spec fn next_runnable(actions: Seq<ActionView>, from: nat) -> nat
    decreases actions.len() - from,
{
    if from >= actions.len() {
        actions.len()
    } else if actions[from as int].repeat_times > 0 {
        from
    } else {
        next_runnable(actions, from + 1)
    }
}

impl Round {
    /// Whether the round belongs to the plan of `target`.
    pub open spec fn fits(self, target: TargetView) -> bool {
        match self {
            Round::Baseline => true,
            Round::Recheck { action, repeat } => action < target.actions.len() && repeat
                < target.actions[action as int].repeat_times,
        }
    }
}

impl EscalationView {
    /// The state in which every escalation begins: the first attempt of the
    /// baseline round is due, nothing is known of the target yet.
    pub open spec fn start(known_up: bool) -> EscalationView {
        EscalationView {
            known_up,
            stage: Stage::Probing { round: Round::Baseline, attempt: 0 },
            status: ServerStatusView::unknown(),
            last_action_output: None,
        }
    }

    /// Whether the state is one that an escalation of `target` can be in:
    /// its counters lie within the plan and the try budget, a healthy status
    /// is found only where the cycle is being closed, and each notification
    /// is due only under the belief that calls for it.
    pub open spec fn wf(self, target: TargetView) -> bool {
        &&& target.fits()
        &&& match self.stage {
            Stage::Probing { round, attempt } => {
                &&& round.fits(target)
                &&& attempt < target.tries()
                &&& !self.status.overall_ok
            },
            Stage::Pausing { round, attempt } => {
                &&& round.fits(target)
                &&& attempt < target.tries()
                &&& !self.status.overall_ok
            },
            Stage::Announcing { action } => {
                &&& action < target.actions.len()
                &&& self.known_up
                &&& !self.status.overall_ok
            },
            Stage::Acting { action, repeat } => {
                &&& action < target.actions.len()
                &&& repeat < target.actions[action as int].repeat_times
                &&& !self.status.overall_ok
            },
            Stage::Settling { action, repeat } => {
                &&& action < target.actions.len()
                &&& repeat < target.actions[action as int].repeat_times
                &&& !self.status.overall_ok
            },
            Stage::Alerting => self.known_up && !self.status.overall_ok,
            Stage::Relieving => !self.known_up && self.status.overall_ok,
            Stage::Finished => true,
        }
    }

    /// Whether the cycle is over for the target.
    pub open spec fn finished(self) -> bool {
        self.stage is Finished
    }

    /// Whether the target ends the cycle healthy. Meaningful once the
    /// escalation has finished.
    pub open spec fn is_up(self) -> bool {
        self.status.overall_ok
    }

    /// The same state at another stage.
    pub open spec fn at(self, stage: Stage) -> EscalationView {
        EscalationView { stage, ..self }
    }

    /// The end of the cycle: a target that is still down is reported as
    /// exhausted if it was believed healthy before, a target that is healthy
    /// is reported as up again if it was believed down before, and nothing is
    /// sent where the belief has not changed.
    pub open spec fn conclude(self) -> EscalationView {
        if self.status.overall_ok {
            if self.known_up {
                self.at(Stage::Finished)
            } else {
                self.at(Stage::Relieving)
            }
        } else {
            if self.known_up {
                self.at(Stage::Alerting)
            } else {
                self.at(Stage::Finished)
            }
        }
    }

    /// Turning to step `action` of the plan while the target is down. A target
    /// that was believed healthy has every step announced, also one that is
    /// never run; a target that was already down is escalated silently, from
    /// the first step that is run at all.
    pub open spec fn enter_action(self, target: TargetView, action: nat) -> EscalationView {
        if self.known_up {
            if action < target.actions.len() {
                self.at(Stage::Announcing { action: action as usize })
            } else {
                self.conclude()
            }
        } else {
            let first = next_runnable(target.actions, action);
            if first < target.actions.len() {
                self.at(Stage::Acting { action: first as usize, repeat: 0 })
            } else {
                self.conclude()
            }
        }
    }

    /// Turning to run number `repeat` of step `action`: the run is due while
    /// the step has repetitions left, else the next step's turn has come.
    pub open spec fn enter_repeat(self, target: TargetView, action: nat, repeat: nat) -> EscalationView
        recommends
            action < target.actions.len(),
    {
        if repeat < target.actions[action as int].repeat_times {
            self.at(Stage::Acting { action: action as usize, repeat: repeat as u16 })
        } else {
            self.enter_action(target, action + 1)
        }
    }

    /// The end of a probe round, with its result in `self.status`. A healthy
    /// target ends the cycle. After a failed baseline round the plan begins;
    /// after a failed recheck the step is repeated or the next one tried.
    pub open spec fn close_round(self, target: TargetView, round: Round) -> EscalationView {
        if self.status.overall_ok {
            self.conclude()
        } else {
            match round {
                Round::Baseline => self.enter_action(target, 0),
                Round::Recheck { action, repeat } => self.enter_repeat(
                    target,
                    action as nat,
                    repeat as nat + 1,
                ),
            }
        }
    }

    /// What the driver is to do in this state; nothing once the escalation
    /// has finished.
    pub open spec fn request(self, target: TargetView) -> Option<RequestView> {
        match self.stage {
            Stage::Probing { .. } => Some(
                RequestView::Probe { url: target.watch_url, timeout_secs: target.timeout_secs },
            ),
            Stage::Pausing { .. } => Some(
                RequestView::Wait { secs: target.wait_between_tries_secs },
            ),
            Stage::Announcing { action } => Some(
                RequestView::Notify {
                    notice: Notice::WillTakeAction { action },
                    message: will_take_action_message(
                        target,
                        action as nat,
                        self.status,
                        self.last_action_output,
                    ),
                    recipients: mail_recipients(target.recipients),
                },
            ),
            Stage::Acting { action, .. } => Some(
                RequestView::Run { action, mechanism: target.actions[action as int].typespecific },
            ),
            Stage::Settling { action, .. } => Some(
                RequestView::Wait { secs: target.actions[action as int].wait_afterwards_secs },
            ),
            Stage::Alerting => Some(
                RequestView::Notify {
                    notice: Notice::ActionsExhausted,
                    message: actions_exhausted_message(target, self.status),
                    recipients: mail_recipients(target.recipients),
                },
            ),
            Stage::Relieving => Some(
                RequestView::Notify {
                    notice: Notice::UpAgain,
                    message: target_up_again_message(target),
                    recipients: mail_recipients(target.recipients),
                },
            ),
            Stage::Finished => None,
        }
    }

    /// The state after `event` was reported in this state.
    ///
    /// A probe round ends at once with the first healthy answer. A failed
    /// attempt, whether the target answered unhealthy or the probe itself
    /// failed, is followed by the wait between tries, also when it was the
    /// last of the round; the round then ends with the status of that last
    /// attempt alone.
    pub open spec fn next(self, target: TargetView, event: EventView) -> EscalationView {
        match self.stage {
            Stage::Probing { round, attempt } => match event {
                EventView::Probed(Ok(status)) => {
                    let seen = EscalationView { status, ..self };
                    if status.overall_ok {
                        seen.close_round(target, round)
                    } else {
                        seen.at(Stage::Pausing { round, attempt })
                    }
                },
                EventView::Probed(Err(error)) => EscalationView {
                    status: ServerStatusView::unreachable(error),
                    ..self
                }.at(Stage::Pausing { round, attempt }),
                _ => self,
            },
            Stage::Pausing { round, attempt } => match event {
                EventView::Completed => if attempt + 1 < target.tries() {
                    self.at(Stage::Probing { round, attempt: (attempt + 1) as u32 })
                } else {
                    self.close_round(target, round)
                },
                _ => self,
            },
            Stage::Announcing { action } => match event {
                EventView::Completed => self.enter_repeat(target, action as nat, 0),
                _ => self,
            },
            Stage::Acting { action, repeat } => match event {
                EventView::ActionRan(outcome) => EscalationView {
                    last_action_output: Some(
                        action_report(target.actions[action as int].typespecific, outcome),
                    ),
                    ..self
                }.at(Stage::Settling { action, repeat }),
                _ => self,
            },
            Stage::Settling { action, repeat } => match event {
                EventView::Completed => self.at(
                    Stage::Probing { round: Round::Recheck { action, repeat }, attempt: 0 },
                ),
                _ => self,
            },
            Stage::Alerting => match event {
                EventView::Completed => self.at(Stage::Finished),
                _ => self,
            },
            Stage::Relieving => match event {
                EventView::Completed => self.at(Stage::Finished),
                _ => self,
            },
            Stage::Finished => self,
        }
    }
}

/// The first runnable step lies between where the search began and the end of
/// the plan, and is run at least once where it lies within the plan.
pub proof fn lemma_next_runnable_bounds(actions: Seq<ActionView>, from: nat)
    requires
        from <= actions.len(),
    ensures
        from <= next_runnable(actions, from) <= actions.len(),
        next_runnable(actions, from) < actions.len() ==> actions[next_runnable(
            actions,
            from,
        ) as int].repeat_times > 0,
    decreases actions.len() - from,
{
    if from < actions.len() && actions[from as int].repeat_times == 0 {
        lemma_next_runnable_bounds(actions, from + 1);
    }
}

/// Turning to a step of the plan while the target is down leaves a state
/// that the escalation can be in.
pub proof fn lemma_enter_action_keeps_wf(state: EscalationView, target: TargetView, action: nat)
    requires
        target.fits(),
        action <= target.actions.len(),
        !state.status.overall_ok,
    ensures
        state.enter_action(target, action).wf(target),
{
    lemma_next_runnable_bounds(target.actions, action);
}

/// Closing a probe round leaves a state that the escalation can be in.
pub proof fn lemma_close_round_keeps_wf(state: EscalationView, target: TargetView, round: Round)
    requires
        target.fits(),
        round.fits(target),
    ensures
        state.close_round(target, round).wf(target),
{
    if !state.status.overall_ok {
        match round {
            Round::Baseline => {
                lemma_enter_action_keeps_wf(state, target, 0);
            },
            Round::Recheck { action, repeat } => {
                lemma_enter_action_keeps_wf(state, target, action as nat + 1);
            },
        }
    }
}

/// Every event leaves a state that the escalation can be in in another such
/// state.
pub proof fn lemma_next_keeps_wf(state: EscalationView, target: TargetView, event: EventView)
    requires
        state.wf(target),
    ensures
        state.next(target, event).wf(target),
{
    match state.stage {
        Stage::Probing { round, attempt } => {
            if let EventView::Probed(Ok(status)) = event {
                lemma_close_round_keeps_wf(EscalationView { status, ..state }, target, round);
            }
        },
        Stage::Pausing { round, attempt } => {
            lemma_close_round_keeps_wf(state, target, round);
        },
        Stage::Announcing { action } => {
            lemma_enter_action_keeps_wf(state, target, action as nat + 1);
        },
        _ => {},
    }
}

/// The escalation of one target through one cycle.
pub struct Escalation {
    known_up: bool,
    stage: Stage,
    status: ServerStatus,
    last_action_output: Option<String>,
}

impl View for Escalation {
    type V = EscalationView;

    closed spec fn view(&self) -> EscalationView {
        EscalationView {
            known_up: self.known_up,
            stage: self.stage,
            status: self.status@,
            last_action_output: self.last_action_output.deep_view(),
        }
    }
}

fn find_runnable(target: &Target, from: usize) -> (first: usize)
    requires
        from <= target.actions.len(),
    ensures
        first == next_runnable(target@.actions, from as nat),
        from <= first <= target.actions.len(),
{
    let mut i: usize = from;
    while i < target.actions.len() && target.actions[i].repeat_times == 0
        invariant
            from <= i <= target.actions.len(),
            next_runnable(target@.actions, i as nat) == next_runnable(target@.actions, from as nat),
        decreases target.actions.len() - i,
    {
        i += 1;
    }
    i
}

impl Escalation {
    /// Begins the escalation of `target` for one cycle. `known_up` says
    /// whether the target was believed healthy when the cycle began.
    pub fn start(target: &Target, known_up: bool) -> (run: Escalation)
        ensures
            run@ == EscalationView::start(known_up),
            run@.wf(target@),
    {
        proof {
            lemma_target_fits(*target);
        }
        Escalation {
            known_up,
            stage: Stage::Probing { round: Round::Baseline, attempt: 0 },
            status: ServerStatus::unknown(),
            last_action_output: None,
        }
    }

    /// Whether the target was believed healthy when the cycle began.
    pub fn known_up(&self) -> (known_up: bool)
        ensures
            known_up == self@.known_up,
    {
        self.known_up
    }

    /// Where the escalation stands.
    pub fn stage(&self) -> (stage: Stage)
        ensures
            stage == self@.stage,
    {
        self.stage
    }

    /// What the latest probe attempt found.
    pub fn status(&self) -> (status: &ServerStatus)
        ensures
            status@ == self@.status,
    {
        &self.status
    }

    /// The report on the latest run of a remediation step, if one ran.
    pub fn last_action_output(&self) -> (report: &Option<String>)
        ensures
            report.deep_view() == self@.last_action_output,
    {
        &self.last_action_output
    }

    /// Whether the cycle is over for this target.
    pub fn is_finished(&self) -> (finished: bool)
        ensures
            finished == self@.finished(),
    {
        match self.stage {
            Stage::Finished => true,
            _ => false,
        }
    }

    /// Whether the latest probe attempt found the target healthy. Once the
    /// escalation has finished, this is how the target ends the cycle.
    pub fn is_up(&self) -> (up: bool)
        ensures
            up == self@.is_up(),
    {
        self.status.overall_ok
    }

    /// What the driver is to do next, or `None` once the escalation has
    /// finished.
    pub fn request(&self, target: &Target) -> (request: Option<Request>)
        requires
            self@.wf(target@),
        ensures
            match request {
                Some(r) => self@.request(target@) == Some(r@),
                None => self@.request(target@) is None,
            },
    {
        match self.stage {
            Stage::Probing { .. } => Some(
                Request::Probe { url: target.watch_url.clone(), timeout_secs: target.timeout_secs },
            ),
            Stage::Pausing { .. } => Some(Request::Wait { secs: target.wait_between_tries_secs }),
            Stage::Announcing { action } => Some(
                Request::Notify {
                    notice: Notice::WillTakeAction { action },
                    message: make_message_will_take_action(
                        target,
                        action,
                        &self.status,
                        &self.last_action_output,
                    ),
                    recipients: build_mail_recipients(&target.recipients),
                },
            ),
            Stage::Acting { action, .. } => Some(
                Request::Run { action, mechanism: target.actions[action].typespecific.clone() },
            ),
            Stage::Settling { action, .. } => Some(
                Request::Wait { secs: target.actions[action].wait_afterwards_secs },
            ),
            Stage::Alerting => Some(
                Request::Notify {
                    notice: Notice::ActionsExhausted,
                    message: make_message_actions_exhausted(target, &self.status),
                    recipients: build_mail_recipients(&target.recipients),
                },
            ),
            Stage::Relieving => Some(
                Request::Notify {
                    notice: Notice::UpAgain,
                    message: make_message_target_up_again(target),
                    recipients: build_mail_recipients(&target.recipients),
                },
            ),
            Stage::Finished => None,
        }
    }

    fn conclude(&mut self)
        ensures
            final(self)@ == old(self)@.conclude(),
    {
        self.stage = if self.status.overall_ok {
            if self.known_up {
                Stage::Finished
            } else {
                Stage::Relieving
            }
        } else {
            if self.known_up {
                Stage::Alerting
            } else {
                Stage::Finished
            }
        };
    }

    fn enter_action(&mut self, target: &Target, action: usize)
        requires
            action <= target.actions.len(),
        ensures
            final(self)@ == old(self)@.enter_action(target@, action as nat),
    {
        if self.known_up {
            if action < target.actions.len() {
                self.stage = Stage::Announcing { action };
            } else {
                self.conclude();
            }
        } else {
            let first = find_runnable(target, action);
            if first < target.actions.len() {
                self.stage = Stage::Acting { action: first, repeat: 0 };
            } else {
                self.conclude();
            }
        }
    }

    fn enter_repeat(&mut self, target: &Target, action: usize, repeat: u16)
        requires
            action < target.actions.len(),
        ensures
            final(self)@ == old(self)@.enter_repeat(target@, action as nat, repeat as nat),
    {
        if repeat < target.actions[action].repeat_times {
            self.stage = Stage::Acting { action, repeat };
        } else {
            self.enter_action(target, action + 1);
        }
    }

    fn close_round(&mut self, target: &Target, round: Round)
        requires
            round.fits(target@),
        ensures
            final(self)@ == old(self)@.close_round(target@, round),
    {
        if self.status.overall_ok {
            self.conclude();
        } else {
            match round {
                Round::Baseline => self.enter_action(target, 0),
                Round::Recheck { action, repeat } => self.enter_repeat(target, action, repeat + 1),
            }
        }
    }

    /// Takes in what the driver reports and moves on to the next request.
    /// An event that does not answer the pending request changes nothing.
    pub fn advance(&mut self, target: &Target, event: Event)
        requires
            old(self)@.wf(target@),
        ensures
            final(self)@ == old(self)@.next(target@, event@),
            final(self)@.wf(target@),
    {
        proof {
            lemma_next_keeps_wf(self@, target@, event@);
        }
        match self.stage {
            Stage::Probing { round, attempt } => match event {
                Event::Probed(Ok(status)) => {
                    let healthy = status.overall_ok;
                    self.status = status;
                    if healthy {
                        self.close_round(target, round);
                    } else {
                        self.stage = Stage::Pausing { round, attempt };
                    }
                },
                Event::Probed(Err(error)) => {
                    self.status = ServerStatus::unreachable(error.as_str());
                    self.stage = Stage::Pausing { round, attempt };
                },
                _ => {},
            },
            Stage::Pausing { round, attempt } => match event {
                Event::Completed => {
                    if attempt + 1 < target.tries() {
                        self.stage = Stage::Probing { round, attempt: attempt + 1 };
                    } else {
                        self.close_round(target, round);
                    }
                },
                _ => {},
            },
            Stage::Announcing { action } => match event {
                Event::Completed => self.enter_repeat(target, action, 0),
                _ => {},
            },
            Stage::Acting { action, repeat } => match event {
                Event::ActionRan(outcome) => {
                    self.last_action_output = Some(
                        run_spefice_action(&target.actions[action], &outcome),
                    );
                    self.stage = Stage::Settling { action, repeat };
                },
                _ => {},
            },
            Stage::Settling { action, repeat } => match event {
                Event::Completed => {
                    self.stage = Stage::Probing {
                        round: Round::Recheck { action, repeat },
                        attempt: 0,
                    };
                },
                _ => {},
            },
            Stage::Alerting => match event {
                Event::Completed => {
                    self.stage = Stage::Finished;
                },
                _ => {},
            },
            Stage::Relieving => match event {
                Event::Completed => {
                    self.stage = Stage::Finished;
                },
                _ => {},
            },
            Stage::Finished => {},
        }
    }
}

} // verus!
