//! What an escalation does over a whole cycle: the journal of the
//! notifications that were sent and the remediation steps that were run, and
//! what holds of every journal.

use vstd::prelude::*;
use crate::config::{ActionView, TargetView};
use crate::escalation::{
    lemma_next_keeps_wf, lemma_next_runnable_bounds, next_runnable, EscalationView, Round, Stage,
};
use crate::protocol::{EventView, Notice, RequestView};
use crate::status::ServerStatusView;

verus! {

/// An escalation together with what the driver has carried out for it so far.
pub struct Journal {
    pub state: EscalationView,
    /// The notifications that were sent, oldest first.
    pub notices: Seq<Notice>,
    /// The remediation steps that were run, by their place in the plan,
    /// oldest first.
    pub runs: Seq<usize>,
}

/// Whether `event` is the kind of report that `request` is answered with.
pub open spec fn answers(request: RequestView, event: EventView) -> bool {
    match request {
        RequestView::Probe { .. } => event is Probed,
        RequestView::Wait { .. } => event is Completed,
        RequestView::Notify { .. } => event is Completed,
        RequestView::Run { .. } => event is ActionRan,
    }
}

/// The announcements of the first `count` steps of a plan, in order.
pub open spec fn announcements(count: nat) -> Seq<Notice>
    decreases count,
{
    if count == 0 {
        Seq::empty()
    } else {
        announcements((count - 1) as nat).push(
            Notice::WillTakeAction { action: (count - 1) as usize },
        )
    }
}

/// The announcements that a target gets up to step `count`: all of them if it
/// was believed healthy, none if it was known to be down.
pub open spec fn heralds(known_up: bool, count: nat) -> Seq<Notice> {
    if known_up {
        announcements(count)
    } else {
        Seq::empty()
    }
}

/// The runs of a plan up to the point where the steps before `action` were
/// run as often as they are configured to, and step `action` was run
/// `repeats` times.
pub open spec fn plan_through(actions: Seq<ActionView>, action: nat, repeats: nat) -> Seq<usize>
    decreases action, repeats,
{
    if repeats > 0 {
        plan_through(actions, action, (repeats - 1) as nat).push(action as usize)
    } else if action > 0 {
        plan_through(actions, (action - 1) as nat, actions[action - 1].repeat_times as nat)
    } else {
        Seq::empty()
    }
}

/// The runs of a whole plan: every step in order, each as often as it is
/// configured to be repeated.
pub open spec fn whole_plan(actions: Seq<ActionView>) -> Seq<usize> {
    plan_through(actions, actions.len(), 0)
}

/// How often `wanted` occurs among `notices`.
pub open spec fn count(notices: Seq<Notice>, wanted: Notice) -> nat
    decreases notices.len(),
{
    if notices.len() == 0 {
        0
    } else {
        count(notices.drop_last(), wanted) + if notices.last() == wanted {
            1nat
        } else {
            0nat
        }
    }
}

/// The status that a probe's answer amounts to.
pub open spec fn status_of(answer: Result<ServerStatusView, Seq<char>>) -> ServerStatusView {
    match answer {
        Ok(status) => status,
        Err(error) => ServerStatusView::unreachable(error),
    }
}

/// The status of the latest probe among `events`; the unknown status where
/// there was none.
pub open spec fn last_answer(events: Seq<EventView>) -> ServerStatusView
    decreases events.len(),
{
    if events.len() == 0 {
        ServerStatusView::unknown()
    } else {
        match events.last() {
            EventView::Probed(answer) => status_of(answer),
            _ => last_answer(events.drop_last()),
        }
    }
}

impl Journal {
    /// The journal of an escalation that is about to begin.
    pub open spec fn begin(known_up: bool) -> Journal {
        Journal {
            state: EscalationView::start(known_up),
            notices: Seq::empty(),
            runs: Seq::empty(),
        }
    }

    /// The same journal with the escalation in another state.
    pub open spec fn moved(self, state: EscalationView) -> Journal {
        Journal { state, ..self }
    }

    /// The journal after `event` was reported: a notification counts as sent,
    /// and a step as run, when the driver reports the end of that request.
    pub open spec fn record(self, target: TargetView, event: EventView) -> Journal {
        Journal {
            state: self.state.next(target, event),
            notices: match self.state.request(target) {
                Some(RequestView::Notify { notice, .. }) => if event is Completed {
                    self.notices.push(notice)
                } else {
                    self.notices
                },
                _ => self.notices,
            },
            runs: match self.state.request(target) {
                Some(RequestView::Run { action, .. }) => if event is ActionRan {
                    self.runs.push(action)
                } else {
                    self.runs
                },
                _ => self.runs,
            },
        }
    }

    /// The journal after `events` were reported one after the other.
    pub open spec fn replay(self, target: TargetView, events: Seq<EventView>) -> Journal
        decreases events.len(),
    {
        if events.len() == 0 {
            self
        } else {
            self.replay(target, events.drop_last()).record(target, events.last())
        }
    }

    /// Whether each of `events` answers the request that was pending when it
    /// was reported, as the events of a driver that does what it is asked do.
    pub open spec fn in_step(self, target: TargetView, events: Seq<EventView>) -> bool
        decreases events.len(),
    {
        if events.len() == 0 {
            true
        } else {
            &&& self.in_step(target, events.drop_last())
            &&& match self.replay(target, events.drop_last()).state.request(target) {
                Some(request) => answers(request, events.last()),
                None => false,
            }
        }
    }

    /// What holds of the journal of every escalation, at every point of the
    /// cycle: how far the plan was walked decides what was sent and run.
    pub open spec fn consistent(self, target: TargetView) -> bool {
        let state = self.state;
        let plan = target.actions;
        &&& state.wf(target)
        &&& count(self.notices, Notice::ActionsExhausted) == if state.finished() && state.known_up
            && !state.is_up() {
            1nat
        } else {
            0nat
        }
        &&& count(self.notices, Notice::UpAgain) == if state.finished() && !state.known_up
            && state.is_up() {
            1nat
        } else {
            0nat
        }
        &&& !state.known_up ==> forall|i: int|
            0 <= i < self.notices.len() ==> self.notices[i] == Notice::UpAgain
        &&& match state.stage {
            Stage::Probing { round, .. } => self.at_round(target, round),
            Stage::Pausing { round, .. } => self.at_round(target, round),
            Stage::Announcing { action } => {
                &&& self.notices == announcements(action as nat)
                &&& self.runs == plan_through(plan, action as nat, 0)
            },
            Stage::Acting { action, repeat } => {
                &&& self.notices == heralds(state.known_up, action as nat + 1)
                &&& self.runs == plan_through(plan, action as nat, repeat as nat)
            },
            Stage::Settling { action, repeat } => {
                &&& self.notices == heralds(state.known_up, action as nat + 1)
                &&& self.runs == plan_through(plan, action as nat, repeat as nat + 1)
            },
            Stage::Alerting => {
                &&& self.notices == announcements(plan.len())
                &&& self.runs == whole_plan(plan)
            },
            Stage::Relieving => true,
            Stage::Finished => !state.is_up() ==> {
                &&& self.runs == whole_plan(plan)
                &&& self.notices == if state.known_up {
                    announcements(plan.len()).push(Notice::ActionsExhausted)
                } else {
                    Seq::empty()
                }
            },
        }
    }

    /// What was sent and run by the time a probe round is under way.
    pub open spec fn at_round(self, target: TargetView, round: Round) -> bool {
        match round {
            Round::Baseline => self.notices == Seq::<Notice>::empty() && self.runs == Seq::<
                usize,
            >::empty(),
            Round::Recheck { action, repeat } => {
                &&& self.notices == heralds(self.state.known_up, action as nat + 1)
                &&& self.runs == plan_through(target.actions, action as nat, repeat as nat + 1)
            },
        }
    }
}

proof fn lemma_count_push(notices: Seq<Notice>, notice: Notice, wanted: Notice)
    ensures
        count(notices.push(notice), wanted) == count(notices, wanted) + if notice == wanted {
            1nat
        } else {
            0nat
        },
{
    assert(notices.push(notice).drop_last() =~= notices);
}

proof fn lemma_announcements(n: nat)
    ensures
        announcements(n).len() == n,
        count(announcements(n), Notice::ActionsExhausted) == 0,
        count(announcements(n), Notice::UpAgain) == 0,
    decreases n,
{
    if n > 0 {
        lemma_announcements((n - 1) as nat);
        let last = Notice::WillTakeAction { action: (n - 1) as usize };
        lemma_count_push(announcements((n - 1) as nat), last, Notice::ActionsExhausted);
        lemma_count_push(announcements((n - 1) as nat), last, Notice::UpAgain);
    }
}

proof fn lemma_skipped_steps_add_nothing(actions: Seq<ActionView>, from: nat)
    requires
        from <= actions.len(),
    ensures
        plan_through(actions, next_runnable(actions, from), 0) == plan_through(actions, from, 0),
    decreases actions.len() - from,
{
    if from < actions.len() && actions[from as int].repeat_times == 0 {
        lemma_skipped_steps_add_nothing(actions, from + 1);
    }
}

/// What is sent and run when the escalation turns to step `action` while the
/// target is down.
proof fn lemma_enter_action_consistent(journal: Journal, target: TargetView, action: nat)
    requires
        target.fits(),
        action <= target.actions.len(),
        !journal.state.status.overall_ok,
        journal.notices == heralds(journal.state.known_up, action),
        journal.runs == plan_through(target.actions, action, 0),
    ensures
        journal.moved(journal.state.enter_action(target, action)).consistent(target),
{
    let plan = target.actions;
    crate::escalation::lemma_enter_action_keeps_wf(journal.state, target, action);
    lemma_next_runnable_bounds(plan, action);
    lemma_skipped_steps_add_nothing(plan, action);
    lemma_announcements(action);
    lemma_announcements(plan.len());
    let first = next_runnable(plan, action);
    if !journal.state.known_up && first < plan.len() {
        assert(heralds(false, first + 1) == heralds(false, action));
    }
}

/// What is sent and run when the escalation turns to run number `repeat` of
/// step `action` while the target is down.
proof fn lemma_enter_repeat_consistent(
    journal: Journal,
    target: TargetView,
    action: nat,
    repeat: nat,
)
    requires
        target.fits(),
        action < target.actions.len(),
        repeat <= target.actions[action as int].repeat_times,
        !journal.state.status.overall_ok,
        journal.notices == heralds(journal.state.known_up, action + 1),
        journal.runs == plan_through(target.actions, action, repeat),
    ensures
        journal.moved(journal.state.enter_repeat(target, action, repeat)).consistent(target),
{
    let plan = target.actions;
    lemma_announcements(action + 1);
    if repeat < plan[action as int].repeat_times {
        assert(journal.state.at(
            Stage::Acting { action: action as usize, repeat: repeat as u16 },
        ).wf(target));
    } else {
        assert(plan_through(plan, action + 1, 0) == plan_through(plan, action, repeat));
        lemma_enter_action_consistent(journal, target, action + 1);
    }
}

/// What is sent and run when a probe round is closed.
proof fn lemma_close_round_consistent(journal: Journal, target: TargetView, round: Round)
    requires
        target.fits(),
        round.fits(target),
        journal.at_round(target, round),
        !journal.state.known_up ==> forall|i: int|
            0 <= i < journal.notices.len() ==> journal.notices[i] == Notice::UpAgain,
    ensures
        journal.moved(journal.state.close_round(target, round)).consistent(target),
{
    let plan = target.actions;
    crate::escalation::lemma_close_round_keeps_wf(journal.state, target, round);
    match round {
        Round::Baseline => {
            if !journal.state.status.overall_ok {
                lemma_enter_action_consistent(journal, target, 0);
            }
        },
        Round::Recheck { action, repeat } => {
            lemma_announcements(action as nat + 1);
            if !journal.state.status.overall_ok {
                lemma_enter_repeat_consistent(journal, target, action as nat, repeat as nat + 1);
            }
        },
    }
}

/// Every event leaves the journal of an escalation consistent.
pub proof fn lemma_record_keeps_consistent(journal: Journal, target: TargetView, event: EventView)
    requires
        journal.consistent(target),
    ensures
        journal.record(target, event).consistent(target),
{
    let state = journal.state;
    let plan = target.actions;
    lemma_next_keeps_wf(state, target, event);
    match state.stage {
        Stage::Probing { round, attempt } => {
            if let EventView::Probed(Ok(status)) = event {
                if status.overall_ok {
                    let seen = Journal { state: EscalationView { status, ..state }, ..journal };
                    lemma_close_round_consistent(seen, target, round);
                }
            }
        },
        Stage::Pausing { round, attempt } => {
            if event is Completed && attempt + 1 >= target.tries() {
                lemma_close_round_consistent(journal, target, round);
            }
        },
        Stage::Announcing { action } => {
            if event is Completed {
                let notice = Notice::WillTakeAction { action };
                lemma_count_push(journal.notices, notice, Notice::ActionsExhausted);
                lemma_count_push(journal.notices, notice, Notice::UpAgain);
                let sent = Journal { notices: journal.notices.push(notice), ..journal };
                assert(sent.notices == announcements(action as nat + 1));
                lemma_enter_repeat_consistent(sent, target, action as nat, 0);
            }
        },
        Stage::Acting { action, repeat } => {},
        Stage::Settling { action, repeat } => {},
        Stage::Alerting => {
            if event is Completed {
                lemma_announcements(plan.len());
                lemma_count_push(journal.notices, Notice::ActionsExhausted, Notice::ActionsExhausted);
                lemma_count_push(journal.notices, Notice::ActionsExhausted, Notice::UpAgain);
            }
        },
        Stage::Relieving => {
            if event is Completed {
                lemma_count_push(journal.notices, Notice::UpAgain, Notice::ActionsExhausted);
                lemma_count_push(journal.notices, Notice::UpAgain, Notice::UpAgain);
            }
        },
        Stage::Finished => {},
    }
}

/// The journal of an escalation is consistent after any events.
pub proof fn lemma_replay_is_consistent(target: TargetView, known_up: bool, events: Seq<EventView>)
    requires
        target.fits(),
    ensures
        Journal::begin(known_up).replay(target, events).consistent(target),
        Journal::begin(known_up).replay(target, events).state.known_up == known_up,
    decreases events.len(),
{
    if events.len() > 0 {
        lemma_replay_is_consistent(target, known_up, events.drop_last());
        lemma_record_keeps_consistent(
            Journal::begin(known_up).replay(target, events.drop_last()),
            target,
            events.last(),
        );
    }
}

/// A cycle is closed with at most one notification. The plan is reported as
/// exhausted exactly once in a cycle that ends with the target down after it
/// began with the target believed healthy, and never in any other. The target
/// is reported as up again exactly once in a cycle that ends with the target
/// healthy after it began with the target known to be down, and never in any
/// other.
pub proof fn law_cycle_closes_with_one_notice(
    target: TargetView,
    known_up: bool,
    events: Seq<EventView>,
)
    requires
        target.fits(),
    ensures
        ({
            let journal = Journal::begin(known_up).replay(target, events);
            let exhausted = count(journal.notices, Notice::ActionsExhausted);
            let recovered = count(journal.notices, Notice::UpAgain);
            &&& exhausted + recovered <= 1
            &&& exhausted == 1 <==> journal.state.finished() && known_up && !journal.state.is_up()
            &&& recovered == 1 <==> journal.state.finished() && !known_up && journal.state.is_up()
        }),
{
    lemma_replay_is_consistent(target, known_up, events);
}

/// A cycle that ends with the target down has run the whole plan, every step
/// in order and as often as configured. If the target was believed healthy
/// when the cycle began, every step was announced and the plan was then
/// reported as exhausted, and nothing else was sent; if the target was known
/// to be down, nothing was sent at all.
pub proof fn law_cycle_ending_down(target: TargetView, known_up: bool, events: Seq<EventView>)
    requires
        target.fits(),
        Journal::begin(known_up).replay(target, events).state.finished(),
        !Journal::begin(known_up).replay(target, events).state.is_up(),
    ensures
        Journal::begin(known_up).replay(target, events).runs == whole_plan(target.actions),
        known_up ==> Journal::begin(known_up).replay(target, events).notices == announcements(
            target.actions.len(),
        ).push(Notice::ActionsExhausted),
        !known_up ==> Journal::begin(known_up).replay(target, events).notices == Seq::<
            Notice,
        >::empty(),
{
    lemma_replay_is_consistent(target, known_up, events);
}

/// The plan is reported as exhausted only after all of it was run: when that
/// report is due, every step has been announced and run, in order and as
/// often as configured.
pub proof fn law_exhaustion_follows_whole_plan(
    target: TargetView,
    known_up: bool,
    events: Seq<EventView>,
)
    requires
        target.fits(),
        Journal::begin(known_up).replay(target, events).state.stage is Alerting,
    ensures
        Journal::begin(known_up).replay(target, events).runs == whole_plan(target.actions),
        Journal::begin(known_up).replay(target, events).notices == announcements(
            target.actions.len(),
        ),
{
    lemma_replay_is_consistent(target, known_up, events);
}

/// A target that was known to be down when the cycle began is escalated
/// silently: the only notification that it can get is that it is up again.
pub proof fn law_known_down_target_is_escalated_silently(
    target: TargetView,
    events: Seq<EventView>,
)
    requires
        target.fits(),
    ensures
        forall|i: int|
            0 <= i < Journal::begin(false).replay(target, events).notices.len()
                ==> #[trigger] Journal::begin(false).replay(target, events).notices[i]
                == Notice::UpAgain,
{
    lemma_replay_is_consistent(target, false, events);
}

/// A cycle throughout which no probe finds the target healthy ends with the
/// target down and the whole plan run. The plan is reported as exhausted,
/// exactly once, if and only if the target was believed healthy when the
/// cycle began.
pub proof fn law_unbroken_outage(target: TargetView, known_up: bool, events: Seq<EventView>)
    requires
        target.fits(),
        forall|i: int| 0 <= i < events.len() ==> !(#[trigger] events[i]).is_healthy_probe(),
        Journal::begin(known_up).replay(target, events).state.finished(),
    ensures
        !Journal::begin(known_up).replay(target, events).state.is_up(),
        Journal::begin(known_up).replay(target, events).runs == whole_plan(target.actions),
        count(
            Journal::begin(known_up).replay(target, events).notices,
            Notice::ActionsExhausted,
        ) == if known_up {
            1nat
        } else {
            0nat
        },
        count(Journal::begin(known_up).replay(target, events).notices, Notice::UpAgain) == 0,
{
    law_failed_probes_keep_target_down(target, known_up, events);
    law_cycle_ending_down(target, known_up, events);
    law_cycle_closes_with_one_notice(target, known_up, events);
}

/// While no probe finds the target healthy, the target counts as down.
pub proof fn law_failed_probes_keep_target_down(
    target: TargetView,
    known_up: bool,
    events: Seq<EventView>,
)
    requires
        forall|i: int| 0 <= i < events.len() ==> !(#[trigger] events[i]).is_healthy_probe(),
    ensures
        !Journal::begin(known_up).replay(target, events).state.is_up(),
    decreases events.len(),
{
    if events.len() > 0 {
        law_failed_probes_keep_target_down(target, known_up, events.drop_last());
        assert(!events.last().is_healthy_probe());
    }
}

/// A target that is believed healthy and never fails a probe is left alone:
/// nothing is sent, nothing is run, and the cycle ends, after a single probe,
/// with the target healthy.
pub proof fn law_healthy_target_is_left_alone(target: TargetView, events: Seq<EventView>)
    requires
        forall|i: int| 0 <= i < events.len() ==> !(#[trigger] events[i]).is_failed_probe(),
    ensures
        ({
            let journal = Journal::begin(true).replay(target, events);
            &&& journal.notices == Seq::<Notice>::empty()
            &&& journal.runs == Seq::<usize>::empty()
            &&& journal.state.known_up
            &&& journal.state == EscalationView::start(true) || (journal.state.finished()
                && journal.state.is_up())
        }),
    decreases events.len(),
{
    if events.len() > 0 {
        law_healthy_target_is_left_alone(target, events.drop_last());
        assert(!events.last().is_failed_probe());
    }
}

/// The first healthy answer of the baseline round ends the cycle at once:
/// there is no further attempt, no remediation step is run, and the status
/// that was answered is the status of the target.
pub proof fn law_healthy_answer_short_circuits(
    target: TargetView,
    known_up: bool,
    events: Seq<EventView>,
    status: ServerStatusView,
)
    requires
        target.fits(),
        Journal::begin(known_up).replay(target, events).state.stage matches Stage::Probing {
            round: Round::Baseline,
            ..
        },
        status.overall_ok,
    ensures
        ({
            let journal = Journal::begin(known_up).replay(target, events).record(
                target,
                EventView::Probed(Ok(status)),
            );
            &&& journal.state.status == status
            &&& journal.state.is_up()
            &&& journal.runs == Seq::<usize>::empty()
            &&& journal.notices == Seq::<Notice>::empty()
            &&& journal.state.stage == if known_up {
                Stage::Finished
            } else {
                Stage::Relieving
            }
        }),
{
    lemma_replay_is_consistent(target, known_up, events);
}

/// Once a probe has found the target healthy, the escalation is over: no
/// remediation step is run any more, the target stays healthy, and the only
/// thing that may still be sent is the notification that the target is up
/// again, which is sent if and only if the target was known to be down.
pub proof fn law_recovery_ends_escalation(
    target: TargetView,
    known_up: bool,
    before: Seq<EventView>,
    status: ServerStatusView,
    after: Seq<EventView>,
)
    requires
        target.fits(),
        Journal::begin(known_up).replay(target, before).state.stage is Probing,
        status.overall_ok,
    ensures
        ({
            let sick = Journal::begin(known_up).replay(target, before);
            let journal = sick.record(target, EventView::Probed(Ok(status))).replay(target, after);
            &&& journal.runs == sick.runs
            &&& journal.state.status == status
            &&& known_up ==> journal.state.finished() && journal.notices == sick.notices
            &&& !known_up ==> if journal.state.finished() {
                journal.notices == sick.notices.push(Notice::UpAgain)
            } else {
                journal.state.stage is Relieving && journal.notices == sick.notices
            }
        }),
    decreases after.len(),
{
    lemma_replay_is_consistent(target, known_up, before);
    if after.len() > 0 {
        law_recovery_ends_escalation(target, known_up, before, status, after.drop_last());
    }
}

/// A probe round reports its last attempt alone: whenever the driver does
/// what it is asked, the status of the target is that of the latest probe,
/// code and error text as they were reported, whatever earlier attempts found.
pub proof fn law_status_is_last_answer(target: TargetView, known_up: bool, events: Seq<EventView>)
    requires
        Journal::begin(known_up).in_step(target, events),
    ensures
        Journal::begin(known_up).replay(target, events).state.status == last_answer(events),
    decreases events.len(),
{
    if events.len() > 0 {
        law_status_is_last_answer(target, known_up, events.drop_last());
    }
}

/// The events that one repetition of a remediation step takes at most: the
/// run, the wait after it, and a whole probe round with its waits.
pub open spec fn repetition_cost(target: TargetView) -> int {
    2 * target.tries() + 2
}

/// The events that the repetitions of step `action` take at most when `done`
/// of them are over.
pub open spec fn repeats_left(target: TargetView, action: nat, done: nat) -> int {
    (target.actions[action as int].repeat_times - done) * repetition_cost(target)
}

/// The events that the plan takes at most from step `from` on, with the
/// notification that closes the cycle.
pub open spec fn plan_cost(target: TargetView, from: nat) -> int
    decreases target.actions.len() - from,
{
    if from >= target.actions.len() {
        1
    } else {
        1 + repeats_left(target, from, 0) + plan_cost(target, from + 1)
    }
}

/// The events that a whole cycle takes at most.
pub open spec fn cycle_cost(target: TargetView) -> int {
    2 * target.tries() + plan_cost(target, 0)
}

impl EscalationView {
    /// The events that the rest of the cycle takes at most.
    pub open spec fn remaining(self, target: TargetView) -> int {
        match self.stage {
            Stage::Probing { round, attempt } => 2 * (target.tries() - attempt)
                + self.after_round(target, round),
            Stage::Pausing { round, attempt } => 2 * (target.tries() - attempt) - 1
                + self.after_round(target, round),
            Stage::Announcing { action } => plan_cost(target, action as nat),
            Stage::Acting { action, repeat } => repeats_left(target, action as nat, repeat as nat)
                + plan_cost(target, action as nat + 1),
            Stage::Settling { action, repeat } => repeats_left(target, action as nat, repeat as nat)
                - 1 + plan_cost(target, action as nat + 1),
            Stage::Alerting => 1,
            Stage::Relieving => 1,
            Stage::Finished => 0,
        }
    }

    /// The events that the cycle takes at most once `round` has failed.
    pub open spec fn after_round(self, target: TargetView, round: Round) -> int {
        match round {
            Round::Baseline => plan_cost(target, 0),
            Round::Recheck { action, repeat } => repeats_left(
                target,
                action as nat,
                repeat as nat + 1,
            ) + plan_cost(target, action as nat + 1),
        }
    }
}

proof fn lemma_repeats_left(target: TargetView, action: nat, done: nat)
    requires
        done < target.actions[action as int].repeat_times,
    ensures
        repeats_left(target, action, done) == repeats_left(target, action, done + 1)
            + repetition_cost(target),
        repeats_left(target, action, done + 1) >= 0,
{
    let all = target.actions[action as int].repeat_times as int;
    let cost = repetition_cost(target);
    assert((all - done) * cost == (all - (done + 1)) * cost + cost) by (nonlinear_arith);
    assert((all - (done + 1)) * cost >= 0) by (nonlinear_arith)
        requires
            all - (done + 1) >= 0,
            cost >= 0,
    ;
}

proof fn lemma_plan_cost(target: TargetView, from: nat)
    requires
        from <= target.actions.len(),
    ensures
        plan_cost(target, from) >= 1,
        plan_cost(target, next_runnable(target.actions, from)) <= plan_cost(target, from),
    decreases target.actions.len() - from,
{
    if from < target.actions.len() {
        lemma_plan_cost(target, from + 1);
        let all = target.actions[from as int].repeat_times as int;
        let cost = repetition_cost(target);
        assert(all * cost >= 0) by (nonlinear_arith)
            requires
                all >= 0,
                cost >= 0,
        ;
    }
}

/// Turning to step `action` while the target is down leaves less to do than
/// the plan from that step on takes.
proof fn lemma_enter_action_remaining(state: EscalationView, target: TargetView, action: nat)
    requires
        target.fits(),
        action <= target.actions.len(),
        !state.status.overall_ok,
    ensures
        state.enter_action(target, action).remaining(target) <= plan_cost(target, action),
{
    lemma_plan_cost(target, action);
    lemma_next_runnable_bounds(target.actions, action);
    let first = next_runnable(target.actions, action);
    if !state.known_up && first < target.actions.len() {
        lemma_plan_cost(target, first + 1);
    }
}

/// What is left of a cycle never takes less than nothing.
proof fn lemma_remaining_is_natural(state: EscalationView, target: TargetView)
    requires
        state.wf(target),
    ensures
        state.remaining(target) >= 0,
{
    match state.stage {
        Stage::Probing { round, .. } => {
            lemma_after_round_is_natural(state, target, round);
        },
        Stage::Pausing { round, .. } => {
            lemma_after_round_is_natural(state, target, round);
        },
        Stage::Announcing { action } => {
            lemma_plan_cost(target, action as nat);
        },
        Stage::Acting { action, repeat } => {
            lemma_repeats_left(target, action as nat, repeat as nat);
            lemma_plan_cost(target, action as nat + 1);
        },
        Stage::Settling { action, repeat } => {
            lemma_repeats_left(target, action as nat, repeat as nat);
            lemma_plan_cost(target, action as nat + 1);
        },
        _ => {},
    }
}

proof fn lemma_after_round_is_natural(state: EscalationView, target: TargetView, round: Round)
    requires
        target.fits(),
        round.fits(target),
    ensures
        state.after_round(target, round) >= 1,
{
    match round {
        Round::Baseline => {
            lemma_plan_cost(target, 0);
        },
        Round::Recheck { action, repeat } => {
            lemma_repeats_left(target, action as nat, repeat as nat);
            lemma_plan_cost(target, action as nat + 1);
        },
    }
}

/// Every event that answers the pending request brings the end of the cycle
/// nearer.
pub proof fn lemma_answer_brings_end_nearer(
    state: EscalationView,
    target: TargetView,
    event: EventView,
)
    requires
        state.wf(target),
        state.request(target) matches Some(request) && answers(request, event),
    ensures
        state.next(target, event).remaining(target) < state.remaining(target),
{
    let plan = target.actions;
    match state.stage {
        Stage::Probing { round, attempt } => {
            match round {
                Round::Baseline => {
                    lemma_plan_cost(target, 0);
                },
                Round::Recheck { action, repeat } => {
                    lemma_repeats_left(target, action as nat, repeat as nat);
                    lemma_plan_cost(target, action as nat + 1);
                },
            }
        },
        Stage::Pausing { round, attempt } => {
            match round {
                Round::Baseline => {
                    lemma_enter_action_remaining(state, target, 0);
                },
                Round::Recheck { action, repeat } => {
                    lemma_repeats_left(target, action as nat, repeat as nat);
                    lemma_enter_action_remaining(state, target, action as nat + 1);
                },
            }
        },
        Stage::Announcing { action } => {
            lemma_enter_action_remaining(state, target, action as nat + 1);
            lemma_plan_cost(target, action as nat + 1);
        },
        Stage::Acting { action, repeat } => {},
        Stage::Settling { action, repeat } => {
            lemma_repeats_left(target, action as nat, repeat as nat);
        },
        _ => {},
    }
}

/// An escalation comes to an end: whenever the driver does what it is asked,
/// the cycle is over after no more events than its probe rounds, waits,
/// remediation steps and notifications can take together.
pub proof fn law_escalation_comes_to_an_end(
    target: TargetView,
    known_up: bool,
    events: Seq<EventView>,
)
    requires
        target.fits(),
        Journal::begin(known_up).in_step(target, events),
    ensures
        events.len() + Journal::begin(known_up).replay(target, events).state.remaining(target)
            <= cycle_cost(target),
        Journal::begin(known_up).replay(target, events).state.remaining(target) >= 0,
        events.len() <= cycle_cost(target),
    decreases events.len(),
{
    if events.len() > 0 {
        let earlier = events.drop_last();
        law_escalation_comes_to_an_end(target, known_up, earlier);
        lemma_replay_is_consistent(target, known_up, earlier);
        lemma_answer_brings_end_nearer(
            Journal::begin(known_up).replay(target, earlier).state,
            target,
            events.last(),
        );
    }
    lemma_replay_is_consistent(target, known_up, events);
    lemma_remaining_is_natural(Journal::begin(known_up).replay(target, events).state, target);
}

} // verus!
