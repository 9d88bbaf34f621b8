//! What the monitor does over any number of cycles: the chronicle of the
//! notifications and alerts that were sent, and what holds of every
//! chronicle.

use vstd::prelude::*;
use crate::escalation::{lemma_next_keeps_wf, EscalationView};
use crate::messages::{config_alert_message, mail_recipients, MailMessageView};
use crate::monitor::{lemma_monitor_next_keeps_wf, MonitorView, PhaseView};
use crate::protocol::{CommandView, EventView, Notice, RequestView};

verus! {

/// A monitor together with what the driver has sent for it so far.
pub struct Chronicle {
    pub state: MonitorView,
    /// The notifications that were sent to the recipients of targets, oldest
    /// first, each with the place of its target in the configuration.
    pub notices: Seq<(usize, Notice)>,
    /// The alerts that were sent to the administrators, oldest first.
    pub alerts: Seq<MailMessageView>,
}

/// Whether every configuration that `events` bring fits, as every
/// configuration in memory does.
pub open spec fn configs_fit(events: Seq<EventView>) -> bool {
    forall|i: int|
        0 <= i < events.len() ==> ((#[trigger] events[i]) matches EventView::ConfigRead(
            Ok(config),
        ) ==> config.fits())
}

/// The notifications among `notices` that closed a cycle of target number
/// `target`: the reports that its plan was exhausted or that it is up again,
/// oldest first.
pub open spec fn closings(notices: Seq<(usize, Notice)>, target: usize) -> Seq<Notice>
    decreases notices.len(),
{
    if notices.len() == 0 {
        Seq::empty()
    } else {
        let earlier = closings(notices.drop_last(), target);
        let (place, notice) = notices.last();
        if place == target && !(notice is WillTakeAction) {
            earlier.push(notice)
        } else {
            earlier
        }
    }
}

/// Whether the reports that a plan was exhausted and that the target is up
/// again take turns, beginning with the former.
pub open spec fn alternating(closings: Seq<Notice>) -> bool {
    forall|k: int|
        0 <= k < closings.len() ==> #[trigger] closings[k] == if k % 2 == 0 {
            Notice::ActionsExhausted
        } else {
            Notice::UpAgain
        }
}

impl MonitorView {
    /// The notification for a target's recipients that is due in this state,
    /// with the place of the target, if one is due.
    pub open spec fn due_notice(self) -> Option<(usize, Notice)> {
        match self.phase {
            PhaseView::Watching { target, run } => match run.request(
                self.config->0.targets[target as int],
            ) {
                Some(RequestView::Notify { notice, .. }) => Some((target, notice)),
                _ => None,
            },
            _ => None,
        }
    }

    /// Whether `event` reports a failed probe of target number `target`.
    pub open spec fn sees_failure_of(self, target: usize, event: EventView) -> bool {
        self.phase matches PhaseView::Watching { target: place, .. } && place == target
            && event.is_failed_probe()
    }

    /// Whether `event` reports a probe that found target number `target`
    /// healthy.
    pub open spec fn sees_health_of(self, target: usize, event: EventView) -> bool {
        self.phase matches PhaseView::Watching { target: place, .. } && place == target
            && event.is_healthy_probe()
    }

    /// Whether target number `target` is believed healthy and nothing is
    /// known against it: if its escalation is under way, no probe has
    /// answered yet.
    pub open spec fn calm_on(self, target: usize) -> bool {
        &&& self.wf()
        &&& self.known_up(target)
        &&& self.phase matches PhaseView::Watching { target: place, run } ==> place == target
            ==> run == EscalationView::start(true)
    }

    /// Whether target number `target` is known to be down and nothing speaks
    /// for it: if its escalation is under way, no probe has found it healthy.
    pub open spec fn muted_on(self, target: usize) -> bool {
        &&& self.wf()
        &&& !self.known_up(target)
        &&& self.phase matches PhaseView::Watching { target: place, run } ==> place == target
            ==> !run.is_up()
    }
}

impl Chronicle {
    /// The chronicle of a monitor at process start.
    pub open spec fn begin(config_path: Seq<char>) -> Chronicle {
        Chronicle::of(MonitorView::boot(config_path))
    }

    /// The empty chronicle of a monitor in a given state.
    pub open spec fn of(state: MonitorView) -> Chronicle {
        Chronicle { state, notices: Seq::empty(), alerts: Seq::empty() }
    }

    /// The chronicle after `event` was reported: a message counts as sent
    /// when the driver reports the end of that command.
    pub open spec fn record(self, event: EventView) -> Chronicle {
        Chronicle {
            state: self.state.next(event),
            notices: match self.state.due_notice() {
                Some(entry) => if event is Completed {
                    self.notices.push(entry)
                } else {
                    self.notices
                },
                None => self.notices,
            },
            alerts: match self.state.phase {
                PhaseView::Warning { alert } => if event is Completed {
                    self.alerts.push(alert)
                } else {
                    self.alerts
                },
                _ => self.alerts,
            },
        }
    }

    /// The chronicle after `events` were reported one after the other.
    pub open spec fn replay(self, events: Seq<EventView>) -> Chronicle
        decreases events.len(),
    {
        if events.len() == 0 {
            self
        } else {
            self.replay(events.drop_last()).record(events.last())
        }
    }

    /// Whether none of `events` reports a failed probe of target number
    /// `target`.
    pub open spec fn spares(self, events: Seq<EventView>, target: usize) -> bool
        decreases events.len(),
    {
        if events.len() == 0 {
            true
        } else {
            &&& self.spares(events.drop_last(), target)
            &&& !self.replay(events.drop_last()).state.sees_failure_of(target, events.last())
        }
    }

    /// Whether none of `events` reports a probe that found target number
    /// `target` healthy.
    pub open spec fn denies(self, events: Seq<EventView>, target: usize) -> bool
        decreases events.len(),
    {
        if events.len() == 0 {
            true
        } else {
            &&& self.denies(events.drop_last(), target)
            &&& !self.replay(events.drop_last()).state.sees_health_of(target, events.last())
        }
    }

    /// Whether no notification of the chronicle went to the recipients of
    /// target number `target`.
    pub open spec fn silent_on(self, target: usize) -> bool {
        forall|k: int| 0 <= k < self.notices.len() ==> (#[trigger] self.notices[k]).0 != target
    }

    /// What holds of a target in the chronicle of every monitor: the reports
    /// that close its cycles take turns, and it is known to be down exactly
    /// while the latest of them says that its plan was exhausted.
    pub open spec fn balanced_on(self, target: usize) -> bool {
        let closed = closings(self.notices, target);
        &&& self.state.wf()
        &&& alternating(closed)
        &&& self.state.known_down.contains(target) <==> closed.len() % 2 == 1
    }
}

proof fn lemma_closings_push(notices: Seq<(usize, Notice)>, entry: (usize, Notice), target: usize)
    ensures
        closings(notices.push(entry), target) == if entry.0 == target && !(entry.1
            is WillTakeAction) {
            closings(notices, target).push(entry.1)
        } else {
            closings(notices, target)
        },
{
    assert(notices.push(entry).drop_last() =~= notices);
}

proof fn lemma_record_keeps_balanced(chronicle: Chronicle, event: EventView, target: usize)
    requires
        chronicle.balanced_on(target),
        event matches EventView::ConfigRead(Ok(config)) ==> config.fits(),
    ensures
        chronicle.record(event).balanced_on(target),
{
    let state = chronicle.state;
    lemma_monitor_next_keeps_wf(state, event);
    match state.phase {
        PhaseView::Watching { target: place, run } => {
            let watched = state.config->0.targets[place as int];
            lemma_next_keeps_wf(run, watched, event);
            match state.due_notice() {
                Some(entry) => {
                    if event is Completed {
                        lemma_closings_push(chronicle.notices, entry, target);
                    }
                },
                None => {},
            }
        },
        _ => {},
    }
}

proof fn lemma_earlier_configs_fit(events: Seq<EventView>)
    requires
        configs_fit(events),
        events.len() > 0,
    ensures
        configs_fit(events.drop_last()),
        events.last() matches EventView::ConfigRead(Ok(config)) ==> config.fits(),
{
    let earlier = events.drop_last();
    assert forall|i: int| 0 <= i < earlier.len() implies ((#[trigger] earlier[i]) matches EventView::ConfigRead(
        Ok(config),
    ) ==> config.fits()) by {
        assert(earlier[i] == events[i]);
    }
    assert(events.last() == events[events.len() - 1]);
}

proof fn lemma_record_keeps_calm(chronicle: Chronicle, event: EventView, target: usize)
    requires
        chronicle.state.calm_on(target),
        chronicle.silent_on(target),
        !chronicle.state.sees_failure_of(target, event),
        event matches EventView::ConfigRead(Ok(config)) ==> config.fits(),
    ensures
        chronicle.record(event).state.calm_on(target),
        chronicle.record(event).silent_on(target),
{
    let state = chronicle.state;
    lemma_monitor_next_keeps_wf(state, event);
    match state.phase {
        PhaseView::Watching { target: place, run } => {
            let watched = state.config->0.targets[place as int];
            lemma_next_keeps_wf(run, watched, event);
        },
        _ => {},
    }
}

proof fn lemma_record_keeps_muted(chronicle: Chronicle, event: EventView, target: usize)
    requires
        chronicle.state.muted_on(target),
        chronicle.silent_on(target),
        !chronicle.state.sees_health_of(target, event),
        event matches EventView::ConfigRead(Ok(config)) ==> config.fits(),
    ensures
        chronicle.record(event).state.muted_on(target),
        chronicle.record(event).silent_on(target),
{
    let state = chronicle.state;
    lemma_monitor_next_keeps_wf(state, event);
    match state.phase {
        PhaseView::Watching { target: place, run } => {
            let watched = state.config->0.targets[place as int];
            lemma_next_keeps_wf(run, watched, event);
        },
        _ => {},
    }
}

/// A configuration file that is rejected while an earlier configuration is
/// held does not stop the monitor and costs one cycle: the administrators of
/// the configuration held get exactly one alert, over its mail transport,
/// that names the file and the reason; no target is probed, remediated or
/// notified; the monitor rests for the poll interval of the configuration
/// held; and it then reads the file again, with the configuration and the
/// beliefs about the targets as they were.
pub proof fn law_rejected_config_costs_one_cycle(monitor: MonitorView, error: Seq<char>)
    requires
        monitor.wf(),
        monitor.phase is Loading,
        monitor.config is Some,
    ensures
        ({
            let config = monitor.config->0;
            let alert = config_alert_message(monitor.config_path, error);
            let warned = Chronicle::of(monitor).record(EventView::ConfigRead(Err(error)));
            let resting = warned.record(EventView::Completed);
            let again = resting.record(EventView::Completed);
            &&& warned.state.command() == CommandView::SendMail {
                transport: config.send_mail,
                message: alert,
                recipients: mail_recipients(config.admin_recipients),
            }
            &&& resting.state.command() == CommandView::Wait { secs: config.watch_intervall_secs }
            &&& again.state == monitor
            &&& again.alerts == seq![alert]
            &&& again.notices == Seq::<(usize, Notice)>::empty()
        }),
{
    let alert = config_alert_message(monitor.config_path, error);
    let warned = Chronicle::of(monitor).record(EventView::ConfigRead(Err(error)));
    let resting = warned.record(EventView::Completed);
    let again = resting.record(EventView::Completed);
    assert(again.alerts =~= seq![alert]);
}

/// Without a configuration there is nothing to monitor: if the first
/// configuration file is rejected, the monitor halts, and stays halted
/// whatever is reported to it.
pub proof fn law_first_config_must_load(
    config_path: Seq<char>,
    error: Seq<char>,
    events: Seq<EventView>,
)
    ensures
        ({
            let halted = Chronicle::begin(config_path).record(EventView::ConfigRead(Err(error)));
            &&& halted.state.phase is Halted
            &&& halted.replay(events) == halted
            &&& halted.state.command() == CommandView::Halt
        }),
    decreases events.len(),
{
    if events.len() > 0 {
        law_first_config_must_load(config_path, error, events.drop_last());
    }
}

/// A target that is believed healthy, and against which nothing is known,
/// is left alone for as long as it fails no probe: over any number of cycles,
/// and whatever happens to the configuration and to the other targets, its
/// recipients get no notification and it is never counted as down.
pub proof fn law_calm_target_stays_quiet(
    monitor: MonitorView,
    events: Seq<EventView>,
    target: usize,
)
    requires
        monitor.calm_on(target),
        configs_fit(events),
        Chronicle::of(monitor).spares(events, target),
    ensures
        Chronicle::of(monitor).replay(events).silent_on(target),
        Chronicle::of(monitor).replay(events).state.calm_on(target),
    decreases events.len(),
{
    if events.len() > 0 {
        lemma_earlier_configs_fit(events);
        law_calm_target_stays_quiet(monitor, events.drop_last(), target);
        lemma_record_keeps_calm(
            Chronicle::of(monitor).replay(events.drop_last()),
            events.last(),
            target,
        );
    }
}

/// A target that never fails a probe is never notified and never counted as
/// down, from the start of the process on.
pub proof fn law_healthy_target_stays_quiet(
    config_path: Seq<char>,
    events: Seq<EventView>,
    target: usize,
)
    requires
        configs_fit(events),
        Chronicle::begin(config_path).spares(events, target),
    ensures
        Chronicle::begin(config_path).replay(events).silent_on(target),
        !Chronicle::begin(config_path).replay(events).state.known_down.contains(target),
{
    law_calm_target_stays_quiet(MonitorView::boot(config_path), events, target);
}

/// A recovery is reported once: after the notification that a target is up
/// again has been sent, its recipients get no further notification, over any
/// number of cycles, until the target fails a probe again.
pub proof fn law_recovery_is_reported_once(
    monitor: MonitorView,
    events: Seq<EventView>,
    target: usize,
)
    requires
        monitor.wf(),
        monitor.due_notice() == Some((target, Notice::UpAgain)),
        configs_fit(events),
        Chronicle::of(monitor.next(EventView::Completed)).spares(events, target),
    ensures
        monitor.next(EventView::Completed).known_up(target),
        Chronicle::of(monitor.next(EventView::Completed)).replay(events).silent_on(target),
{
    let told = monitor.next(EventView::Completed);
    lemma_monitor_next_keeps_wf(monitor, EventView::Completed);
    law_calm_target_stays_quiet(told, events, target);
}

/// An outage is reported once: after the notification that a target's plan
/// is exhausted has been sent, its recipients get no further notification,
/// over any number of cycles, for as long as no probe finds the target
/// healthy; the plan is run again in every cycle, without a word.
pub proof fn law_outage_is_reported_once(
    monitor: MonitorView,
    events: Seq<EventView>,
    target: usize,
)
    requires
        monitor.wf(),
        monitor.due_notice() == Some((target, Notice::ActionsExhausted)),
        configs_fit(events),
        Chronicle::of(monitor.next(EventView::Completed)).denies(events, target),
    ensures
        Chronicle::of(monitor.next(EventView::Completed)).replay(events).silent_on(target),
        Chronicle::of(monitor.next(EventView::Completed)).replay(events).state.muted_on(target),
    decreases events.len(),
{
    let told = monitor.next(EventView::Completed);
    lemma_monitor_next_keeps_wf(monitor, EventView::Completed);
    if events.len() > 0 {
        lemma_earlier_configs_fit(events);
        law_outage_is_reported_once(monitor, events.drop_last(), target);
        lemma_record_keeps_muted(
            Chronicle::of(told).replay(events.drop_last()),
            events.last(),
            target,
        );
    }
}

/// Over any number of cycles, the reports that close the cycles of a target
/// take turns: its plan is reported as exhausted, then it is reported as up
/// again, and so on. So an outage is reported as exhausted once, however
/// many cycles it lasts, and a recovery is reported once, however many
/// healthy cycles follow, until the target fails again. The target is known
/// to be down exactly while the latest of these reports is that of an
/// exhausted plan.
pub proof fn law_closing_notices_alternate(
    config_path: Seq<char>,
    events: Seq<EventView>,
    target: usize,
)
    requires
        configs_fit(events),
    ensures
        Chronicle::begin(config_path).replay(events).balanced_on(target),
    decreases events.len(),
{
    if events.len() > 0 {
        let earlier = events.drop_last();
        lemma_earlier_configs_fit(events);
        law_closing_notices_alternate(config_path, earlier, target);
        lemma_record_keeps_balanced(
            Chronicle::begin(config_path).replay(earlier),
            events.last(),
            target,
        );
    }
}

} // verus!
