//! The configuration of the watchdog: mail transport, poll interval, and the
//! ordered list of targets with their remediation plans.

use vstd::prelude::*;

verus! {

/// The whole configuration, as loaded afresh at the start of every cycle.
#[derive(Debug, PartialEq, Eq)]
pub struct ServerHealthConfig {
    pub send_mail: SendMailConfig,
    pub watch_intervall_secs: u64,
    pub admin_recipients: Vec<String>,
    pub targets: Vec<Target>,
}

/// How notifications leave the process.
#[derive(Debug, PartialEq, Eq)]
pub struct SendMailConfig {
    pub mail_address: String,
    pub user_name: String,
    pub smtp_url: String,
    pub password: String,
    pub port: u16,
}

/// One monitored endpoint. The order of `actions` is the order of escalation.
#[derive(Debug, PartialEq, Eq)]
pub struct Target {
    pub informative_name: String,
    pub watch_url: String,
    pub timeout_secs: u16,
    /// Retries beyond the first attempt of a probe round.
    pub retries_before_actions: u16,
    pub wait_between_tries_secs: u64,
    pub recipients: Vec<String>,
    pub actions: Vec<Action>,
}

/// One remediation step.
#[derive(Debug, PartialEq, Eq)]
pub struct Action {
    pub informative_name: String,
    pub wait_afterwards_secs: u64,
    /// How often the step is run and re-checked before the next one is tried.
    pub repeat_times: u16,
    pub typespecific: ActionTypeSpec,
}

/// The mechanism of a remediation step.
#[derive(Debug, PartialEq, Eq)]
pub enum ActionTypeSpec {
    RunScript { path_to_script: String },
}

pub struct SendMailConfigView {
    pub mail_address: Seq<char>,
    pub user_name: Seq<char>,
    pub smtp_url: Seq<char>,
    pub password: Seq<char>,
    pub port: u16,
}

pub enum ActionTypeSpecView {
    RunScript { path_to_script: Seq<char> },
}

pub struct ActionView {
    pub informative_name: Seq<char>,
    pub wait_afterwards_secs: u64,
    pub repeat_times: u16,
    pub typespecific: ActionTypeSpecView,
}

pub struct TargetView {
    pub informative_name: Seq<char>,
    pub watch_url: Seq<char>,
    pub timeout_secs: u16,
    pub retries_before_actions: u16,
    pub wait_between_tries_secs: u64,
    pub recipients: Seq<Seq<char>>,
    pub actions: Seq<ActionView>,
}

pub struct ServerHealthConfigView {
    pub send_mail: SendMailConfigView,
    pub watch_intervall_secs: u64,
    pub admin_recipients: Seq<Seq<char>>,
    pub targets: Seq<TargetView>,
}

impl View for SendMailConfig {
    type V = SendMailConfigView;

    open spec fn view(&self) -> SendMailConfigView {
        SendMailConfigView {
            mail_address: self.mail_address@,
            user_name: self.user_name@,
            smtp_url: self.smtp_url@,
            password: self.password@,
            port: self.port,
        }
    }
}

impl View for ActionTypeSpec {
    type V = ActionTypeSpecView;

    open spec fn view(&self) -> ActionTypeSpecView {
        match self {
            ActionTypeSpec::RunScript { path_to_script } => ActionTypeSpecView::RunScript {
                path_to_script: path_to_script@,
            },
        }
    }
}

impl View for Action {
    type V = ActionView;

    open spec fn view(&self) -> ActionView {
        ActionView {
            informative_name: self.informative_name@,
            wait_afterwards_secs: self.wait_afterwards_secs,
            repeat_times: self.repeat_times,
            typespecific: self.typespecific@,
        }
    }
}

/// The texts of a list of strings, in order.
pub open spec fn texts(list: Seq<String>) -> Seq<Seq<char>> {
    Seq::new(list.len(), |i: int| list[i]@)
}

/// The actions of a plan as mathematical values, in order.
pub open spec fn action_views(actions: Seq<Action>) -> Seq<ActionView> {
    Seq::new(actions.len(), |i: int| actions[i]@)
}

/// The targets of a configuration as mathematical values, in order.
pub open spec fn target_views(targets: Seq<Target>) -> Seq<TargetView> {
    Seq::new(targets.len(), |i: int| targets[i]@)
}

impl View for Target {
    type V = TargetView;

    open spec fn view(&self) -> TargetView {
        TargetView {
            informative_name: self.informative_name@,
            watch_url: self.watch_url@,
            timeout_secs: self.timeout_secs,
            retries_before_actions: self.retries_before_actions,
            wait_between_tries_secs: self.wait_between_tries_secs,
            recipients: texts(self.recipients@),
            actions: action_views(self.actions@),
        }
    }
}

impl View for ServerHealthConfig {
    type V = ServerHealthConfigView;

    open spec fn view(&self) -> ServerHealthConfigView {
        ServerHealthConfigView {
            send_mail: self.send_mail@,
            watch_intervall_secs: self.watch_intervall_secs,
            admin_recipients: texts(self.admin_recipients@),
            targets: target_views(self.targets@),
        }
    }
}

impl TargetView {
    /// The number of probe attempts in one round: the first attempt and the
    /// configured retries.
    pub open spec fn tries(self) -> int {
        self.retries_before_actions + 1
    }

    /// Whether the steps of the plan can be counted in a machine word, as
    /// those of every target in memory can.
    pub open spec fn fits(self) -> bool {
        self.actions.len() <= usize::MAX
    }
}

impl ServerHealthConfigView {
    /// Whether the targets, and the steps of each target's plan, can be
    /// counted in a machine word, as those of every configuration in memory
    /// can.
    pub open spec fn fits(self) -> bool {
        &&& self.targets.len() <= usize::MAX
        &&& forall|i: int| 0 <= i < self.targets.len() ==> (#[trigger] self.targets[i]).fits()
    }
}

/// The view of a target in memory fits.
pub proof fn lemma_target_fits(target: Target)
    ensures
        target@.fits(),
{
    assert(target@.actions.len() == target.actions.len());
}

/// The view of a configuration in memory fits.
pub proof fn lemma_config_fits(config: ServerHealthConfig)
    ensures
        config@.fits(),
{
    assert(config@.targets.len() == config.targets.len());
    assert forall|i: int| 0 <= i < config@.targets.len() implies (#[trigger] config@.targets[i]).fits() by {
        lemma_target_fits(config.targets[i]);
    }
}

impl Target {
    /// The number of probe attempts in one round.
    pub fn tries(&self) -> (n: u32)
        ensures
            n == self@.tries(),
    {
        self.retries_before_actions as u32 + 1
    }
}

impl Clone for SendMailConfig {
    fn clone(&self) -> (copy: SendMailConfig)
        ensures
            copy@ == self@,
    {
        SendMailConfig {
            mail_address: self.mail_address.clone(),
            user_name: self.user_name.clone(),
            smtp_url: self.smtp_url.clone(),
            password: self.password.clone(),
            port: self.port,
        }
    }
}

impl Clone for ActionTypeSpec {
    fn clone(&self) -> (copy: ActionTypeSpec)
        ensures
            copy@ == self@,
    {
        match self {
            ActionTypeSpec::RunScript { path_to_script } => ActionTypeSpec::RunScript {
                path_to_script: path_to_script.clone(),
            },
        }
    }
}

impl Clone for Action {
    fn clone(&self) -> (copy: Action)
        ensures
            copy@ == self@,
    {
        Action {
            informative_name: self.informative_name.clone(),
            wait_afterwards_secs: self.wait_afterwards_secs,
            repeat_times: self.repeat_times,
            typespecific: self.typespecific.clone(),
        }
    }
}

impl Clone for Target {
    fn clone(&self) -> (copy: Target)
        ensures
            copy@ == self@,
    {
        let recipients = self.recipients.clone();
        let actions = self.actions.clone();
        assert(texts(recipients@) =~= texts(self.recipients@));
        assert(action_views(actions@) =~= action_views(self.actions@));
        Target {
            informative_name: self.informative_name.clone(),
            watch_url: self.watch_url.clone(),
            timeout_secs: self.timeout_secs,
            retries_before_actions: self.retries_before_actions,
            wait_between_tries_secs: self.wait_between_tries_secs,
            recipients,
            actions,
        }
    }
}

impl Clone for ServerHealthConfig {
    fn clone(&self) -> (copy: ServerHealthConfig)
        ensures
            copy@ == self@,
    {
        let admin_recipients = self.admin_recipients.clone();
        let targets = self.targets.clone();
        assert(texts(admin_recipients@) =~= texts(self.admin_recipients@));
        assert(target_views(targets@) =~= target_views(self.targets@));
        ServerHealthConfig {
            send_mail: self.send_mail.clone(),
            watch_intervall_secs: self.watch_intervall_secs,
            admin_recipients,
            targets,
        }
    }
}

} // verus!
