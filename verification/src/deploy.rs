//! The two waits of a remote deploy.
//!
//! The master sends a deploy and waits for the agent to acknowledge its receipt, which takes
//! moments, and then for its result, which takes as long as the deploy. An agent that misses
//! the first wait is gone only if it has gone silent too: one that still heartbeats is busy,
//! and is waited for as long as a deploy may take.

use vstd::prelude::*;
use crate::config::ServiceConfig;
use crate::config::ServiceConfigView;
use crate::decimal::node_id_of;
use crate::decimal::parse_node_id;
use crate::failure::DeployFailure;
use crate::failure::FailureView;
use crate::nodes::expired;
use crate::nodes::has_expired;
use crate::services::instance_views;
use crate::services::placeholder;
use crate::services::remote_placeholder;
use crate::services::InstanceState;
use crate::services::InstanceView;
use crate::services::ServiceState;
use crate::services::ServiceView;
use crate::state::AppState;
use crate::state::PendingDeploy;
use crate::state::PendingView;
use crate::state::StateView;
use crate::text::copy_text;
use crate::wire::error_of;
use crate::wire::AgentMessage;
use crate::wire::AgentMessageView;
use crate::wire::MasterMessage;
use crate::wire::MasterMessageView;
use crate::workload::workload_of;
use crate::workload::workload_spec;

verus! {

/// What is to be done about a service.
pub enum Dispatch {
    /// The service is not pinned to a node, and is to be deployed to the master's own runtime.
    Local,
    /// The service runs as configured: there is nothing to do.
    Converged,
    /// Nothing can be sent.
    Refused(DeployFailure),
    /// The message is to be sent to the node's agent. Both waiters are in place.
    Send { node_id: u64, message: MasterMessage },
}

/// What is to be done about a service, by its texts.
#[verifier::ext_equal]
pub enum DispatchView {
    Local,
    Converged,
    Refused(FailureView),
    Send { node_id: u64, message: MasterMessageView },
}

impl View for Dispatch {
    type V = DispatchView;

    open spec fn view(&self) -> DispatchView {
        match self {
            Dispatch::Local => DispatchView::Local,
            Dispatch::Converged => DispatchView::Converged,
            Dispatch::Refused(failure) => DispatchView::Refused(failure@),
            Dispatch::Send { node_id, message } => DispatchView::Send {
                node_id: *node_id,
                message: message@,
            },
        }
    }
}

impl StateView {
    /// Whether a service was last deployed with this configuration, and runs on the node.
    pub open spec fn converged(self, config: ServiceConfigView, node_id: u64) -> bool {
        &&& self.services.contains_key(config.name)
        &&& self.services[config.name].config == config
        &&& self.services[config.name].runs_on(node_id)
    }

    /// Whether a service was last deployed with this configuration, and has a running instance.
    pub open spec fn converged_locally(self, config: ServiceConfigView) -> bool {
        &&& self.services.contains_key(config.name)
        &&& self.services[config.name].config == config
        &&& self.services[config.name].runs()
    }

    /// What is to be done about a service.
    pub open spec fn dispatch(self, config: ServiceConfigView) -> DispatchView {
        match config.pinned_to() {
            None => if self.converged_locally(config) {
                DispatchView::Converged
            } else {
                DispatchView::Local
            },
            Some(label) => match node_id_of(label) {
                None => DispatchView::Refused(FailureView::NotConnected),
                Some(node_id) => if self.converged(config, node_id) {
                    DispatchView::Converged
                } else if self.sessions.contains(node_id) {
                    DispatchView::Send {
                        node_id,
                        message: MasterMessageView::Deploy { spec: workload_of(config) },
                    }
                } else {
                    DispatchView::Refused(FailureView::NotConnected)
                },
            },
        }
    }

    /// The state in which a service runs the given instances in the master's own runtime.
    pub open spec fn recorded(
        self,
        config: ServiceConfigView,
        instances: Seq<InstanceView>,
    ) -> StateView {
        StateView {
            services: self.services.insert(config.name, ServiceView { config, instances }),
            ..self
        }
    }

    /// The state in which a deploy has been sent: the receipt and the result are waited for.
    pub open spec fn sent(self, config: ServiceConfigView, node_id: u64, now: i64) -> StateView {
        StateView {
            acks: self.acks.insert(config.name, node_id),
            deploys: self.deploys.insert(
                config.name,
                PendingView { config, node_id, since: now, acknowledged: false },
            ),
            ..self
        }
    }

    /// The state after it was decided what to do about a service.
    pub open spec fn dispatched(self, config: ServiceConfigView, now: i64) -> StateView {
        match self.dispatch(config) {
            DispatchView::Send { node_id, .. } => self.sent(config, node_id, now),
            _ => self,
        }
    }

    /// Whether the receipt of a service's deploy was never acknowledged, and nobody waits for it
    /// any more. Such a deploy has ended, whatever its agent still says.
    pub open spec fn dropped(self, service: Seq<char>) -> bool {
        &&& self.deploys.contains_key(service)
        &&& !self.deploys[service].acknowledged
        &&& !self.acks.contains_key(service)
    }

    /// The state after an agent has acknowledged the receipt of a service's deploy: the wait
    /// for the result begins.
    pub open spec fn acknowledged(self, service: Seq<char>, now: i64) -> StateView {
        if self.acks.contains_key(service) && self.deploys.contains_key(service) {
            StateView {
                acks: self.acks.remove(service),
                deploys: self.deploys.insert(
                    service,
                    PendingView { since: now, acknowledged: true, ..self.deploys[service] },
                ),
                ..self
            }
        } else {
            self
        }
    }

    /// How a service's deploy has failed, given what its agent told of the result.
    pub open spec fn told_failure(
        self,
        service: Seq<char>,
        error: Option<Seq<char>>,
    ) -> Option<FailureView> {
        if self.dropped(service) {
            Some(FailureView::Abandoned)
        } else {
            agent_failure(error)
        }
    }

    /// The state after an agent has told the result of a service's deploy. Nobody waits any
    /// more; a deploy that went well is what the service runs from now on.
    pub open spec fn completed(
        self,
        service: Seq<char>,
        error: Option<Seq<char>>,
        now: i64,
    ) -> StateView {
        if !self.deploys.contains_key(service) {
            self
        } else if self.told_failure(service, error) is Some {
            self.without_waiters(service)
        } else {
            let deploy = self.deploys[service];
            StateView {
                services: self.services.insert(
                    service,
                    ServiceView {
                        config: deploy.config,
                        instances: seq![placeholder(service, deploy.node_id, now)],
                    },
                ),
                ..self.without_waiters(service)
            }
        }
    }

    /// How the deploy of a service has failed by now for want of an answer, or of someone who
    /// waits for it.
    pub open spec fn overdue(self, service: Seq<char>, now: i64) -> Option<FailureView> {
        if !self.deploys.contains_key(service) {
            None
        } else {
            let deploy = self.deploys[service];
            let out = expired(deploy.since, now, self.deploy.completion_timeout_secs);
            if deploy.acknowledged {
                if out {
                    Some(FailureView::Unfinished)
                } else {
                    None
                }
            } else if !self.acks.contains_key(service) {
                Some(FailureView::Abandoned)
            } else if !expired(deploy.since, now, self.deploy.ack_timeout_secs) {
                None
            } else if self.silent(deploy.node_id, now) {
                Some(FailureView::Unreachable)
            } else if out {
                Some(FailureView::Unacknowledged)
            } else {
                None
            }
        }
    }

    /// The state after the time limits of a service's deploy were looked at. Nobody waits for
    /// a deploy that has failed; the session of a silent agent is dead and goes with it.
    pub open spec fn checked(self, service: Seq<char>, now: i64) -> StateView {
        match self.overdue(service, now) {
            None => self,
            Some(FailureView::Unreachable) => self.without_session(
                self.deploys[service].node_id,
            ).without_waiters(service),
            Some(_) => self.without_waiters(service),
        }
    }

    /// When the time limits of a service's deploy are to be looked at next: at the end of the
    /// wait for the receipt, then once for each further such wait, and at the end of the time
    /// that the deploy may take; at once, if nobody waits for the receipt.
    pub open spec fn next_look(self, service: Seq<char>, now: i64) -> int {
        let deploy = self.deploys[service];
        let receipt = deploy.since + 1000 * self.deploy.ack_timeout_secs;
        let window = now + 1000 * self.deploy.ack_timeout_secs;
        let end = deploy.since + 1000 * self.deploy.completion_timeout_secs;
        if deploy.acknowledged {
            end
        } else if !self.acks.contains_key(service) {
            now as int
        } else if now < receipt {
            receipt
        } else if window < end {
            window
        } else {
            end
        }
    }
}

/// A time that comes after `now`, as near to `time` as a clock can show.
pub open spec fn upcoming(time: int, now: i64) -> i64 {
    if now == i64::MAX || time >= i64::MAX {
        i64::MAX
    } else if time <= now {
        (now + 1) as i64
    } else {
        time as i64
    }
}

/// The end of a deploy.
pub struct Outcome {
    /// The service.
    pub service: String,
    /// How the deploy went.
    pub result: Result<(), DeployFailure>,
}

/// The failure of a deploy's result.
pub open spec fn failure_of(result: Result<(), DeployFailure>) -> Option<FailureView> {
    match result {
        Ok(_) => None,
        Err(failure) => Some(failure@),
    }
}

/// The failure that an agent's error text makes.
pub open spec fn agent_failure(error: Option<Seq<char>>) -> Option<FailureView> {
    match error {
        Some(reason) => Some(FailureView::Agent(reason)),
        None => None,
    }
}

impl AppState {
    fn is_converged(&self, config: &ServiceConfig, node_id: u64) -> (converged: bool)
        ensures
            converged == self@.converged(config@, node_id),
    {
        match self.services.get(&config.name) {
            Some(service) => service.config.same_as(config) && service.has_running_placeholder(
                node_id,
            ),
            None => false,
        }
    }

    fn is_converged_locally(&self, config: &ServiceConfig) -> (converged: bool)
        ensures
            converged == self@.converged_locally(config@),
    {
        match self.services.get(&config.name) {
            Some(service) => service.config.same_as(config) && service.has_running_instance(),
            None => false,
        }
    }

    fn begin_local(&self, config: &ServiceConfig) -> (dispatch: Dispatch)
        requires
            config@.pinned_to() is None,
        ensures
            dispatch@ == self@.dispatch(config@),
    {
        if self.is_converged_locally(config) {
            Dispatch::Converged
        } else {
            Dispatch::Local
        }
    }

    /// Takes down what a service runs in the master's own runtime from now on.
    pub fn record_local(&mut self, config: ServiceConfig, instances: Vec<InstanceState>)
        ensures
            final(self)@ == old(self)@.recorded(config@, instance_views(instances@)),
    {
        let name: String = copy_text(&config.name);
        self.services.insert(name, ServiceState { config, instances });
    }

    /// Decides what to do about a service, and takes down the deploy that is to be sent.
    pub fn begin_deploy(&mut self, config: &ServiceConfig, now: i64) -> (dispatch: Dispatch)
        ensures
            dispatch@ == old(self)@.dispatch(config@),
            final(self)@ == old(self)@.dispatched(config@, now),
    {
        let label: &String = match &config.placement {
            None => {
                return self.begin_local(config);
            },
            Some(placement) => match &placement.node {
                None => {
                    return self.begin_local(config);
                },
                Some(label) => label,
            },
        };
        let node_id: u64 = match parse_node_id(label) {
            None => {
                return Dispatch::Refused(DeployFailure::NotConnected);
            },
            Some(node_id) => node_id,
        };
        if self.is_converged(config, node_id) {
            return Dispatch::Converged;
        }
        if !self.has_session(node_id) {
            return Dispatch::Refused(DeployFailure::NotConnected);
        }
        self.pending_deploy_acks.insert(copy_text(&config.name), node_id);
        self.pending_deploys.insert(
            copy_text(&config.name),
            PendingDeploy { config: config.copy(), node_id, since: now, acknowledged: false },
        );
        Dispatch::Send {
            node_id,
            message: MasterMessage::Deploy { spec: Box::new(workload_spec(config)) },
        }
    }

    /// An agent has acknowledged the receipt of a service's deploy. Tells whether that was
    /// waited for.
    pub fn acknowledge(&mut self, service: &String, now: i64) -> (waited: bool)
        ensures
            waited == (old(self)@.acks.contains_key(service@) && old(self)@.deploys.contains_key(
                service@,
            )),
            final(self)@ == old(self)@.acknowledged(service@, now),
    {
        if !self.pending_deploy_acks.contains_key(service) {
            return false;
        }
        match self.pending_deploys.remove(service) {
            Some(deploy) => {
                let _ = self.pending_deploy_acks.remove(service);
                let mut deploy: PendingDeploy = deploy;
                deploy.since = now;
                deploy.acknowledged = true;
                let ghost before = *old(self);
                self.pending_deploys.insert(copy_text(service), deploy);
                assert(self@.deploys =~= before@.acknowledged(service@, now).deploys);
                true
            },
            None => {
                assert(self@.deploys =~= old(self)@.deploys);
                false
            },
        }
    }

    /// An agent has told the result of a service's deploy. Gives the end of the deploy, if
    /// that was waited for.
    pub fn complete(&mut self, service: &String, result: Result<(), String>, now: i64) -> (end:
        Option<Outcome>)
        ensures
            match end {
                Some(outcome) => old(self)@.deploys.contains_key(service@) && outcome.service@
                    == service@ && failure_of(outcome.result) == old(self)@.told_failure(
                    service@,
                    error_of(result),
                ),
                None => !old(self)@.deploys.contains_key(service@),
            },
            final(self)@ == old(self)@.completed(service@, error_of(result), now),
    {
        if !self.pending_deploys.contains_key(service) {
            return None;
        }
        let awaited = self.pending_deploy_acks.contains_key(service);
        let deploy: PendingDeploy = match self.remove_waiters(service) {
            Some(deploy) => deploy,
            None => {
                return None;
            },
        };
        if !deploy.acknowledged && !awaited {
            return Some(
                Outcome { service: copy_text(service), result: Err(DeployFailure::Abandoned) },
            );
        }
        match result {
            Err(reason) => Some(
                Outcome { service: copy_text(service), result: Err(DeployFailure::Agent(reason)) },
            ),
            Ok(_) => {
                let mut state = ServiceState::from_config(deploy.config);
                state.add_instance(remote_placeholder(service, deploy.node_id, now));
                assert(state@.instances =~= seq![placeholder(service@, deploy.node_id, now)]);
                self.services.insert(copy_text(service), state);
                Some(Outcome { service: copy_text(service), result: Ok(()) })
            },
        }
    }

    /// Looks at the time limits of a service's deploy. Gives the failure, if the deploy has
    /// failed for want of an answer, or because nobody waits for its receipt any more; the
    /// waiters are gone then, and the session of a silent agent too.
    pub fn check_deploy(&mut self, service: &String, now: i64) -> (failure: Option<DeployFailure>)
        ensures
            match failure {
                Some(failure) => old(self)@.overdue(service@, now) == Some(failure@),
                None => old(self)@.overdue(service@, now) is None,
            },
            final(self)@ == old(self)@.checked(service@, now),
    {
        let (node_id, since, acknowledged): (u64, i64, bool) = match self.pending_deploys.get(
            service,
        ) {
            Some(deploy) => (deploy.node_id, deploy.since, deploy.acknowledged),
            None => {
                return None;
            },
        };
        let out = has_expired(since, now, self.cluster_config.deploy.completion_timeout_secs);
        if acknowledged {
            if out {
                let _ = self.remove_waiters(service);
                Some(DeployFailure::Unfinished)
            } else {
                None
            }
        } else if !self.pending_deploy_acks.contains_key(service) {
            let _ = self.remove_waiters(service);
            Some(DeployFailure::Abandoned)
        } else if !has_expired(since, now, self.cluster_config.deploy.ack_timeout_secs) {
            None
        } else if self.is_silent(node_id, now) {
            self.kill_session(node_id);
            let _ = self.remove_waiters(service);
            Some(DeployFailure::Unreachable)
        } else if out {
            let _ = self.remove_waiters(service);
            Some(DeployFailure::Unacknowledged)
        } else {
            None
        }
    }

    /// When the time limits of a service's deploy are to be looked at next.
    pub fn next_check(&self, service: &String, now: i64) -> (time: Option<i64>)
        ensures
            match time {
                Some(time) => self@.deploys.contains_key(service@) && time == upcoming(
                    self@.next_look(service@, now),
                    now,
                ),
                None => !self@.deploys.contains_key(service@),
            },
    {
        let (since, acknowledged): (i128, bool) = match self.pending_deploys.get(service) {
            Some(deploy) => (deploy.since as i128, deploy.acknowledged),
            None => {
                return None;
            },
        };
        let wait: i128 = 1000 * (self.cluster_config.deploy.ack_timeout_secs as i128);
        let end: i128 = since + 1000 * (
        self.cluster_config.deploy.completion_timeout_secs as i128);
        let time: i128 = if acknowledged {
            end
        } else if !self.pending_deploy_acks.contains_key(service) {
            now as i128
        } else if (now as i128) < since + wait {
            since + wait
        } else if (now as i128) + wait < end {
            (now as i128) + wait
        } else {
            end
        };
        if now == i64::MAX || time >= i64::MAX as i128 {
            Some(i64::MAX)
        } else if time <= now as i128 {
            Some(now + 1)
        } else {
            Some(time as i64)
        }
    }

    /// Stops waiting for a service's deploy. Gives the failure, if there was something to wait
    /// for.
    pub fn abandon_deploy(&mut self, service: &String) -> (failure: Option<DeployFailure>)
        ensures
            match failure {
                Some(failure) => old(self)@.deploys.contains_key(service@) && failure@
                    == FailureView::Abandoned,
                None => !old(self)@.deploys.contains_key(service@),
            },
            final(self)@ == old(self)@.without_waiters(service@),
    {
        match self.remove_waiters(service) {
            Some(_) => Some(DeployFailure::Abandoned),
            None => None,
        }
    }
}

impl StateView {
    /// The state after a message from a node's agent.
    pub open spec fn told(self, node_id: u64, message: AgentMessageView, now: i64) -> StateView {
        match message {
            AgentMessageView::DeployReceived { service_name } => self.acknowledged(
                service_name,
                now,
            ),
            AgentMessageView::DeployFinished { service_name, error } => self.completed(
                service_name,
                error,
                now,
            ),
            AgentMessageView::StatusReport { .. } => self,
            AgentMessageView::Heartbeat => self.heard_of(node_id, now),
        }
    }
}

impl AppState {
    /// Takes in a message from a node's agent. Gives the end of a deploy, if the message tells
    /// the result of one that is waited for.
    pub fn hear(&mut self, node_id: u64, message: AgentMessage, now: i64) -> (end: Option<Outcome>)
        ensures
            match end {
                Some(outcome) => message@ matches AgentMessageView::DeployFinished {
                    service_name,
                    error,
                } && old(self)@.deploys.contains_key(service_name) && outcome.service@
                    == service_name && failure_of(outcome.result) == old(self)@.told_failure(
                    service_name,
                    error,
                ),
                None => message@ matches AgentMessageView::DeployFinished { service_name, .. }
                    ==> !old(self)@.deploys.contains_key(service_name),
            },
            final(self)@ == old(self)@.told(node_id, message@, now),
    {
        match message {
            AgentMessage::DeployReceived { service_name } => {
                let _ = self.acknowledge(&service_name, now);
                None
            },
            AgentMessage::DeployFinished { service_name, result } => self.complete(
                &service_name,
                result,
                now,
            ),
            AgentMessage::StatusReport { .. } => None,
            AgentMessage::Heartbeat => {
                self.heartbeat(node_id, now);
                None
            },
        }
    }
}

} // verus!
