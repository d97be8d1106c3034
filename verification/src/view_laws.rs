//! What the views keep: every field under its own name, and every text as it is.

use vstd::prelude::*;
use crate::agent::job_views;
use crate::agent::messages;
use crate::agent::Job;
use crate::agent::JobView;
use crate::agent::WorkloadRecord;
use crate::config::PlacementConstraint;
use crate::config::ServiceConfig;
use crate::deploy::agent_failure;
use crate::deploy::failure_of;
use crate::deploy::Dispatch;
use crate::deploy::DispatchView;
use crate::failure::DeployFailure;
use crate::failure::FailureView;
use crate::nodes::RegisteredNode;
use crate::reconcile::config_views;
use crate::reconcile::names;
use crate::reconcile::Step;
use crate::reconcile::StepView;
use crate::services::instance_views;
use crate::services::InstanceState;
use crate::services::ServiceState;
use crate::state::AppState;
use crate::state::PendingDeploy;
use crate::text::opt_text;
use crate::text::texts;
use crate::wire::error_of;
use crate::wire::AgentMessage;
use crate::wire::AgentMessageView;
use crate::wire::MasterMessage;
use crate::wire::MasterMessageView;
use crate::wire::WorkloadReport;
use crate::workload::WorkloadSpec;

verus! {

/// An optional text is kept as it is.
pub proof fn optional_text_is_kept(text: String, value: Option<String>)
    ensures
        opt_text(Some(text)) == Some(text@),
        opt_text(value) is Some == value is Some,
{
}

/// A list of texts is kept in its length, its order and each of its texts.
pub proof fn texts_are_kept(list: Seq<String>)
    ensures
        texts(list).len() == list.len(),
        forall|i: int| 0 <= i < list.len() ==> #[trigger] texts(list)[i] == list[i]@,
{
}

/// A placement constraint is kept with its node and its demands.
pub proof fn placement_is_kept(constraint: PlacementConstraint)
    ensures
        match constraint.labels {
            Some(inner) => constraint@.labels == Some(inner@),
            None => constraint@.labels is None,
        },
        match constraint.node {
            Some(text) => constraint@.node == Some(text@),
            None => constraint@.node is None,
        },
        constraint@.requires_gpu == constraint.requires_gpu,
{
}

/// Every field of a service's configuration is kept, so no change of one goes unseen.
pub proof fn configuration_is_kept(config: ServiceConfig)
    ensures
        config@.name == config.name@,
        match config.project {
            Some(text) => config@.project == Some(text@),
            None => config@.project is None,
        },
        config@.runtime == config.runtime,
        match config.image {
            Some(text) => config@.image == Some(text@),
            None => config@.image is None,
        },
        match config.module {
            Some(text) => config@.module == Some(text@),
            None => config@.module is None,
        },
        config@.replicas == config.replicas,
        config@.port == config.port,
        config@.host_port == config.host_port,
        match config.domain {
            Some(text) => config@.domain == Some(text@),
            None => config@.domain is None,
        },
        config@.domains.len() == config.domains@.len(),
        forall|i: int| 0 <= i < config.domains@.len() ==> #[trigger] config@.domains[i] == config.domains@[i]@,
        config@.routes.len() == config.routes@.len(),
        forall|i: int| 0 <= i < config.routes@.len() ==> #[trigger] config@.routes[i] == config.routes@[i]@,
        match config.health {
            Some(text) => config@.health == Some(text@),
            None => config@.health is None,
        },
        match config.readiness {
            Some(text) => config@.readiness == Some(text@),
            None => config@.readiness is None,
        },
        match config.liveness {
            Some(text) => config@.liveness == Some(text@),
            None => config@.liveness is None,
        },
        config@.env == config.env@,
        match config.resources {
            Some(text) => config@.resources == Some(text@),
            None => config@.resources is None,
        },
        match config.volume {
            Some(text) => config@.volume == Some(text@),
            None => config@.volume is None,
        },
        match config.deploy {
            Some(text) => config@.deploy == Some(text@),
            None => config@.deploy is None,
        },
        match config.placement {
            Some(inner) => config@.placement == Some(inner@),
            None => config@.placement is None,
        },
        match config.network {
            Some(text) => config@.network == Some(text@),
            None => config@.network is None,
        },
        config@.aliases.len() == config.aliases@.len(),
        forall|i: int| 0 <= i < config.aliases@.len() ==> #[trigger] config@.aliases[i] == config.aliases@[i]@,
        config@.mounts.len() == config.mounts@.len(),
        forall|i: int| 0 <= i < config.mounts@.len() ==> #[trigger] config@.mounts[i] == config.mounts@[i]@,
        config@.triggers.len() == config.triggers@.len(),
        forall|i: int| 0 <= i < config.triggers@.len() ==> #[trigger] config@.triggers[i] == config.triggers@[i]@,
        match config.assets {
            Some(text) => config@.assets == Some(text@),
            None => config@.assets is None,
        },
        match config.build {
            Some(text) => config@.build == Some(text@),
            None => config@.build is None,
        },
        match config.tls_cert {
            Some(text) => config@.tls_cert == Some(text@),
            None => config@.tls_cert is None,
        },
        match config.tls_key {
            Some(text) => config@.tls_key == Some(text@),
            None => config@.tls_key is None,
        },
        config@.internal == config.internal,
        config@.depends_on.len() == config.depends_on@.len(),
        forall|i: int| 0 <= i < config.depends_on@.len() ==> #[trigger] config@.depends_on[i] == config.depends_on@[i]@,
        config@.cmd.len() == config.cmd@.len(),
        forall|i: int| 0 <= i < config.cmd@.len() ==> #[trigger] config@.cmd[i] == config.cmd@[i]@,
        config@.extra_ports.len() == config.extra_ports@.len(),
        forall|i: int| 0 <= i < config.extra_ports@.len() ==> #[trigger] config@.extra_ports[i] == config.extra_ports@[i]@,
        match config.strip_prefix {
            Some(text) => config@.strip_prefix == Some(text@),
            None => config@.strip_prefix is None,
        },
        match config.pull_policy {
            Some(text) => config@.pull_policy == Some(text@),
            None => config@.pull_policy is None,
        },
        match config.backup {
            Some(text) => config@.backup == Some(text@),
            None => config@.backup is None,
        },
        match config.restart_policy {
            Some(text) => config@.restart_policy == Some(text@),
            None => config@.restart_policy is None,
        },
{
}

/// Every field of a workload is kept.
pub proof fn workload_is_kept(workload: WorkloadSpec)
    ensures
        workload@.name == workload.name@,
        workload@.runtime == workload.runtime,
        match workload.image {
            Some(text) => workload@.image == Some(text@),
            None => workload@.image is None,
        },
        workload@.replicas == workload.replicas,
        workload@.routes.len() == workload.routes@.len(),
        forall|i: int| 0 <= i < workload.routes@.len() ==> #[trigger] workload@.routes[i] == workload.routes@[i]@,
        workload@.env == workload.env@,
        workload@.aliases.len() == workload.aliases@.len(),
        forall|i: int| 0 <= i < workload.aliases@.len() ==> #[trigger] workload@.aliases[i] == workload.aliases@[i]@,
        workload@.mounts.len() == workload.mounts@.len(),
        forall|i: int| 0 <= i < workload.mounts@.len() ==> #[trigger] workload@.mounts[i] == workload.mounts@[i]@,
        workload@.triggers.len() == workload.triggers@.len(),
        forall|i: int| 0 <= i < workload.triggers@.len() ==> #[trigger] workload@.triggers[i] == workload.triggers@[i]@,
        workload@.internal == workload.internal,
{
}

/// Every field of a node is kept.
pub proof fn node_is_kept(node: RegisteredNode)
    ensures
        match node.peer_ip {
            Some(text) => node@.peer_ip == Some(text@),
            None => node@.peer_ip is None,
        },
        node@.node_id == node.node_id,
        node@.address == node.address@,
        node@.labels == node.labels@,
        node@.last_heartbeat == node.last_heartbeat,
        node@.drain == node.drain,
        node@.memory_bytes == node.memory_bytes,
        node@.memory_total == node.memory_total,
        node@.disk_used == node.disk_used,
        node@.disk_total == node.disk_total,
        node@.net_rx == node.net_rx,
        node@.net_tx == node.net_tx,
{
}

/// Every field of a report's line is kept.
pub proof fn report_line_is_kept(line: WorkloadReport)
    ensures
        line@.runtime_id == line.runtime_id@,
        line@.service_name == line.service_name@,
        line@.status == line.status,
{
}

/// Both fields of a workload's record are kept.
pub proof fn record_is_kept(record: WorkloadRecord)
    ensures
        record@.service_name == record.service_name@,
        record@.status == record.status,
{
}

/// Every field of a pending deploy is kept.
pub proof fn pending_deploy_is_kept(deploy: PendingDeploy)
    ensures
        deploy@.config == deploy.config@,
        deploy@.node_id == deploy.node_id,
        deploy@.since == deploy.since,
        deploy@.acknowledged == deploy.acknowledged,
{
}

/// Every field of an instance is kept.
pub proof fn instance_is_kept(instance: InstanceState)
    ensures
        instance@.runtime_id == instance.handle.runtime_id@,
        instance@.name == instance.handle.name@,
        instance@.metadata == instance.handle.metadata@,
        instance@.status == instance.status,
        instance@.host_port == instance.host_port,
        match instance.container_address {
            Some(address) => instance@.container_address == Some(address@),
            None => instance@.container_address is None,
        },
        instance@.health == instance.health,
        instance@.started_at == instance.started_at,
        instance@.is_canary == instance.is_canary,
{
}

/// A service is kept with its configuration and its instances in their order.
pub proof fn service_is_kept(service: ServiceState)
    ensures
        service@.config == service.config@,
        service@.instances.len() == service.instances@.len(),
        forall|i: int|
            0 <= i < service.instances@.len() ==> #[trigger] service@.instances[i]
                == service.instances@[i]@,
{
}

/// A message from the master is kept, with all of the workload that it asks for.
pub proof fn master_message_is_kept(spec: Box<WorkloadSpec>, ping: MasterMessage)
    requires
        ping is StatusPing,
    ensures
        ping@ is StatusPing,
        (MasterMessage::Deploy { spec })@ == (MasterMessageView::Deploy { spec: spec@ }),
{
}

/// A message from an agent is kept, with the service that it speaks of and what it says.
pub proof fn agent_message_is_kept(
    service_name: String,
    result: Result<(), String>,
    workloads: Vec<WorkloadReport>,
)
    ensures
        (AgentMessage::DeployReceived { service_name })@ == (AgentMessageView::DeployReceived {
            service_name: service_name@,
        }),
        match (AgentMessage::DeployFinished { service_name, result })@ {
            AgentMessageView::DeployFinished { service_name: name, error } => {
                &&& name == service_name@
                &&& match result {
                    Ok(_) => error is None,
                    Err(reason) => error == Some(reason@),
                }
            },
            _ => false,
        },
        match (AgentMessage::StatusReport { workloads })@ {
            AgentMessageView::StatusReport { workloads: lines } => {
                &&& lines.len() == workloads@.len()
                &&& forall|i: int|
                    0 <= i < workloads@.len() ==> #[trigger] lines[i] == workloads@[i]@
            },
            _ => false,
        },
        AgentMessage::Heartbeat@ is Heartbeat,
{
}

/// A job is kept, with all of the workload that is to be run.
pub proof fn job_is_kept(spec: Box<WorkloadSpec>)
    ensures
        (Job::Deploy { spec })@ == (JobView::Deploy { spec: spec@ }),
        Job::Report@ is Report,
{
}

/// Lists are kept in their length, their order and each of their items.
pub proof fn lists_are_kept(
    outbox: Seq<AgentMessage>,
    jobs: Seq<Job>,
    instances: Seq<InstanceState>,
    configs: Seq<ServiceConfig>,
)
    ensures
        messages(outbox).len() == outbox.len(),
        forall|i: int| 0 <= i < outbox.len() ==> #[trigger] messages(outbox)[i] == outbox[i]@,
        job_views(jobs).len() == jobs.len(),
        forall|i: int| 0 <= i < jobs.len() ==> #[trigger] job_views(jobs)[i] == jobs[i]@,
        instance_views(instances).len() == instances.len(),
        forall|i: int|
            0 <= i < instances.len() ==> #[trigger] instance_views(instances)[i] == instances[i]@,
        config_views(configs).len() == configs.len(),
        forall|i: int|
            0 <= i < configs.len() ==> #[trigger] config_views(configs)[i] == configs[i]@,
        names(config_views(configs)).len() == configs.len(),
        forall|i: int|
            0 <= i < configs.len() ==> #[trigger] names(config_views(configs))[i]
                == configs[i].name@,
{
}

/// A failure is kept as what it is, and an agent's reason as it was given.
pub proof fn failure_is_kept(failure: DeployFailure, reason: String)
    ensures
        failure is NotConnected == failure@ is NotConnected,
        failure is Unreachable == failure@ is Unreachable,
        failure is Unacknowledged == failure@ is Unacknowledged,
        failure is Unfinished == failure@ is Unfinished,
        failure is Abandoned == failure@ is Abandoned,
        failure is Agent == failure@ is Agent,
        DeployFailure::Agent(reason)@ == FailureView::Agent(reason@),
{
}

/// The end of a deploy is kept: success as no failure, an agent's error as its reason.
pub proof fn result_is_kept(reason: String, failure: DeployFailure)
    ensures
        error_of(Ok(())) is None,
        error_of(Err(reason)) == Some(reason@),
        failure_of(Ok(())) is None,
        failure_of(Err(failure)) == Some(failure@),
        agent_failure(None) is None,
        agent_failure(Some(reason@)) == Some(FailureView::Agent(reason@)),
{
}

/// A decision is kept as what it is, with its node, its message and its failure.
pub proof fn decision_is_kept(failure: DeployFailure, node_id: u64, message: MasterMessage)
    ensures
        Dispatch::Local@ is Local,
        Dispatch::Converged@ is Converged,
        Dispatch::Refused(failure)@ == DispatchView::Refused(failure@),
        (Dispatch::Send { node_id, message })@ == (DispatchView::Send {
            node_id,
            message: message@,
        }),
{
}

/// A step is kept as what it is, with its node, its service, its message and its configuration.
pub proof fn step_is_kept(
    node_id: u64,
    service: String,
    message: MasterMessage,
    config: ServiceConfig,
)
    ensures
        Step::Done@ is Done,
        (Step::DeployLocally { config })@ == (StepView::DeployLocally { config: config@ }),
        (Step::Send { node_id, service, message })@ == (StepView::Send {
            node_id,
            service: service@,
            message: message@,
        }),
{
}

/// The master's state is kept: its limits, nodes, sessions, waiters and services.
pub proof fn state_is_kept(state: AppState, node_id: u64)
    ensures
        state@.deploy == state.cluster_config.deploy,
        state@.nodes.contains_key(node_id) == state.registered_nodes@.contains_key(node_id),
        state.registered_nodes@.contains_key(node_id) ==> state@.nodes[node_id]
            == state.registered_nodes@[node_id]@,
        state@.sessions.contains(node_id) == state.ws_agents@.contains(node_id),
        state@.acks == state.pending_deploy_acks@,
        state@.deploys == state.pending_deploys@,
        state@.services == state.services@,
{
}

} // verus!
