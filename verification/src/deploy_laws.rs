//! What each operation on the deploys does, told by the parts of the state.

use vstd::prelude::*;
use crate::config::ServiceConfigView;
use crate::data_laws::running_is_a_matter_of_instances;
use crate::decimal::decimal;
use crate::decimal::node_id_of;
use crate::deploy::upcoming;
use crate::deploy::DispatchView;
use crate::failure::FailureView;
use crate::laws::only_the_node_is_removed;
use crate::services::InstanceView;
use crate::state::StateView;
use crate::wire::AgentMessageView;
use crate::wire::MasterMessageView;
use crate::workload::WorkloadStatus;

verus! {

/// A pinned service is skipped exactly if it runs as configured: its stored configuration is
/// the same, and a running instance is its node's. An unchanged configuration alone is not
/// enough.
pub proof fn pinned_service_is_skipped_only_if_it_runs(
    state: StateView,
    config: ServiceConfigView,
    label: Seq<char>,
    node_id: u64,
)
    requires
        config.placement is Some,
        config.placement->0.node == Some(label),
        node_id_of(label) == Some(node_id),
    ensures
        state.dispatch(config) is Converged <==> {
            &&& state.services.contains_key(config.name)
            &&& state.services[config.name].config == config
            &&& exists|instance: InstanceView| #[trigger]
                state.services[config.name].instances.contains(instance) && instance.status
                    == WorkloadStatus::Running && instance.runtime_id == "remote-"@ + decimal(
                    node_id as nat,
                )
        },
{
    running_is_a_matter_of_instances(state.services[config.name], node_id);
}

/// A service of which nothing runs on its node is sent there whenever the node has a session,
/// also if its configuration is unchanged.
pub proof fn service_that_does_not_run_is_sent(
    state: StateView,
    config: ServiceConfigView,
    label: Seq<char>,
    node_id: u64,
)
    requires
        config.placement is Some,
        config.placement->0.node == Some(label),
        node_id_of(label) == Some(node_id),
        state.sessions.contains(node_id),
        state.services.contains_key(config.name) ==> forall|instance: InstanceView| #[trigger]
            state.services[config.name].instances.contains(instance) ==> instance.status
                != WorkloadStatus::Running || instance.runtime_id != "remote-"@ + decimal(
                node_id as nat,
            ),
    ensures
        state.dispatch(config) is Send,
        state.dispatch(config)->node_id == node_id,
{
    running_is_a_matter_of_instances(state.services[config.name], node_id);
}

/// A service that lost its node is sent again when the node is back: after the end of a session
/// took its placeholders, and a new session came, nothing of the service counts as running.
pub proof fn returned_node_gets_its_services_again(
    state: StateView,
    config: ServiceConfigView,
    label: Seq<char>,
    node_id: u64,
)
    requires
        config.placement is Some,
        config.placement->0.node == Some(label),
        node_id_of(label) == Some(node_id),
    ensures
        ({
            let gone = state.without_session(node_id);
            let back = StateView { sessions: gone.sessions.insert(node_id), ..gone };
            &&& gone.dispatch(config) == DispatchView::Refused(FailureView::NotConnected)
            &&& back.dispatch(config) is Send
            &&& back.dispatch(config)->node_id == node_id
        }),
{
    let gone = state.without_session(node_id);
    let back = StateView { sessions: gone.sessions.insert(node_id), ..gone };
    if state.services.contains_key(config.name) {
        let service = state.services[config.name];
        running_is_a_matter_of_instances(service.without_node(node_id), node_id);
        assert forall|instance: InstanceView| #[trigger]
            service.without_node(node_id).instances.contains(
                instance,
            ) implies instance.runtime_id != "remote-"@ + decimal(node_id as nat) by {
            only_the_node_is_removed(service, node_id, instance);
        }
        assert(back.services[config.name] == service.without_node(node_id));
        assert(gone.services[config.name] == service.without_node(node_id));
    }
}

/// Whatever is sent goes to the node that the service is pinned to, over a session of that
/// node, asks for the service as it is configured, and is needed: the service does not run
/// there as configured.
pub proof fn only_what_is_needed_is_sent(
    state: StateView,
    config: ServiceConfigView,
    node_id: u64,
    message: MasterMessageView,
)
    requires
        state.dispatch(config) == (DispatchView::Send { node_id, message }),
    ensures
        config.placement is Some,
        config.placement->0.node is Some,
        node_id_of(config.placement->0.node->0) == Some(node_id),
        state.sessions.contains(node_id),
        message is Deploy,
        message->spec.name == config.name,
        message->spec.runtime == config.runtime,
        message->spec.image == config.image,
        message->spec.replicas == config.replicas,
        message->spec.routes == config.routes,
        message->spec.env == config.env,
        message->spec.aliases == config.aliases,
        message->spec.mounts == config.mounts,
        message->spec.triggers == config.triggers,
        message->spec.internal == config.internal,
        !(state.services.contains_key(config.name) && state.services[config.name].config == config
            && exists|instance: InstanceView| #[trigger]
            state.services[config.name].instances.contains(instance) && instance.status
                == WorkloadStatus::Running && instance.runtime_id == "remote-"@ + decimal(
                node_id as nat,
            )),
{
    running_is_a_matter_of_instances(state.services[config.name], node_id);
}

/// A service is refused exactly if it is pinned and cannot be had where it is pinned to: the
/// label stands for no node, or the node has no session and the service does not run there as
/// configured.
pub proof fn only_an_unconnected_node_refuses(
    state: StateView,
    config: ServiceConfigView,
    label: Seq<char>,
)
    requires
        config.placement is Some,
        config.placement->0.node == Some(label),
    ensures
        node_id_of(label) is None ==> state.dispatch(config) == DispatchView::Refused(
            FailureView::NotConnected,
        ),
        state.dispatch(config) is Refused <==> !(state.dispatch(config) is Converged) && (
        node_id_of(label) is None || !state.sessions.contains(node_id_of(label)->0)),
        state.dispatch(config) is Refused ==> state.dispatch(config)->Refused_0
            == FailureView::NotConnected,
        !(state.dispatch(config) is Local),
{
}

/// A service that is pinned to no node is never sent or refused. It is skipped exactly if its
/// stored configuration is the same and one of its instances runs; else it is for the master's
/// own runtime.
pub proof fn unpinned_service_stays_with_the_master(
    state: StateView,
    config: ServiceConfigView,
    now: i64,
)
    requires
        config.placement is None || config.placement->0.node is None,
    ensures
        state.dispatch(config) is Converged || state.dispatch(config) is Local,
        state.dispatch(config) is Converged <==> {
            &&& state.services.contains_key(config.name)
            &&& state.services[config.name].config == config
            &&& exists|instance: InstanceView| #[trigger]
                state.services[config.name].instances.contains(instance) && instance.status
                    == WorkloadStatus::Running
        },
        state.dispatched(config, now) == state,
{
    running_is_a_matter_of_instances(state.services[config.name], 0);
}

/// A deploy that is sent is waited for, from now on and from the node that it is sent to; what
/// was waited for of other services, and all else, stays. A decision not to send changes
/// nothing.
pub proof fn sending_is_taken_down(
    state: StateView,
    config: ServiceConfigView,
    other: Seq<char>,
    now: i64,
)
    requires
        other != config.name,
    ensures
        ({
            let after = state.dispatched(config, now);
            &&& after.sessions == state.sessions
            &&& after.services == state.services
            &&& after.nodes == state.nodes
            &&& after.deploy == state.deploy
            &&& after.acks.contains_key(other) == state.acks.contains_key(other)
            &&& state.acks.contains_key(other) ==> after.acks[other] == state.acks[other]
            &&& after.deploys.contains_key(other) == state.deploys.contains_key(other)
            &&& state.deploys.contains_key(other) ==> after.deploys[other] == state.deploys[other]
            &&& !(state.dispatch(config) is Send) ==> after == state
            &&& state.dispatch(config) is Send ==> {
                &&& after.acks.contains_key(config.name)
                &&& after.acks[config.name] == state.dispatch(config)->node_id
                &&& after.deploys.contains_key(config.name)
                &&& after.deploys[config.name].config == config
                &&& after.deploys[config.name].node_id == state.dispatch(config)->node_id
                &&& after.deploys[config.name].since == now
                &&& !after.deploys[config.name].acknowledged
            }
        }),
{
}

/// What a service runs locally is taken down as it is told, and nothing else changes.
pub proof fn local_deploy_is_taken_down(
    state: StateView,
    config: ServiceConfigView,
    instances: Seq<InstanceView>,
    other: Seq<char>,
)
    requires
        other != config.name,
    ensures
        ({
            let after = state.recorded(config, instances);
            &&& after.services.contains_key(config.name)
            &&& after.services[config.name].config == config
            &&& after.services[config.name].instances == instances
            &&& after.services.contains_key(other) == state.services.contains_key(other)
            &&& state.services.contains_key(other) ==> after.services[other]
                == state.services[other]
            &&& after.acks == state.acks
            &&& after.deploys == state.deploys
            &&& after.sessions == state.sessions
            &&& after.nodes == state.nodes
            &&& after.deploy == state.deploy
        }),
{
}

/// A receipt that is waited for starts the long wait: the deploy stays, for the same
/// configuration and from the same node, is acknowledged, and is counted from now on; its
/// receipt is waited for no more, and nothing else changes. A receipt that nobody waits for
/// changes nothing.
pub proof fn receipt_starts_the_long_wait(
    state: StateView,
    node_id: u64,
    service: Seq<char>,
    other: Seq<char>,
    now: i64,
)
    requires
        other != service,
    ensures
        ({
            let message = AgentMessageView::DeployReceived { service_name: service };
            let after = state.told(node_id, message, now);
            let waited = state.acks.contains_key(service) && state.deploys.contains_key(service);
            &&& after == state.acknowledged(service, now)
            &&& !waited ==> after == state
            &&& waited ==> {
                &&& !after.acks.contains_key(service)
                &&& after.deploys.contains_key(service)
                &&& after.deploys[service].config == state.deploys[service].config
                &&& after.deploys[service].node_id == state.deploys[service].node_id
                &&& after.deploys[service].since == now
                &&& after.deploys[service].acknowledged
            }
            &&& after.acks.contains_key(other) == state.acks.contains_key(other)
            &&& state.acks.contains_key(other) ==> after.acks[other] == state.acks[other]
            &&& after.deploys.contains_key(other) == state.deploys.contains_key(other)
            &&& state.deploys.contains_key(other) ==> after.deploys[other] == state.deploys[other]
            &&& after.sessions == state.sessions
            &&& after.services == state.services
            &&& after.nodes == state.nodes
            &&& after.deploy == state.deploy
        }),
{
}

/// A success that is waited for is taken down as what the service runs: the configuration that
/// was sent, with one running instance of the node that it was sent to, started now.
pub proof fn success_is_taken_down(
    state: StateView,
    node_id: u64,
    service: Seq<char>,
    now: i64,
)
    requires
        state.deploys.contains_key(service),
        state.deploys[service].acknowledged || state.acks.contains_key(service),
    ensures
        ({
            let message = AgentMessageView::DeployFinished { service_name: service, error: None };
            let after = state.told(node_id, message, now);
            &&& after == state.completed(service, None, now)
            &&& state.told_failure(service, None) is None
            &&& after.services.contains_key(service)
            &&& after.services[service].config == state.deploys[service].config
            &&& after.services[service].instances.len() == 1
            &&& after.services[service].instances[0].runtime_id == "remote-"@ + decimal(
                state.deploys[service].node_id as nat,
            )
            &&& after.services[service].instances[0].name == "orca-"@ + service
            &&& after.services[service].instances[0].status == WorkloadStatus::Running
            &&& after.services[service].instances[0].started_at == now
            &&& after.services[service].instances[0].metadata == Map::<
                Seq<char>,
                Seq<char>,
            >::empty()
            &&& after.services[service].instances[0].host_port is None
            &&& after.services[service].instances[0].container_address is None
            &&& !after.services[service].instances[0].is_canary
        }),
{
}

/// After a success the unchanged service is skipped: whoever tells the state that a pending
/// deploy went well finds its configuration converged, and nothing is sent for it.
pub proof fn success_converges_the_service(
    state: StateView,
    node_id: u64,
    service: Seq<char>,
    now: i64,
    later: i64,
)
    requires
        state.wf(),
        state.deploys.contains_key(service),
        state.deploys[service].acknowledged || state.acks.contains_key(service),
    ensures
        ({
            let message = AgentMessageView::DeployFinished { service_name: service, error: None };
            let after = state.told(node_id, message, now);
            let config = state.deploys[service].config;
            &&& after.dispatch(config) is Converged
            &&& after.dispatched(config, later) == after
        }),
{
    let message = AgentMessageView::DeployFinished { service_name: service, error: None };
    let after = state.told(node_id, message, now);
    let deploy = state.deploys[service];
    success_is_taken_down(state, node_id, service, now);
    running_is_a_matter_of_instances(after.services[service], deploy.node_id);
    assert(after.services[service].instances.contains(after.services[service].instances[0]));
}

/// An error that is waited for is told in the agent's own words, and leaves every service as it
/// was.
pub proof fn error_is_told_on(
    state: StateView,
    node_id: u64,
    service: Seq<char>,
    reason: Seq<char>,
    now: i64,
)
    requires
        state.deploys.contains_key(service),
        state.deploys[service].acknowledged || state.acks.contains_key(service),
    ensures
        ({
            let message = AgentMessageView::DeployFinished {
                service_name: service,
                error: Some(reason),
            };
            &&& state.told(node_id, message, now) == state.completed(service, Some(reason), now)
            &&& state.told(node_id, message, now).services == state.services
            &&& state.told_failure(service, Some(reason)) is Some
            &&& state.told_failure(service, Some(reason))->0.message() == reason
        }),
{
}

/// A result, whatever it says, ends the waiting for its service and for no other, and touches
/// no other service, no session and no node. A result that nobody waits for changes nothing.
pub proof fn result_ends_the_waiting(
    state: StateView,
    node_id: u64,
    service: Seq<char>,
    error: Option<Seq<char>>,
    other: Seq<char>,
    now: i64,
)
    requires
        other != service,
    ensures
        ({
            let message = AgentMessageView::DeployFinished { service_name: service, error };
            let after = state.told(node_id, message, now);
            &&& after == state.completed(service, error, now)
            &&& !state.deploys.contains_key(service) ==> after == state
            &&& state.deploys.contains_key(service) ==> !after.acks.contains_key(service)
            &&& !after.deploys.contains_key(service)
            &&& after.acks.contains_key(other) == state.acks.contains_key(other)
            &&& state.acks.contains_key(other) ==> after.acks[other] == state.acks[other]
            &&& after.deploys.contains_key(other) == state.deploys.contains_key(other)
            &&& state.deploys.contains_key(other) ==> after.deploys[other] == state.deploys[other]
            &&& after.services.contains_key(other) == state.services.contains_key(other)
            &&& state.services.contains_key(other) ==> after.services[other]
                == state.services[other]
            &&& after.sessions == state.sessions
            &&& after.nodes == state.nodes
            &&& after.deploy == state.deploy
        }),
{
}

/// A result for a deploy that ended with its receipt waiter takes nothing down.
pub proof fn result_after_a_drop_takes_nothing_down(
    state: StateView,
    node_id: u64,
    service: Seq<char>,
    error: Option<Seq<char>>,
    now: i64,
)
    requires
        state.deploys.contains_key(service),
        !state.deploys[service].acknowledged,
        !state.acks.contains_key(service),
    ensures
        ({
            let message = AgentMessageView::DeployFinished { service_name: service, error };
            &&& state.told(node_id, message, now).services == state.services
            &&& state.told_failure(service, error) == Some(FailureView::Abandoned)
        }),
{
}

/// A heartbeat moves its node's last heartbeat to now and changes nothing else. A node that has
/// not registered is not made up.
pub proof fn heartbeat_moves_one_node(
    state: StateView,
    node_id: u64,
    other: u64,
    now: i64,
)
    requires
        other != node_id,
    ensures
        ({
            let after = state.told(node_id, AgentMessageView::Heartbeat, now);
            &&& after == state.heard_of(node_id, now)
            &&& after.nodes.contains_key(node_id) == state.nodes.contains_key(node_id)
            &&& state.nodes.contains_key(node_id) ==> {
                &&& after.nodes[node_id].last_heartbeat == now
                &&& after.nodes[node_id].node_id == state.nodes[node_id].node_id
                &&& after.nodes[node_id].address == state.nodes[node_id].address
                &&& after.nodes[node_id].peer_ip == state.nodes[node_id].peer_ip
                &&& after.nodes[node_id].labels == state.nodes[node_id].labels
                &&& after.nodes[node_id].drain == state.nodes[node_id].drain
                &&& after.nodes[node_id].memory_bytes == state.nodes[node_id].memory_bytes
                &&& after.nodes[node_id].memory_total == state.nodes[node_id].memory_total
                &&& after.nodes[node_id].disk_used == state.nodes[node_id].disk_used
                &&& after.nodes[node_id].disk_total == state.nodes[node_id].disk_total
                &&& after.nodes[node_id].net_rx == state.nodes[node_id].net_rx
                &&& after.nodes[node_id].net_tx == state.nodes[node_id].net_tx
            }
            &&& after.nodes.contains_key(other) == state.nodes.contains_key(other)
            &&& state.nodes.contains_key(other) ==> after.nodes[other] == state.nodes[other]
            &&& after.acks == state.acks
            &&& after.deploys == state.deploys
            &&& after.sessions == state.sessions
            &&& after.services == state.services
            &&& after.deploy == state.deploy
        }),
{
}

/// A report on workloads changes nothing about the deploys.
pub proof fn report_changes_nothing(
    state: StateView,
    node_id: u64,
    message: AgentMessageView,
    now: i64,
)
    requires
        message is StatusReport,
    ensures
        state.told(node_id, message, now) == state,
{
}

/// An agent is silent exactly if its node never registered, or was last heard of longer ago
/// than the limit. One that is silent stays so until it is heard of again.
pub proof fn silence_lasts_until_a_heartbeat(
    state: StateView,
    node_id: u64,
    now: i64,
    later: i64,
)
    ensures
        state.silent(node_id, now) <==> !state.nodes.contains_key(node_id) || now
            - state.nodes[node_id].last_heartbeat > 1000 * state.deploy.ws_idle_timeout_secs,
        state.silent(node_id, now) && now <= later ==> state.silent(node_id, later),
        state.nodes.contains_key(node_id) ==> !state.heard_of(node_id, later).silent(
            node_id,
            later,
        ),
{
}

/// What becomes of a deploy in time. While its receipt is waited for, it fails as unreachable
/// exactly if the short wait is over and its agent is silent, and as unacknowledged exactly if
/// both waits are over and its agent is not silent. Once it is acknowledged, it fails exactly
/// if the long wait is over. If nobody waits for its receipt, it is abandoned.
pub proof fn time_decides_the_failure(state: StateView, service: Seq<char>, now: i64)
    requires
        state.deploys.contains_key(service),
    ensures
        ({
            let deploy = state.deploys[service];
            let waited = now - deploy.since;
            let short = 1000 * state.deploy.ack_timeout_secs;
            let long = 1000 * state.deploy.completion_timeout_secs;
            let open = !deploy.acknowledged && state.acks.contains_key(service);
            let silent = !state.nodes.contains_key(deploy.node_id) || now
                - state.nodes[deploy.node_id].last_heartbeat > 1000
                * state.deploy.ws_idle_timeout_secs;
            let failure = state.overdue(service, now);
            &&& failure == Some(FailureView::Unreachable) <==> open && waited >= short && silent
            &&& failure == Some(FailureView::Unacknowledged) <==> open && waited >= short && waited
                >= long && !silent
            &&& failure == Some(FailureView::Unfinished) <==> deploy.acknowledged && waited >= long
            &&& failure == Some(FailureView::Abandoned) <==> !deploy.acknowledged
                && !state.acks.contains_key(service)
            &&& failure is Some ==> !(failure->0 is NotConnected) && !(failure->0 is Agent)
        }),
{
}

/// What is not pending does not fail, and a look at it changes nothing.
pub proof fn nothing_pending_nothing_fails(state: StateView, service: Seq<char>, now: i64)
    requires
        !state.deploys.contains_key(service),
    ensures
        state.overdue(service, now) is None,
        state.checked(service, now) == state,
{
}

/// A deploy that has failed does not come back: looked at later, without anything having
/// happened, it has still failed.
pub proof fn failures_are_final(state: StateView, service: Seq<char>, now: i64, later: i64)
    requires
        state.overdue(service, now) is Some,
        now <= later,
    ensures
        state.overdue(service, later) is Some,
{
}

/// A look that finds no failure changes nothing. One that finds a failure ends the waiting for
/// that service alone. Only an unreachable agent loses its session, and no other does.
pub proof fn look_ends_one_deploy(
    state: StateView,
    service: Seq<char>,
    other: Seq<char>,
    node_id: u64,
    now: i64,
)
    requires
        other != service,
    ensures
        ({
            let failure = state.overdue(service, now);
            let after = state.checked(service, now);
            &&& failure is None ==> after == state
            &&& failure is Some ==> !after.acks.contains_key(service)
                && !after.deploys.contains_key(service)
            &&& after.acks.contains_key(other) == state.acks.contains_key(other)
            &&& state.acks.contains_key(other) ==> after.acks[other] == state.acks[other]
            &&& after.deploys.contains_key(other) == state.deploys.contains_key(other)
            &&& state.deploys.contains_key(other) ==> after.deploys[other] == state.deploys[other]
            &&& failure != Some(FailureView::Unreachable) ==> after.sessions == state.sessions
                && after.services == state.services
            &&& failure == Some(FailureView::Unreachable) ==> (after.sessions.contains(node_id)
                <==> state.sessions.contains(node_id) && node_id != state.deploys[service].node_id)
            &&& after.nodes == state.nodes
            &&& after.deploy == state.deploy
        }),
{
}

/// With an unreachable agent go exactly the placeholders for what it ran, from every service:
/// no service is lost, none changes its configuration, and every other instance stays.
pub proof fn unreachable_agent_takes_its_placeholders(
    state: StateView,
    service: Seq<char>,
    name: Seq<char>,
    instance: InstanceView,
    now: i64,
)
    requires
        state.overdue(service, now) == Some(FailureView::Unreachable),
    ensures
        ({
            let after = state.checked(service, now);
            &&& after.services.contains_key(name) == state.services.contains_key(name)
            &&& state.services.contains_key(name) ==> after.services[name].config
                == state.services[name].config
            &&& state.services.contains_key(name) ==> after.services[name].instances.contains(
                instance,
            ) == (state.services[name].instances.contains(instance) && instance.runtime_id
                != "remote-"@ + decimal(state.deploys[service].node_id as nat))
        }),
{
    if state.services.contains_key(name) {
        only_the_node_is_removed(
            state.services[name],
            state.deploys[service].node_id,
            instance,
        );
    }
}

/// The end of a session takes that session and its node's placeholders, and nothing else.
pub proof fn session_ends_alone(
    state: StateView,
    node_id: u64,
    other: u64,
    name: Seq<char>,
    instance: InstanceView,
)
    ensures
        ({
            let after = state.without_session(node_id);
            &&& after.sessions.contains(other) <==> state.sessions.contains(other) && other
                != node_id
            &&& after.services.contains_key(name) == state.services.contains_key(name)
            &&& state.services.contains_key(name) ==> after.services[name].config
                == state.services[name].config
            &&& state.services.contains_key(name) ==> after.services[name].instances.contains(
                instance,
            ) == (state.services[name].instances.contains(instance) && instance.runtime_id
                != "remote-"@ + decimal(node_id as nat))
            &&& after.acks == state.acks
            &&& after.deploys == state.deploys
            &&& after.nodes == state.nodes
            &&& after.deploy == state.deploy
        }),
{
    if state.services.contains_key(name) {
        only_the_node_is_removed(state.services[name], node_id, instance);
    }
}

/// Giving up on a service forgets both of its waiters, and nothing else.
pub proof fn giving_up_forgets_both_waiters(
    state: StateView,
    service: Seq<char>,
    other: Seq<char>,
)
    ensures
        ({
            let after = state.without_waiters(service);
            &&& after.acks.contains_key(other) <==> state.acks.contains_key(other) && other
                != service
            &&& after.acks.contains_key(other) ==> after.acks[other] == state.acks[other]
            &&& after.deploys.contains_key(other) <==> state.deploys.contains_key(other) && other
                != service
            &&& after.deploys.contains_key(other) ==> after.deploys[other] == state.deploys[other]
            &&& after.sessions == state.sessions
            &&& after.services == state.services
            &&& after.nodes == state.nodes
            &&& after.deploy == state.deploy
        }),
{
}

/// When the next look is due: at the end of the long wait for an acknowledged deploy; at the
/// end of the short wait while it lasts; after that, a short wait from now, but no later than
/// at the end of the long wait. A moment that has passed is the clock's next one, and one that
/// the clock cannot show is its last.
pub proof fn next_look_follows_the_waits(state: StateView, service: Seq<char>, now: i64)
    requires
        state.deploys.contains_key(service),
        now < i64::MAX,
    ensures
        ({
            let deploy = state.deploys[service];
            let short = deploy.since + 1000 * state.deploy.ack_timeout_secs;
            let long = deploy.since + 1000 * state.deploy.completion_timeout_secs;
            let again = now + 1000 * state.deploy.ack_timeout_secs;
            let time = upcoming(state.next_look(service, now), now);
            let open = !deploy.acknowledged && state.acks.contains_key(service);
            &&& now < time
            &&& deploy.acknowledged && now < long <= i64::MAX ==> time == long
            &&& deploy.acknowledged && long <= now ==> time == now + 1
            &&& deploy.acknowledged && long > i64::MAX ==> time == i64::MAX
            &&& open && now < short <= i64::MAX ==> time == short
            &&& open && now < short && short > i64::MAX ==> time == i64::MAX
            &&& open && short <= now && now < again <= long && again <= i64::MAX ==> time == again
            &&& open && short <= now && now < long <= again && long <= i64::MAX ==> time == long
            &&& open && short <= now && (long <= now || again <= now) ==> time == now + 1
            &&& open && short <= now && again > i64::MAX && long > i64::MAX ==> time == i64::MAX
            &&& !deploy.acknowledged && !state.acks.contains_key(service) ==> time == now + 1
        }),
{
}

/// A look lies ahead of the clock, as near to the moment asked for as the clock can show, and
/// at the clock's end there is no later one.
pub proof fn looks_lie_ahead(time: int, now: i64)
    ensures
        now < i64::MAX ==> now < upcoming(time, now),
        now < time <= i64::MAX ==> upcoming(time, now) == time,
        now < i64::MAX && time <= now ==> upcoming(time, now) == now + 1,
        time > i64::MAX ==> upcoming(time, now) == i64::MAX,
        upcoming(time, i64::MAX) == i64::MAX,
{
}

/// What is waited for in a well-formed state belongs together: a receipt is waited for only
/// with the result of the same deploy, from the same node and before it is acknowledged, and a
/// deploy is that of the service that it is waited for under, from the node that the service is
/// pinned to.
pub proof fn waiters_belong_together(state: StateView, service: Seq<char>)
    requires
        state.wf(),
    ensures
        state.acks.contains_key(service) ==> {
            &&& state.deploys.contains_key(service)
            &&& state.deploys[service].node_id == state.acks[service]
            &&& !state.deploys[service].acknowledged
        },
        state.deploys.contains_key(service) ==> {
            let config = state.deploys[service].config;
            &&& config.name == service
            &&& config.placement is Some
            &&& config.placement->0.node is Some
            &&& node_id_of(config.placement->0.node->0) == Some(state.deploys[service].node_id)
        },
{
}

/// A deploy goes through both waits: what is sent is waited for; its receipt, whenever it comes,
/// gives it the full time from then on; and its success, whenever that comes, is what the
/// service runs, on the node that it was sent to, so that it is not sent again.
pub proof fn deploy_goes_through_both_waits(
    state: StateView,
    config: ServiceConfigView,
    sent: i64,
    received: i64,
    looked: i64,
    finished: i64,
    later: i64,
)
    requires
        state.dispatch(config) is Send,
    ensures
        ({
            let node_id = state.dispatch(config)->node_id;
            let receipt = AgentMessageView::DeployReceived { service_name: config.name };
            let success = AgentMessageView::DeployFinished {
                service_name: config.name,
                error: None,
            };
            let running = state.dispatched(config, sent).told(node_id, receipt, received);
            let done = running.told(node_id, success, finished);
            &&& running.overdue(config.name, looked) is Some <==> looked - received >= 1000
                * state.deploy.completion_timeout_secs
            &&& done.services[config.name].config == config
            &&& done.services[config.name].instances.len() == 1
            &&& done.services[config.name].instances[0].runtime_id == "remote-"@ + decimal(
                node_id as nat,
            )
            &&& done.dispatch(config) is Converged
            &&& done.dispatched(config, later) == done
        }),
{
    let node_id = state.dispatch(config)->node_id;
    let receipt = AgentMessageView::DeployReceived { service_name: config.name };
    let success = AgentMessageView::DeployFinished { service_name: config.name, error: None };
    let running = state.dispatched(config, sent).told(node_id, receipt, received);
    let done = running.told(node_id, success, finished);
    success_is_taken_down(running, node_id, config.name, finished);
    running_is_a_matter_of_instances(done.services[config.name], node_id);
    assert(done.services[config.name].instances.contains(done.services[config.name].instances[0]));
}

} // verus!
