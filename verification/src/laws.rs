//! What holds of remote deploys as a whole.

use vstd::prelude::*;
use crate::config::ServiceConfigView;
use crate::deploy::upcoming;
use crate::deploy::DispatchView;
use crate::failure::FailureView;
use crate::nodes::expired;
use crate::nodes::fresh_node;
use crate::services::placeholder;
use crate::services::remote_id;
use crate::services::remote_id_is_unique;
use crate::services::InstanceView;
use crate::services::ServiceView;
use crate::state::StateView;
use crate::wire::AgentMessageView;
use crate::wire::MasterMessageView;
use crate::workload::workload_of;
use crate::workload::WorkloadStatus;

verus! {

/// Every operation keeps the state well-formed: deciding on a service, a message from an
/// agent, a look at the time limits, giving up, dropping a waiter, a local deploy, the registration of a node, the
/// arrival and the end of a session.
pub proof fn operations_keep_wf(
    state: StateView,
    config: ServiceConfigView,
    instances: Seq<InstanceView>,
    message: AgentMessageView,
    service: Seq<char>,
    node_id: u64,
    now: i64,
)
    requires
        state.wf(),
    ensures
        state.dispatched(config, now).wf(),
        state.told(node_id, message, now).wf(),
        state.checked(service, now).wf(),
        state.without_waiters(service).wf(),
        (StateView { acks: state.acks.remove(service), ..state }).wf(),
        state.without_session(node_id).wf(),
        state.recorded(config, instances).wf(),
        state.heard_of(node_id, now).wf(),
        (StateView { nodes: state.nodes.insert(node_id, fresh_node(node_id, now)), ..state }).wf(),
        (StateView { sessions: state.sessions.insert(node_id), ..state }).wf(),
{
}

/// Whether both answers to a service's deploy are still out.
pub open spec fn awaits_receipt(state: StateView, service: Seq<char>) -> bool {
    &&& state.acks.contains_key(service)
    &&& state.deploys.contains_key(service)
    &&& !state.deploys[service].acknowledged
}

/// Whether the receipt of a service's deploy has been acknowledged and its result is out.
pub open spec fn awaits_result(state: StateView, service: Seq<char>) -> bool {
    state.deploys.contains_key(service) && state.deploys[service].acknowledged
}

/// Whether no service has a placeholder for a node.
pub open spec fn no_placeholders(state: StateView, node_id: u64) -> bool {
    forall|service: Seq<char>, i: int|
        state.services.contains_key(service) && 0 <= i < state.services[service].instances.len()
            ==> (#[trigger] state.services[service].instances[i]).runtime_id != remote_id(node_id)
}

/// A node's placeholders are gone from a service without the node, and nothing else is.
pub proof fn only_the_node_is_removed(service: ServiceView, node_id: u64, instance: InstanceView)
    ensures
        service.without_node(node_id).instances.contains(instance) == (service.instances.contains(
            instance,
        ) && instance.runtime_id != remote_id(node_id)),
    decreases service.instances.len(),
{
    let keep = |instance: InstanceView| instance.runtime_id != remote_id(node_id);
    let all = service.instances;
    reveal(Seq::filter);
    if all.len() > 0 {
        let front = ServiceView { instances: all.drop_last(), ..service };
        only_the_node_is_removed(front, node_id, instance);
        let kept = front.without_node(node_id).instances;
        assert(all =~= all.drop_last().push(all.last()));
        if all.drop_last().contains(instance) {
            let k = choose|k: int| 0 <= k < all.drop_last().len() && all.drop_last()[k] == instance;
            assert(all[k] == instance);
        }
        if all.contains(instance) && instance != all.last() {
            let k = choose|k: int| 0 <= k < all.len() && all[k] == instance;
            assert(all.drop_last()[k] == instance);
        }
        assert(all[all.len() - 1] == all.last());
        let result = service.without_node(node_id).instances;
        if keep(all.last()) {
            assert(result == kept.push(all.last()));
            assert(result[kept.len() as int] == all.last());
            if kept.contains(instance) {
                let k = choose|k: int| 0 <= k < kept.len() && kept[k] == instance;
                assert(result[k] == instance);
            }
            if result.contains(instance) && instance != all.last() {
                let k = choose|k: int| 0 <= k < result.len() && result[k] == instance;
                assert(kept[k] == instance);
            }
        } else {
            assert(result == kept);
        }
    }
}

/// A silent agent that does not acknowledge a deploy is given up at the end of the short wait:
/// the deploy fails as unreachable, neither waiter is left, the dead session is gone, and so
/// is every placeholder for what the agent ran.
pub proof fn silent_agent_is_given_up(state: StateView, service: Seq<char>, now: i64)
    requires
        awaits_receipt(state, service),
        expired(state.deploys[service].since, now, state.deploy.ack_timeout_secs),
        state.silent(state.deploys[service].node_id, now),
    ensures
        state.overdue(service, now) == Some(FailureView::Unreachable),
        !state.checked(service, now).acks.contains_key(service),
        !state.checked(service, now).deploys.contains_key(service),
        !state.checked(service, now).sessions.contains(state.deploys[service].node_id),
        no_placeholders(state.checked(service, now), state.deploys[service].node_id),
{
    let node_id = state.deploys[service].node_id;
    let after = state.checked(service, now);
    assert forall|name: Seq<char>, i: int|
        after.services.contains_key(name) && 0 <= i < after.services[name].instances.len()
            implies (#[trigger] after.services[name].instances[i]).runtime_id != remote_id(
        node_id,
    ) by {
        let instance = after.services[name].instances[i];
        only_the_node_is_removed(state.services[name], node_id, instance);
    }
}

/// A session that was torn down does not look alive: whatever is next to be deployed to its
/// node is refused at once, and nobody waits for it.
pub proof fn given_up_node_refuses_at_once(
    state: StateView,
    service: Seq<char>,
    now: i64,
    config: ServiceConfigView,
    later: i64,
)
    requires
        state.overdue(service, now) == Some(FailureView::Unreachable),
        config.target() == Some(state.deploys[service].node_id),
    ensures
        state.checked(service, now).dispatch(config) == DispatchView::Refused(
            FailureView::NotConnected,
        ),
        state.checked(service, now).dispatched(config, later) == state.checked(service, now),
{
    silent_agent_is_given_up(state, service, now);
}

/// An agent that still heartbeats is busy, not gone: however often the time limits of its
/// deploy are looked at, its session, its services and its heartbeats stay as they are, and
/// until the deploy has taken as long as it may, it is waited for.
pub proof fn heartbeating_agent_is_waited_for(state: StateView, service: Seq<char>, now: i64)
    requires
        awaits_receipt(state, service),
        !state.silent(state.deploys[service].node_id, now),
    ensures
        state.checked(service, now).sessions == state.sessions,
        state.checked(service, now).services == state.services,
        state.checked(service, now).nodes == state.nodes,
        !expired(state.deploys[service].since, now, state.deploy.completion_timeout_secs)
            ==> state.overdue(service, now) is None && state.checked(service, now) == state,
{
}

/// A heartbeat keeps a session: an agent that was heard of within the limit keeps its session
/// and its services, whatever answer it owes.
pub proof fn heartbeat_keeps_the_session(
    state: StateView,
    service: Seq<char>,
    heard: i64,
    now: i64,
)
    requires
        awaits_receipt(state, service),
        state.nodes.contains_key(state.deploys[service].node_id),
        now - heard <= 1000 * state.deploy.ws_idle_timeout_secs,
    ensures
        ({
            let after = state.heard_of(state.deploys[service].node_id, heard);
            &&& after.checked(service, now).sessions == state.sessions
            &&& after.checked(service, now).services == state.services
            &&& after.overdue(service, now) != Some(FailureView::Unreachable)
        }),
{
}

/// Running out of time on a live session is a time-out, and no more than that: the deploy
/// fails as unacknowledged, neither waiter is left, and the session survives.
pub proof fn busy_agent_times_out_without_a_kill(state: StateView, service: Seq<char>, now: i64)
    requires
        awaits_receipt(state, service),
        !state.silent(state.deploys[service].node_id, now),
        expired(state.deploys[service].since, now, state.deploy.ack_timeout_secs),
        expired(state.deploys[service].since, now, state.deploy.completion_timeout_secs),
    ensures
        state.overdue(service, now) == Some(FailureView::Unacknowledged),
        state.checked(service, now) == state.without_waiters(service),
        state.checked(service, now).sessions == state.sessions,
{
}

/// A look at the time limits tears a session down only if the deploy's own agent is silent and
/// has missed the wait for its receipt, and then that agent's session alone.
pub proof fn only_a_silent_agent_is_killed(
    state: StateView,
    service: Seq<char>,
    now: i64,
    node_id: u64,
)
    requires
        state.sessions.contains(node_id),
        !state.checked(service, now).sessions.contains(node_id),
    ensures
        awaits_receipt(state, service),
        state.deploys[service].node_id == node_id,
        state.silent(node_id, now),
        expired(state.deploys[service].since, now, state.deploy.ack_timeout_secs),
{
}

/// No wait is endless: whether its agent is silent, busy or has acknowledged it, a deploy has
/// failed once both limits have run out since its present wait began.
pub proof fn waits_are_bounded(state: StateView, service: Seq<char>, now: i64)
    requires
        state.deploys.contains_key(service),
        expired(state.deploys[service].since, now, state.deploy.ack_timeout_secs),
        expired(state.deploys[service].since, now, state.deploy.completion_timeout_secs),
    ensures
        state.overdue(service, now) is Some,
        !state.checked(service, now).acks.contains_key(service),
        !state.checked(service, now).deploys.contains_key(service),
{
}

/// A deploy ends with its waiter: once nobody waits for the receipt of a deploy that was not
/// acknowledged, the deploy has ended as abandoned, at whatever time it is looked at and
/// whatever its agent still says. Neither waiter is left, and nothing else changes.
pub proof fn dropped_waiter_ends_the_deploy(
    state: StateView,
    service: Seq<char>,
    error: Option<Seq<char>>,
    now: i64,
)
    requires
        awaits_receipt(state, service),
    ensures
        ({
            let dropped = StateView { acks: state.acks.remove(service), ..state };
            &&& dropped.overdue(service, now) == Some(FailureView::Abandoned)
            &&& dropped.checked(service, now) == state.without_waiters(service)
            &&& dropped.acknowledged(service, now) == dropped
            &&& dropped.told_failure(service, error) == Some(FailureView::Abandoned)
            &&& dropped.completed(service, error, now) == state.without_waiters(service)
        }),
{
    let dropped = StateView { acks: state.acks.remove(service), ..state };
    assert(dropped.acks.remove(service) =~= state.acks.remove(service));
}

/// No deploy fails early while someone waits for it: within the wait for its receipt nothing
/// happens to it, and once it is acknowledged, nothing happens to it within the time that it
/// may take.
pub proof fn waits_are_kept(state: StateView, service: Seq<char>, now: i64)
    requires
        !state.dropped(service),
        awaits_receipt(state, service) ==> !expired(
            state.deploys[service].since,
            now,
            state.deploy.ack_timeout_secs,
        ),
        awaits_result(state, service) ==> !expired(
            state.deploys[service].since,
            now,
            state.deploy.completion_timeout_secs,
        ),
    ensures
        state.overdue(service, now) is None,
        state.checked(service, now) == state,
{
}

/// A look at the limits comes in time: as long as the deploy has not failed, the next look
/// lies ahead, and not behind the moment at which both limits have run out.
pub proof fn next_look_is_in_time(state: StateView, service: Seq<char>, now: i64)
    requires
        state.deploys.contains_key(service),
        state.overdue(service, now) is None,
        now < i64::MAX,
    ensures
        ({
            let time = upcoming(state.next_look(service, now), now);
            let since = state.deploys[service].since;
            &&& now < time
            &&& time <= since + 1000 * state.deploy.ack_timeout_secs || time <= since + 1000
                * state.deploy.completion_timeout_secs
        }),
{
}

/// The first look comes at the end of the short wait: while the receipt is awaited and its time
/// has not run out, the next look is at the moment at which it does, if a clock can show that
/// moment, and an agent that is silent then is given up there and then.
pub proof fn silent_agent_fails_fast(state: StateView, service: Seq<char>, now: i64)
    requires
        awaits_receipt(state, service),
        now < state.deploys[service].since + 1000 * state.deploy.ack_timeout_secs <= i64::MAX,
    ensures
        ({
            let time = upcoming(state.next_look(service, now), now);
            &&& time == state.deploys[service].since + 1000 * state.deploy.ack_timeout_secs
            &&& state.silent(state.deploys[service].node_id, time) ==> state.overdue(service, time)
                == Some(FailureView::Unreachable)
        }),
{
}

/// Silence is noticed soon: once the short wait is over, the next look is never further away
/// than another such wait, or than the clock's next tick where there is no wait.
pub proof fn later_looks_keep_to_the_short_wait(state: StateView, service: Seq<char>, now: i64)
    requires
        awaits_receipt(state, service),
        expired(state.deploys[service].since, now, state.deploy.ack_timeout_secs),
        now < i64::MAX,
    ensures
        ({
            let time = upcoming(state.next_look(service, now), now);
            &&& now < time
            &&& time <= now + 1000 * state.deploy.ack_timeout_secs || time == now + 1
        }),
{
}

/// Whatever a deploy's agent answers, or fails to answer, is no concern of the other deploys:
/// their waiters stay as they are.
pub proof fn other_waiters_stay(
    state: StateView,
    service: Seq<char>,
    other: Seq<char>,
    error: Option<Seq<char>>,
    now: i64,
)
    requires
        service != other,
    ensures
        state.checked(service, now).acks.contains_key(other) == state.acks.contains_key(other),
        state.checked(service, now).deploys.contains_key(other) == state.deploys.contains_key(
            other,
        ),
        state.deploys.contains_key(other) ==> state.checked(service, now).deploys[other]
            == state.deploys[other],
        state.completed(service, error, now).acks.contains_key(other) == state.acks.contains_key(
            other,
        ),
        state.completed(service, error, now).deploys.contains_key(other)
            == state.deploys.contains_key(other),
        state.deploys.contains_key(other) ==> state.completed(service, error, now).deploys[other]
            == state.deploys[other],
        state.acknowledged(service, now).acks.contains_key(other) == state.acks.contains_key(other),
        state.deploys.contains_key(other) ==> state.acknowledged(service, now).deploys[other]
            == state.deploys[other],
{
}

/// Neither waiter outlives the result of its deploy.
pub proof fn result_removes_both_waiters(
    state: StateView,
    service: Seq<char>,
    error: Option<Seq<char>>,
    now: i64,
)
    requires
        state.wf(),
    ensures
        !state.completed(service, error, now).acks.contains_key(service),
        !state.completed(service, error, now).deploys.contains_key(service),
{
}

/// A failure that the agent tells is told on in the agent's own words, and leaves the sessions
/// and the services as they were.
pub proof fn agent_error_is_told_verbatim(
    state: StateView,
    service: Seq<char>,
    reason: Seq<char>,
    now: i64,
)
    requires
        state.deploys.contains_key(service),
        !state.dropped(service),
    ensures
        state.told_failure(service, Some(reason)) == Some(FailureView::Agent(reason)),
        FailureView::Agent(reason).message() == reason,
        state.completed(service, Some(reason), now).sessions == state.sessions,
        state.completed(service, Some(reason), now).services == state.services,
{
}

/// A late receipt counts: an agent that acknowledges before its deploy has failed, however
/// many looks at the limits came before, is given the full time for the deploy from then on,
/// and the deploy succeeds once the agent says so.
pub proof fn late_receipt_counts(
    state: StateView,
    service: Seq<char>,
    looked: i64,
    received: i64,
    finished: i64,
)
    requires
        awaits_receipt(state, service),
        state.overdue(service, looked) is None,
    ensures
        ({
            let caught_up = state.checked(service, looked).acknowledged(service, received);
            &&& awaits_result(caught_up, service)
            &&& !expired(received, finished, state.deploy.completion_timeout_secs)
                ==> caught_up.overdue(service, finished) is None
            &&& caught_up.told_failure(service, None) is None
            &&& caught_up.completed(service, None, finished).services.contains_key(service)
            &&& caught_up.completed(service, None, finished).services[service] == (ServiceView {
                config: state.deploys[service].config,
                instances: seq![
                    placeholder(service, state.deploys[service].node_id, finished),
                ],
            })
        }),
{
}

/// A service that was deployed is not deployed again as long as its configuration stays the
/// same: it counts as converged, and nothing is sent.
pub proof fn unchanged_service_is_not_sent_again(
    state: StateView,
    service: Seq<char>,
    finished: i64,
    later: i64,
)
    requires
        state.wf(),
        state.deploys.contains_key(service),
        !state.dropped(service),
    ensures
        ({
            let after = state.completed(service, None, finished);
            let config = state.deploys[service].config;
            &&& after.dispatch(config) is Converged
            &&& after.dispatched(config, later) == after
        }),
{
    let after = state.completed(service, None, finished);
    let deploy = state.deploys[service];
    let instance = after.services[service].instances[0];
    assert(instance.runtime_id == remote_id(deploy.node_id));
    assert(instance.status == WorkloadStatus::Running);
    assert(after.services[service].runs_on(deploy.node_id));
}

/// A service that is not pinned is treated alike: once it is taken down with a running instance,
/// it counts as converged as long as its configuration stays the same.
pub proof fn unchanged_local_service_is_left_alone(
    state: StateView,
    config: ServiceConfigView,
    instances: Seq<InstanceView>,
    i: int,
    later: i64,
)
    requires
        config.pinned_to() is None,
        0 <= i < instances.len(),
        instances[i].status == WorkloadStatus::Running,
    ensures
        state.recorded(config, instances).dispatch(config) is Converged,
        state.recorded(config, instances).dispatched(config, later) == state.recorded(
            config,
            instances,
        ),
{
    let service = state.recorded(config, instances).services[config.name];
    assert(service.instances[i].status == WorkloadStatus::Running);
    assert(service.runs());
}

/// A service that is not pinned is for the master's own runtime if its configuration has
/// changed or nothing of it runs, and nothing is sent.
pub proof fn changed_local_service_is_for_the_master(
    state: StateView,
    config: ServiceConfigView,
    now: i64,
)
    requires
        config.pinned_to() is None,
        state.services.contains_key(config.name) ==> state.services[config.name].config != config
            || !state.services[config.name].runs(),
    ensures
        state.dispatch(config) is Local,
        state.dispatched(config, now) == state,
{
}

/// A service whose configuration has changed is sent to its node, if the node's agent has a
/// session, and its receipt and result are waited for.
pub proof fn changed_service_is_sent(
    state: StateView,
    config: ServiceConfigView,
    node_id: u64,
    now: i64,
)
    requires
        config.target() == Some(node_id),
        state.services.contains_key(config.name) ==> state.services[config.name].config != config,
        state.sessions.contains(node_id),
    ensures
        state.dispatch(config) == (DispatchView::Send {
            node_id,
            message: MasterMessageView::Deploy { spec: workload_of(config) },
        }),
        awaits_receipt(state.dispatched(config, now), config.name),
        state.dispatched(config, now).deploys[config.name].config == config,
        state.dispatched(config, now).deploys[config.name].since == now,
{
}

/// The end of one node's session leaves what runs on other nodes alone.
pub proof fn other_nodes_keep_running(
    state: StateView,
    gone: u64,
    other: u64,
    config: ServiceConfigView,
)
    requires
        gone != other,
        state.converged(config, other),
    ensures
        state.without_session(gone).converged(config, other),
        state.without_session(gone).sessions.contains(other) == state.sessions.contains(other),
{
    let service = state.services[config.name];
    let i = choose|i: int|
        0 <= i < service.instances.len() && (#[trigger] service.instances[i]).runtime_id
            == remote_id(other) && service.instances[i].status == WorkloadStatus::Running;
    let instance = service.instances[i];
    if remote_id(gone) == remote_id(other) {
        remote_id_is_unique(gone, other);
    }
    assert(service.instances.contains(instance));
    only_the_node_is_removed(service, gone, instance);
    let kept = service.without_node(gone).instances;
    let k = choose|k: int| 0 <= k < kept.len() && kept[k] == instance;
    assert(kept[k].runtime_id == remote_id(other));
    assert(service.without_node(gone).runs_on(other));
}

/// A node that has just registered, or was just heard of, is not silent.
pub proof fn heard_of_agent_is_not_silent(state: StateView, node_id: u64, now: i64)
    requires
        state.nodes.contains_key(node_id),
    ensures
        !(StateView {
            nodes: state.nodes.insert(node_id, fresh_node(node_id, now)),
            ..state
        }).silent(node_id, now),
        !state.heard_of(node_id, now).silent(node_id, now),
{
}

/// A node whose heartbeat lies a second past the limit is silent.
pub proof fn backdated_agent_is_silent(state: StateView, node_id: u64, now: i64)
    requires
        now - 1000 * (state.deploy.ws_idle_timeout_secs + 1) >= i64::MIN,
    ensures
        state.heard_of(
            node_id,
            (now - 1000 * (state.deploy.ws_idle_timeout_secs + 1)) as i64,
        ).silent(node_id, now),
{
}

} // verus!
