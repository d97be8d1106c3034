//! What node ids, time limits, nodes, placeholders and the plain configurations come to.

use vstd::prelude::*;
use crate::agent::reports_exactly;
use crate::agent::WorkloadRecordView;
use crate::config::placed_on;
use crate::config::Replicas;
use crate::config::RuntimeKind;
use crate::config::ServiceConfigView;
use crate::decimal::decimal;
use crate::decimal::decimal_text_reads_back;
use crate::decimal::decimal_value;
use crate::decimal::is_decimal;
use crate::decimal::node_id_of;
use crate::decimal::node_id_reads_back;
use crate::laws::only_the_node_is_removed;
use crate::failure::live_agent_is_not_told_unreachable;
use crate::failure::occurs_at;
use crate::failure::occurs_in;
use crate::failure::unreachable_is_told_apart;
use crate::failure::FailureView;
use crate::names::lists;
use crate::nodes::expired;
use crate::nodes::fresh_node;
use crate::nodes::NodeView;
use crate::services::placeholder;
use crate::services::remote_id;
use crate::services::services_without_node;
use crate::services::InstanceView;
use crate::services::ServiceView;
use crate::wire::WorkloadReportView;
use crate::workload::plain_workload;
use crate::workload::workload_of;
use crate::workload::WorkloadStatus;

verus! {

/// Decimal digits count from the right: one more digit at the end makes ten times the number
/// and the digit.
pub proof fn digits_count_by_ten(digits: Seq<char>, digit: char)
    requires
        '0' <= digit <= '9',
    ensures
        decimal_value(Seq::empty()) == 0,
        decimal_value(digits.push(digit)) == 10 * decimal_value(digits) + (digit as int
            - '0' as int),
{
    assert(digits.push(digit).drop_last() =~= digits);
}

/// A label stands for a node exactly if it is one or more decimal digits of a number that a
/// node id can hold, and then for that number.
pub proof fn only_digits_are_a_node(label: Seq<char>)
    ensures
        node_id_of(label) is Some <==> label.len() > 0 && (forall|i: int|
            0 <= i < label.len() ==> '0' <= #[trigger] label[i] <= '9') && decimal_value(label)
            <= 0xffff_ffff_ffff_ffff,
        node_id_of(label) is Some ==> node_id_of(label)->0 == decimal_value(label),
{
}

/// A number is written without leading zeros, in decimal digits alone.
pub proof fn numbers_have_no_leading_zeros(n: nat)
    ensures
        decimal(n).len() > 0,
        n > 0 ==> decimal(n)[0] != '0',
        n == 0 ==> decimal(n) == seq!['0'],
        forall|i: int| 0 <= i < decimal(n).len() ==> '0' <= #[trigger] decimal(n)[i] <= '9',
    decreases n,
{
    decimal_text_reads_back(n);
    assert(is_decimal(decimal(n)));
    if n >= 10 {
        numbers_have_no_leading_zeros(n / 10);
        assert(decimal(n)[0] == decimal(n / 10)[0]);
    }
}

/// A time limit runs out at one moment: before it, it has not run out, and from then on it has.
pub proof fn limits_run_out_once(since: i64, now: i64, later: i64, limit_secs: u64)
    ensures
        expired(since, now, limit_secs) <==> now - since >= 1000 * limit_secs,
        expired(since, now, limit_secs) && now <= later ==> expired(since, later, limit_secs),
{
}

/// A longer limit never runs out before a shorter one.
pub proof fn longer_limits_run_out_later(since: i64, now: i64, short: u64, long: u64)
    requires
        short <= long,
        expired(since, now, long),
    ensures
        expired(since, now, short),
{
}

/// A node is quiet exactly while its last heartbeat lies further back than the limit, and stays
/// quiet until it is heard of again.
pub proof fn quiet_nodes_stay_quiet(node: NodeView, now: i64, later: i64, idle_secs: u64)
    ensures
        node.quiet(now, idle_secs) <==> now - node.last_heartbeat > 1000 * idle_secs,
        node.quiet(now, idle_secs) && now <= later ==> node.quiet(later, idle_secs),
        !(NodeView { last_heartbeat: now, ..node }).quiet(now, idle_secs),
{
}

/// A node that registers is alive now, has its id in its address, and has nothing else yet.
pub proof fn fresh_node_is_alive_and_empty(node_id: u64, now: i64)
    ensures
        fresh_node(node_id, now).node_id == node_id,
        fresh_node(node_id, now).last_heartbeat == now,
        fresh_node(node_id, now).address == "node-"@ + decimal(node_id as nat) + ":6881"@,
        fresh_node(node_id, now).peer_ip is None,
        fresh_node(node_id, now).labels == Map::<Seq<char>, Seq<char>>::empty(),
        !fresh_node(node_id, now).drain,
        fresh_node(node_id, now).memory_bytes == 0,
        fresh_node(node_id, now).memory_total == 0,
        fresh_node(node_id, now).disk_used == 0,
        fresh_node(node_id, now).disk_total == 0,
        fresh_node(node_id, now).net_rx == 0,
        fresh_node(node_id, now).net_tx == 0,
{
}

/// A placeholder's runtime id is a fixed word and its node's id, from which the node is found.
pub proof fn placeholder_id_names_its_node(node_id: u64)
    ensures
        remote_id(node_id).take(7) == "remote-"@,
        node_id_of(remote_id(node_id).skip(7)) == Some(node_id),
        remote_id(node_id) == "remote-"@ + decimal(node_id as nat),
{
    reveal_strlit("remote-");
    node_id_reads_back(node_id);
    assert(remote_id(node_id).take(7) =~= "remote-"@);
    assert(remote_id(node_id).skip(7) =~= decimal(node_id as nat));
}

/// A placeholder stands for a running instance of its service on its node, started now.
pub proof fn placeholder_runs(service: Seq<char>, node_id: u64, now: i64)
    ensures
        placeholder(service, node_id, now).runtime_id == "remote-"@ + decimal(node_id as nat),
        placeholder(service, node_id, now).name == "orca-"@ + service,
        placeholder(service, node_id, now).status == WorkloadStatus::Running,
        placeholder(service, node_id, now).started_at == now,
        placeholder(service, node_id, now).metadata == Map::<Seq<char>, Seq<char>>::empty(),
        placeholder(service, node_id, now).host_port is None,
        placeholder(service, node_id, now).container_address is None,
        !placeholder(service, node_id, now).is_canary,
{
}

/// A service runs if one of its instances does, and runs on a node if the instance is the
/// node's; if no instance does, it does not.
pub proof fn running_is_a_matter_of_instances(service: ServiceView, node_id: u64)
    ensures
        service.runs() <==> exists|instance: InstanceView| #[trigger]
            service.instances.contains(instance) && instance.status == WorkloadStatus::Running,
        service.runs_on(node_id) <==> exists|instance: InstanceView| #[trigger]
            service.instances.contains(instance) && instance.status == WorkloadStatus::Running
                && instance.runtime_id == "remote-"@ + decimal(node_id as nat),
        service.runs_on(node_id) ==> service.runs(),
        service.instances.len() == 0 ==> !service.runs() && !service.runs_on(node_id),
{
    if service.runs() {
        let i = choose|i: int|
            0 <= i < service.instances.len() && (#[trigger] service.instances[i]).status
                == WorkloadStatus::Running;
        assert(service.instances.contains(service.instances[i]));
    }
    if service.runs_on(node_id) {
        let i = choose|i: int|
            0 <= i < service.instances.len() && (#[trigger] service.instances[i]).runtime_id
                == remote_id(node_id) && service.instances[i].status == WorkloadStatus::Running;
        assert(service.instances.contains(service.instances[i]));
        assert(service.instances[i].status == WorkloadStatus::Running);
    }
}

/// Removing a node's placeholders keeps the other instances in their order, as often as they
/// occur, and the configuration: what is left of two lists is left of one after the other, and
/// of a single instance either it or nothing is left.
pub proof fn removal_keeps_the_order(
    service: ServiceView,
    front: Seq<InstanceView>,
    back: Seq<InstanceView>,
    instance: InstanceView,
    node_id: u64,
)
    requires
        service.instances == front + back,
    ensures
        service.without_node(node_id).config == service.config,
        service.without_node(node_id).instances == (ServiceView {
            instances: front,
            ..service
        }).without_node(node_id).instances + (ServiceView {
            instances: back,
            ..service
        }).without_node(node_id).instances,
        instance.runtime_id == "remote-"@ + decimal(node_id as nat) ==> (ServiceView {
            instances: seq![instance],
            ..service
        }).without_node(node_id).instances == Seq::<InstanceView>::empty(),
        instance.runtime_id != "remote-"@ + decimal(node_id as nat) ==> (ServiceView {
            instances: seq![instance],
            ..service
        }).without_node(node_id).instances == seq![instance],
{
    let keep = |instance: InstanceView| instance.runtime_id != remote_id(node_id);
    Seq::filter_distributes_over_add(front, back, keep);
    reveal(Seq::filter);
    let single = seq![instance];
    assert(single.drop_last() =~= Seq::<InstanceView>::empty());
    assert(single.last() == instance);
    assert(single.drop_last().filter(keep) =~= Seq::<InstanceView>::empty());
    if keep(instance) {
        assert(single.filter(keep) =~= single);
    } else {
        assert(single.filter(keep) =~= Seq::<InstanceView>::empty());
    }
}

/// Removing a node removes it from every service, and removes no service.
pub proof fn removal_reaches_every_service(
    services: Map<Seq<char>, ServiceView>,
    service: Seq<char>,
    instance: InstanceView,
    node_id: u64,
)
    ensures
        services_without_node(services, node_id).contains_key(service) == services.contains_key(
            service,
        ),
        services.contains_key(service) ==> services_without_node(services, node_id)[service].config
            == services[service].config,
        services.contains_key(service) ==> services_without_node(
            services,
            node_id,
        )[service].instances.contains(instance) == (services[service].instances.contains(instance)
            && instance.runtime_id != "remote-"@ + decimal(node_id as nat)),
        services.contains_key(service) ==> services_without_node(services, node_id)[service]
            == services[service].without_node(node_id),
{
    if services.contains_key(service) {
        only_the_node_is_removed(services[service], node_id, instance);
    }
}

/// A report that is exact names each workload once, with its service and its state, and no
/// other workload.
pub proof fn exact_report_names_each_workload(
    report: Seq<WorkloadReportView>,
    workloads: Map<Seq<char>, WorkloadRecordView>,
    id: Seq<char>,
    i: int,
    j: int,
)
    requires
        reports_exactly(report, workloads),
        0 <= i < report.len(),
        0 <= j < report.len(),
    ensures
        workloads.contains_key(id) <==> exists|k: int|
            0 <= k < report.len() && (#[trigger] report[k]).runtime_id == id,
        report[i].runtime_id == id ==> report[i].service_name == workloads[id].service_name
            && report[i].status == workloads[id].status,
        report[i].runtime_id == report[j].runtime_id ==> i == j,
{
}

/// The entries of a map name each of its names once, with its value, and no other name.
pub proof fn entries_name_each_name_once(
    list: Seq<(String, String)>,
    map: Map<Seq<char>, Seq<char>>,
    name: Seq<char>,
    i: int,
    j: int,
)
    requires
        lists(list, map),
        0 <= i < list.len(),
        0 <= j < list.len(),
    ensures
        map.contains_key(name) <==> exists|k: int|
            0 <= k < list.len() && (#[trigger] list[k]).0@ == name,
        list[i].0@ == name ==> map[name] == list[i].1@,
        list[i].0@ == list[j].0@ ==> i == j,
{
}

/// A service that is only pinned has its name, its image, its port, one instance, its node, and
/// nothing else.
pub proof fn pinned_service_has_nothing_else(name: Seq<char>, node: Seq<char>)
    ensures
        ({
            let config = placed_on(name, node);
            &&& config.name == name
            &&& config.placement is Some
            &&& config.placement->0.node == Some(node)
            &&& config.placement->0.labels is None
            &&& config.placement->0.requires_gpu is None
            &&& config.runtime == RuntimeKind::Container
            &&& config.image == Some("nginx:latest"@)
            &&& config.replicas == Replicas::Fixed(1)
            &&& config.port == Some(8080u16)
            &&& config.host_port is None
            &&& config.env == Map::<Seq<char>, Seq<char>>::empty()
            &&& !config.internal
            &&& config.project is None && config.module is None && config.domain is None
            &&& config.health is None && config.readiness is None && config.liveness is None
            &&& config.resources is None && config.volume is None && config.deploy is None
            &&& config.network is None && config.assets is None && config.build is None
            &&& config.tls_cert is None && config.tls_key is None && config.strip_prefix is None
            &&& config.pull_policy is None && config.backup is None
            &&& config.restart_policy is None
            &&& config.domains.len() == 0 && config.routes.len() == 0
            &&& config.aliases.len() == 0 && config.mounts.len() == 0
            &&& config.triggers.len() == 0 && config.depends_on.len() == 0
            &&& config.cmd.len() == 0 && config.extra_ports.len() == 0
        }),
{
}

/// A plain workload has its name, its image and one instance, and nothing else.
pub proof fn plain_workload_has_nothing_else(name: Seq<char>)
    ensures
        ({
            let workload = plain_workload(name);
            &&& workload.name == name
            &&& workload.runtime == RuntimeKind::Container
            &&& workload.image == Some("nginx:alpine"@)
            &&& workload.replicas == Replicas::Fixed(1)
            &&& workload.env == Map::<Seq<char>, Seq<char>>::empty()
            &&& workload.routes.len() == 0 && workload.aliases.len() == 0
            &&& workload.mounts.len() == 0 && workload.triggers.len() == 0
            &&& !workload.internal
        }),
{
}

/// What travels of a configuration travels unchanged, each field under its own name.
pub proof fn workload_is_as_configured(config: ServiceConfigView)
    ensures
        workload_of(config).name == config.name,
        workload_of(config).runtime == config.runtime,
        workload_of(config).image == config.image,
        workload_of(config).replicas == config.replicas,
        workload_of(config).routes == config.routes,
        workload_of(config).env == config.env,
        workload_of(config).aliases == config.aliases,
        workload_of(config).mounts == config.mounts,
        workload_of(config).triggers == config.triggers,
        workload_of(config).internal == config.internal,
{
}

/// A service is pinned by the node of its placement and by nothing else, and its target is the
/// node that the label stands for.
pub proof fn placement_decides_the_target(config: ServiceConfigView)
    ensures
        config.placement is None ==> config.pinned_to() is None && config.target() is None,
        config.placement is Some ==> config.pinned_to() == config.placement->0.node,
        config.placement is Some && config.placement->0.node is None ==> config.target() is None,
        config.placement is Some && config.placement->0.node is Some ==> config.target()
            == node_id_of(config.placement->0.node->0),
{
}

/// What a failure is told by tells what happened: only an agent that went silent is told not to
/// have acknowledged and to be unreachable, and only a deploy that ran out of time on a live
/// agent is told to have timed out.
pub proof fn messages_tell_what_happened(failure: FailureView)
    requires
        !(failure is Agent),
    ensures
        occurs_in("unreachable"@, failure.message()) <==> failure is Unreachable,
        occurs_in("did not acknowledge"@, failure.message()) <==> failure is Unreachable,
        occurs_in("timed out"@, failure.message()) <==> failure is Unacknowledged
            || failure is Unfinished,
{
    let whole = failure.message();
    reveal_strlit("unreachable");
    reveal_strlit("did not acknowledge");
    reveal_strlit("timed out");
    unreachable_is_told_apart();
    live_agent_is_not_told_unreachable();
    reveal_strlit("the agent is not connected");
    reveal_strlit("the agent is heartbeating, but its receipt of the deploy timed out");
    reveal_strlit("the deploy timed out after the agent received it");
    reveal_strlit("the deploy was abandoned");
    if failure is Unfinished {
        assert(whole.subrange(11, 20) =~= "timed out"@);
        assert(occurs_at("timed out"@, whole, 11));
    }
    if failure is NotConnected || failure is Abandoned || failure is Unfinished {
        assert forall|place: int| !occurs_at("unreachable"@, whole, place) by {
            if occurs_at("unreachable"@, whole, place) {
                assert(whole.subrange(place, place + 11)[0] == 'u');
                assert(whole.subrange(place, place + 11)[1] == 'n');
                assert(whole[place] == 'u' && whole[place + 1] == 'n');
            }
        }
    }
    if !(failure is Unreachable) {
        assert forall|place: int| !occurs_at("did not acknowledge"@, whole, place) by {
            if occurs_at("did not acknowledge"@, whole, place) {
                assert(whole.subrange(place, place + 19)[10] == 'k');
                assert(whole[place + 10] == 'k');
            }
        }
    }
    if failure is NotConnected || failure is Abandoned {
        assert forall|place: int| !occurs_at("timed out"@, whole, place) by {
            if occurs_at("timed out"@, whole, place) {
                assert(whole.subrange(place, place + 9)[2] == 'm');
                assert(whole[place + 2] == 'm');
            }
        }
    }
}

} // verus!
