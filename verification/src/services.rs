//! What the master knows of the services: their configurations and instances.

use vstd::prelude::*;
use crate::config::ServiceConfig;
use crate::config::ServiceConfigView;
use crate::decimal::decimal;
use crate::decimal::decimal_text;
use crate::decimal::decimal_text_is_unique;
use crate::names::NameMap;
use crate::text::opt_text;
use crate::text::same_text;
use crate::workload::WorkloadStatus;

verus! {

/// What is known of an instance's health.
#[derive(Clone, Copy, Debug, PartialEq, Eq, Structural)]
pub enum HealthState {
    /// No check is configured.
    NoCheck,
}

/// How an instance is found in its runtime.
pub struct WorkloadHandle {
    /// The runtime's id of the instance.
    pub runtime_id: String,
    /// The instance's name.
    pub name: String,
    /// Further data of the runtime.
    pub metadata: NameMap<String>,
}

/// An instance of a service.
pub struct InstanceState {
    /// How the instance is found in its runtime.
    pub handle: WorkloadHandle,
    /// Its last known state.
    pub status: WorkloadStatus,
    /// The port of the host that is bound to it.
    pub host_port: Option<u16>,
    /// Its address in the container network.
    pub container_address: Option<String>,
    /// Its health.
    pub health: HealthState,
    /// When it was started, in milliseconds.
    pub started_at: i64,
    /// Whether it belongs to a canary.
    pub is_canary: bool,
}

/// An instance by its texts.
#[verifier::ext_equal]
pub struct InstanceView {
    pub runtime_id: Seq<char>,
    pub name: Seq<char>,
    pub metadata: Map<Seq<char>, Seq<char>>,
    pub status: WorkloadStatus,
    pub host_port: Option<u16>,
    pub container_address: Option<Seq<char>>,
    pub health: HealthState,
    pub started_at: i64,
    pub is_canary: bool,
}

impl View for InstanceState {
    type V = InstanceView;

    open spec fn view(&self) -> InstanceView {
        InstanceView {
            runtime_id: self.handle.runtime_id@,
            name: self.handle.name@,
            metadata: self.handle.metadata@,
            status: self.status,
            host_port: self.host_port,
            container_address: opt_text(self.container_address),
            health: self.health,
            started_at: self.started_at,
            is_canary: self.is_canary,
        }
    }
}

/// A service: its configuration as it was last deployed, and its instances.
pub struct ServiceState {
    /// The configuration that was deployed last.
    pub config: ServiceConfig,
    /// The instances. An instance on another node is a placeholder for what its agent runs.
    pub instances: Vec<InstanceState>,
}

/// A service by its texts.
#[verifier::ext_equal]
pub struct ServiceView {
    pub config: ServiceConfigView,
    pub instances: Seq<InstanceView>,
}

/// The views of a list of instances.
pub open spec fn instance_views(list: Seq<InstanceState>) -> Seq<InstanceView> {
    list.map_values(|instance: InstanceState| instance@)
}

impl View for ServiceState {
    type V = ServiceView;

    open spec fn view(&self) -> ServiceView {
        ServiceView { config: self.config@, instances: instance_views(self.instances@) }
    }
}

/// The runtime id of the placeholders for what a node's agent runs.
pub open spec fn remote_id(node_id: u64) -> Seq<char> {
    "remote-"@ + decimal(node_id as nat)
}

/// The placeholder of a service that runs on another node.
pub open spec fn placeholder(service: Seq<char>, node_id: u64, now: i64) -> InstanceView {
    InstanceView {
        runtime_id: remote_id(node_id),
        name: "orca-"@ + service,
        metadata: Map::empty(),
        status: WorkloadStatus::Running,
        host_port: None,
        container_address: None,
        health: HealthState::NoCheck,
        started_at: now,
        is_canary: false,
    }
}

impl ServiceView {
    /// Whether the service has a running instance.
    pub open spec fn runs(self) -> bool {
        exists|i: int|
            0 <= i < self.instances.len() && (#[trigger] self.instances[i]).status
                == WorkloadStatus::Running
    }

    /// Whether the service has a running placeholder for a node.
    pub open spec fn runs_on(self, node_id: u64) -> bool {
        exists|i: int|
            0 <= i < self.instances.len() && (#[trigger] self.instances[i]).runtime_id == remote_id(
                node_id,
            ) && self.instances[i].status == WorkloadStatus::Running
    }

    /// The service without the placeholders for a node.
    pub open spec fn without_node(self, node_id: u64) -> ServiceView {
        ServiceView {
            config: self.config,
            instances: self.instances.filter(
                |instance: InstanceView| instance.runtime_id != remote_id(node_id),
            ),
        }
    }
}

/// All services without the placeholders for a node.
pub open spec fn services_without_node(
    services: Map<Seq<char>, ServiceView>,
    node_id: u64,
) -> Map<Seq<char>, ServiceView> {
    services.map_values(|service: ServiceView| service.without_node(node_id))
}

/// Different nodes have different placeholders.
pub proof fn remote_id_is_unique(a: u64, b: u64)
    requires
        remote_id(a) == remote_id(b),
    ensures
        a == b,
{
    let prefix = "remote-"@;
    assert(remote_id(a).skip(prefix.len() as int) =~= decimal(a as nat));
    assert(remote_id(b).skip(prefix.len() as int) =~= decimal(b as nat));
    decimal_text_is_unique(a as nat, b as nat);
}

/// Writes the runtime id of a node's placeholders.
pub fn remote_runtime_id(node_id: u64) -> (id: String)
    ensures
        id@ == remote_id(node_id),
{
    let digits: String = decimal_text(node_id);
    String::from_str("remote-").concat(digits.as_str())
}

/// The placeholder for a service that a node's agent has started.
pub fn remote_placeholder(service: &String, node_id: u64, now: i64) -> (instance: InstanceState)
    ensures
        instance@ == placeholder(service@, node_id, now),
{
    InstanceState {
        handle: WorkloadHandle {
            runtime_id: remote_runtime_id(node_id),
            name: String::from_str("orca-").concat(service.as_str()),
            metadata: NameMap::new(),
        },
        status: WorkloadStatus::Running,
        host_port: None,
        container_address: None,
        health: HealthState::NoCheck,
        started_at: now,
        is_canary: false,
    }
}

impl ServiceState {
    /// A service without instances.
    pub fn from_config(config: ServiceConfig) -> (service: ServiceState)
        ensures
            service@ == (ServiceView { config: config@, instances: Seq::empty() }),
    {
        let service = ServiceState { config, instances: Vec::new() };
        assert(service@.instances =~= Seq::empty());
        service
    }

    /// Adds an instance behind the others.
    pub fn add_instance(&mut self, instance: InstanceState)
        ensures
            final(self)@ == (ServiceView {
                instances: old(self)@.instances.push(instance@),
                ..old(self)@
            }),
    {
        let ghost before = self@;
        self.instances.push(instance);
        assert(self@.instances =~= before.instances.push(instance@));
    }

    /// Whether the service has a running instance.
    pub fn has_running_instance(&self) -> (found: bool)
        ensures
            found == self@.runs(),
    {
        let mut i: usize = 0;
        while i < self.instances.len()
            invariant
                i <= self.instances@.len(),
                forall|j: int|
                    0 <= j < i ==> (#[trigger] self.instances@[j])@.status
                        != WorkloadStatus::Running,
            decreases self.instances@.len() - i,
        {
            if self.instances[i].status == WorkloadStatus::Running {
                assert(self@.instances[i as int] == self.instances@[i as int]@);
                return true;
            }
            i = i + 1;
        }
        proof {
            assert forall|j: int| 0 <= j < self@.instances.len() implies (
            #[trigger] self@.instances[j]).status != WorkloadStatus::Running by {
                assert(self@.instances[j] == self.instances@[j]@);
            }
        }
        false
    }

    /// Whether the service has a running placeholder for a node.
    pub fn has_running_placeholder(&self, node_id: u64) -> (found: bool)
        ensures
            found == self@.runs_on(node_id),
    {
        let id: String = remote_runtime_id(node_id);
        let mut i: usize = 0;
        while i < self.instances.len()
            invariant
                id@ == remote_id(node_id),
                i <= self.instances@.len(),
                forall|j: int|
                    0 <= j < i ==> !((#[trigger] self.instances@[j])@.runtime_id == remote_id(
                        node_id,
                    ) && self.instances@[j]@.status == WorkloadStatus::Running),
            decreases self.instances@.len() - i,
        {
            let instance: &InstanceState = &self.instances[i];
            if same_text(&instance.handle.runtime_id, &id) && instance.status
                == WorkloadStatus::Running {
                assert(self@.instances[i as int] == self.instances@[i as int]@);
                return true;
            }
            i = i + 1;
        }
        proof {
            assert forall|j: int| 0 <= j < self@.instances.len() implies !((
            #[trigger] self@.instances[j]).runtime_id == remote_id(node_id)
                && self@.instances[j].status == WorkloadStatus::Running) by {
                assert(self@.instances[j] == self.instances@[j]@);
            }
        }
        false
    }

    /// Removes the placeholders for a node and keeps the other instances in their order.
    pub fn remove_node(&mut self, node_id: u64)
        ensures
            final(self)@ == old(self)@.without_node(node_id),
    {
        let ghost before = self@;
        let ghost keep = |instance: InstanceView| instance.runtime_id != remote_id(node_id);
        let id: String = remote_runtime_id(node_id);
        let mut kept: usize = 0;
        let ghost mut seen: int = 0;
        assert(before.instances.take(0).filter(keep) =~= Seq::empty()) by {
            reveal(Seq::filter);
        }
        while kept < self.instances.len()
            invariant
                id@ == remote_id(node_id),
                keep == (|instance: InstanceView| instance.runtime_id != remote_id(node_id)),
                0 <= seen <= before.instances.len(),
                kept <= self.instances@.len(),
                self.instances@.len() - kept == before.instances.len() - seen,
                self.config@ == before.config,
                instance_views(self.instances@.take(kept as int)) == before.instances.take(
                    seen,
                ).filter(keep),
                forall|j: int|
                    kept <= j < self.instances@.len() ==> (#[trigger] self.instances@[j])@
                        == before.instances[j - kept + seen],
            decreases self.instances@.len() - kept,
        {
            proof {
                reveal(Seq::filter);
                assert(self.instances@[kept as int]@ == before.instances[seen]);
                assert(before.instances.take(seen + 1).drop_last() =~= before.instances.take(seen));
            }
            if same_text(&self.instances[kept].handle.runtime_id, &id) {
                let ghost was = self.instances@;
                let _ = self.instances.remove(kept);
                assert(self.instances@.take(kept as int) =~= was.take(kept as int));
            } else {
                assert(instance_views(self.instances@.take(kept + 1)) =~= instance_views(
                    self.instances@.take(kept as int),
                ).push(before.instances[seen]));
                kept = kept + 1;
            }
            proof {
                seen = seen + 1;
            }
        }
        assert(self.instances@.take(kept as int) =~= self.instances@);
        assert(before.instances.take(seen) =~= before.instances);
    }
}

/// Removes the placeholders for a node from all services.
pub fn remove_node_from_services(services: &mut NameMap<ServiceState>, node_id: u64)
    ensures
        final(services)@ == services_without_node(old(services)@, node_id),
{
    proof {
        use_type_invariant(&*services);
    }
    let ghost before = *services;
    let mut entries: Vec<(String, ServiceState)> = Vec::new();
    std::mem::swap(&mut entries, &mut services.entries);
    let mut i: usize = 0;
    while i < entries.len()
        invariant
            i <= entries@.len(),
            entries@.len() == before.entries@.len(),
            forall|j: int|
                0 <= j < entries@.len() ==> (#[trigger] entries@[j]).0@ == before.entries@[j].0@,
            forall|j: int|
                0 <= j < i ==> (#[trigger] entries@[j]).1@ == before.entries@[j].1@.without_node(
                    node_id,
                ),
            forall|j: int|
                i <= j < entries@.len() ==> (#[trigger] entries@[j]).1 == before.entries@[j].1,
        decreases entries@.len() - i,
    {
        entries[i].1.remove_node(node_id);
        i = i + 1;
    }
    services.entries = entries;
    proof {
        let expected = services_without_node(before@, node_id);
        assert forall|key: Seq<char>| services@.contains_key(key) == expected.contains_key(key) by {
            if before@.contains_key(key) {
                let j = before.lemma_named(key);
                services.lemma_entry(j);
            }
            if services@.contains_key(key) {
                let j = services.lemma_named(key);
                before.lemma_entry(j);
            }
        }
        assert forall|key: Seq<char>| services@.contains_key(key) implies services@[key]
            == expected[key] by {
            let j = services.lemma_named(key);
            before.lemma_entry(j);
        }
        assert(services@ =~= expected);
    }
}

} // verus!
