//! The master's state.

use std::collections::HashMap;
use std::collections::HashSet;
use vstd::prelude::*;
use crate::config::ClusterConfig;
use crate::config::DeployConfig;
use crate::config::ServiceConfig;
use crate::config::ServiceConfigView;
use crate::names::NameMap;
use crate::nodes::fresh_node;
use crate::nodes::NodeView;
use crate::nodes::RegisteredNode;
use crate::services::remove_node_from_services;
use crate::services::services_without_node;
use crate::services::ServiceState;
use crate::services::ServiceView;

verus! {

broadcast use vstd::std_specs::hash::group_hash_axioms;

/// A remote deploy whose result is waited for.
pub struct PendingDeploy {
    /// What was asked for.
    pub config: ServiceConfig,
    /// The node that was asked.
    pub node_id: u64,
    /// When the present wait began, in milliseconds: when the deploy was sent, and from the
    /// receipt on, when the receipt was acknowledged.
    pub since: i64,
    /// Whether the receipt was acknowledged.
    pub acknowledged: bool,
}

/// A pending deploy by its texts.
#[verifier::ext_equal]
pub struct PendingView {
    pub config: ServiceConfigView,
    pub node_id: u64,
    pub since: i64,
    pub acknowledged: bool,
}

impl View for PendingDeploy {
    type V = PendingView;

    open spec fn view(&self) -> PendingView {
        PendingView {
            config: self.config@,
            node_id: self.node_id,
            since: self.since,
            acknowledged: self.acknowledged,
        }
    }
}

/// The master's state.
pub struct AppState {
    /// The configuration of the cluster.
    pub cluster_config: ClusterConfig,
    /// The nodes that have registered, by id.
    pub registered_nodes: HashMap<u64, RegisteredNode>,
    /// The nodes whose agents have a control session.
    pub ws_agents: HashSet<u64>,
    /// The services whose agent has not acknowledged a deploy yet, with the agent's node.
    pub pending_deploy_acks: NameMap<u64>,
    /// The services whose deploy has not ended yet.
    pub pending_deploys: NameMap<PendingDeploy>,
    /// The services.
    pub services: NameMap<ServiceState>,
}

/// The master's state by its contents.
#[verifier::ext_equal]
pub struct StateView {
    pub deploy: DeployConfig,
    pub nodes: Map<u64, NodeView>,
    pub sessions: Set<u64>,
    pub acks: Map<Seq<char>, u64>,
    pub deploys: Map<Seq<char>, PendingView>,
    pub services: Map<Seq<char>, ServiceView>,
}

impl View for AppState {
    type V = StateView;

    open spec fn view(&self) -> StateView {
        StateView {
            deploy: self.cluster_config.deploy,
            nodes: self.registered_nodes@.map_values(|node: RegisteredNode| node@),
            sessions: self.ws_agents@,
            acks: self.pending_deploy_acks@,
            deploys: self.pending_deploys@,
            services: self.services@,
        }
    }
}

impl StateView {
    /// Whoever waits for a receipt also waits for the result of that deploy, whose receipt was
    /// not acknowledged yet, and a deploy is waited for under its service's name and from the
    /// node that the service is pinned to.
    pub open spec fn wf(self) -> bool {
        &&& forall|service: Seq<char>| #[trigger]
            self.acks.contains_key(service) ==> self.deploys.contains_key(service)
                && self.deploys[service].node_id == self.acks[service]
                && !self.deploys[service].acknowledged
        &&& forall|service: Seq<char>| #[trigger]
            self.deploys.contains_key(service) ==> self.deploys[service].config.name == service
                && self.deploys[service].config.target() == Some(self.deploys[service].node_id)
    }

    /// Whether an agent has gone silent. An agent whose node never registered has never been
    /// heard of.
    pub open spec fn silent(self, node_id: u64, now: i64) -> bool {
        self.nodes.contains_key(node_id) ==> self.nodes[node_id].quiet(
            now,
            self.deploy.ws_idle_timeout_secs,
        )
    }

    /// The state with a node's heartbeat at the given time, if the node has registered.
    pub open spec fn heard_of(self, node_id: u64, at: i64) -> StateView {
        if self.nodes.contains_key(node_id) {
            StateView {
                nodes: self.nodes.insert(
                    node_id,
                    NodeView { last_heartbeat: at, ..self.nodes[node_id] },
                ),
                ..self
            }
        } else {
            self
        }
    }

    /// The state without a node's control session and without the placeholders for what its
    /// agent ran.
    pub open spec fn without_session(self, node_id: u64) -> StateView {
        StateView {
            sessions: self.sessions.remove(node_id),
            services: services_without_node(self.services, node_id),
            ..self
        }
    }

    /// The state without the waiters of a service.
    pub open spec fn without_waiters(self, service: Seq<char>) -> StateView {
        StateView {
            acks: self.acks.remove(service),
            deploys: self.deploys.remove(service),
            ..self
        }
    }
}

impl AppState {
    /// A state without nodes, sessions, services and deploys.
    pub fn new(cluster_config: ClusterConfig) -> (state: AppState)
        ensures
            state@ == (StateView {
                deploy: cluster_config.deploy,
                nodes: Map::empty(),
                sessions: Set::empty(),
                acks: Map::empty(),
                deploys: Map::empty(),
                services: Map::empty(),
            }),
            state@.wf(),
    {
        let state = AppState {
            cluster_config,
            registered_nodes: HashMap::new(),
            ws_agents: HashSet::new(),
            pending_deploy_acks: NameMap::new(),
            pending_deploys: NameMap::new(),
            services: NameMap::new(),
        };
        assert(state@.nodes =~= Map::empty());
        state
    }

    /// Registers a node, or registers it anew, as alive now.
    pub fn register_node(&mut self, node_id: u64, now: i64)
        ensures
            final(self)@ == (StateView {
                nodes: old(self)@.nodes.insert(node_id, fresh_node(node_id, now)),
                ..old(self)@
            }),
            !final(self)@.silent(node_id, now),
    {
        let ghost before = self@;
        self.registered_nodes.insert(node_id, RegisteredNode::fresh(node_id, now));
        assert(self@.nodes =~= before.nodes.insert(node_id, fresh_node(node_id, now)));
    }

    /// Sets the time of a node's last heartbeat, if the node has registered.
    pub fn heartbeat(&mut self, node_id: u64, at: i64)
        ensures
            final(self)@ == old(self)@.heard_of(node_id, at),
    {
        let ghost before = self@;
        match self.registered_nodes.remove(&node_id) {
            Some(node) => {
                let mut node: RegisteredNode = node;
                node.last_heartbeat = at;
                self.registered_nodes.insert(node_id, node);
            },
            None => {},
        }
        assert(self@.nodes =~= before.heard_of(node_id, at).nodes);
    }

    /// Backdates a node's heartbeat past the limit: the agent has gone silent.
    pub fn silence_node(&mut self, node_id: u64, now: i64)
        requires
            old(self)@.nodes.contains_key(node_id) ==> now - 1000 * (
            old(self)@.deploy.ws_idle_timeout_secs + 1) >= i64::MIN,
        ensures
            final(self)@ == old(self)@.heard_of(
                node_id,
                (now - 1000 * (old(self)@.deploy.ws_idle_timeout_secs + 1)) as i64,
            ),
            final(self)@.silent(node_id, now),
    {
        if self.registered_nodes.contains_key(&node_id) {
            let idle: u64 = self.cluster_config.deploy.ws_idle_timeout_secs;
            let at: i128 = (now as i128) - 1000 * ((idle as i128) + 1);
            self.heartbeat(node_id, at as i64);
        }
    }

    /// Whether an agent has gone silent.
    pub fn is_silent(&self, node_id: u64, now: i64) -> (silent: bool)
        ensures
            silent == self@.silent(node_id, now),
    {
        match self.registered_nodes.get(&node_id) {
            Some(node) => node.is_quiet(now, self.cluster_config.deploy.ws_idle_timeout_secs),
            None => true,
        }
    }

    /// Takes in a control session of a node's agent.
    pub fn connect_session(&mut self, node_id: u64)
        ensures
            final(self)@ == (StateView {
                sessions: old(self)@.sessions.insert(node_id),
                ..old(self)@
            }),
            final(self)@.sessions.contains(node_id),
    {
        self.ws_agents.insert(node_id);
    }

    /// Whether a node's agent has a control session.
    pub fn has_session(&self, node_id: u64) -> (found: bool)
        ensures
            found == self@.sessions.contains(node_id),
    {
        self.ws_agents.contains(&node_id)
    }

    /// Tears a control session down, and removes the placeholders for what the agent ran.
    pub fn kill_session(&mut self, node_id: u64)
        ensures
            final(self)@ == old(self)@.without_session(node_id),
    {
        self.ws_agents.remove(&node_id);
        remove_node_from_services(&mut self.services, node_id);
    }

    /// Forgets the waiters of a service, both of them.
    pub fn remove_waiters(&mut self, service: &String) -> (taken: Option<PendingDeploy>)
        ensures
            final(self)@ == old(self)@.without_waiters(service@),
            match taken {
                Some(deploy) => old(self)@.deploys.contains_key(service@) && deploy@
                    == old(self)@.deploys[service@],
                None => !old(self)@.deploys.contains_key(service@),
            },
    {
        let _ = self.pending_deploy_acks.remove(service);
        self.pending_deploys.remove(service)
    }
}

} // verus!
