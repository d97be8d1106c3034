//! Cluster and service configuration.

use vstd::prelude::*;
use crate::decimal::node_id_of;
use crate::names::NameMap;
use crate::text::copy_opt_text;
use crate::text::copy_text;
use crate::text::copy_texts;
use crate::text::opt_text;
use crate::text::same_opt_text;
use crate::text::same_text;
use crate::text::same_texts;
use crate::text::texts;

verus! {

/// The time limits of a remote deploy, in seconds.
#[derive(Clone, Copy, Debug, PartialEq, Eq, Structural)]
pub struct DeployConfig {
    /// How long the master waits for an agent to acknowledge the receipt of a deploy.
    pub ack_timeout_secs: u64,
    /// How long the master waits for a deploy to complete, and for a busy agent to
    /// acknowledge it.
    pub completion_timeout_secs: u64,
    /// How long an agent may go without a heartbeat before it counts as silent.
    pub ws_idle_timeout_secs: u64,
}

impl DeployConfig {
    /// The usual limits, ten seconds for the receipt and ten minutes for the completion, with
    /// the given limit on heartbeats.
    pub fn with_idle_timeout(ws_idle_timeout_secs: u64) -> (config: DeployConfig)
        ensures
            config.ack_timeout_secs == 10,
            config.completion_timeout_secs == 600,
            config.ws_idle_timeout_secs == ws_idle_timeout_secs,
    {
        DeployConfig { ack_timeout_secs: 10, completion_timeout_secs: 600, ws_idle_timeout_secs }
    }
}

/// The configuration of the cluster.
#[derive(Clone, Copy, Debug, PartialEq, Eq, Structural)]
pub struct ClusterConfig {
    /// The time limits of remote deploys.
    pub deploy: DeployConfig,
}

/// What runs a workload.
#[derive(Clone, Copy, Debug, PartialEq, Eq, Structural)]
pub enum RuntimeKind {
    /// A container runtime.
    Container,
}

/// How many instances a service has.
#[derive(Clone, Copy, Debug, PartialEq, Eq, Structural)]
pub enum Replicas {
    /// A fixed number.
    Fixed(u32),
}

/// Where a service has to run.
pub struct PlacementConstraint {
    /// Labels that the node has to have.
    pub labels: Option<NameMap<String>>,
    /// The node that the service is pinned to.
    pub node: Option<String>,
    /// Whether the node needs a graphics processor.
    pub requires_gpu: Option<bool>,
}

/// A placement constraint by its texts.
#[verifier::ext_equal]
pub struct PlacementView {
    pub labels: Option<Map<Seq<char>, Seq<char>>>,
    pub node: Option<Seq<char>>,
    pub requires_gpu: Option<bool>,
}

impl View for PlacementConstraint {
    type V = PlacementView;

    open spec fn view(&self) -> PlacementView {
        PlacementView {
            labels: match self.labels {
                Some(labels) => Some(labels@),
                None => None,
            },
            node: opt_text(self.node),
            requires_gpu: self.requires_gpu,
        }
    }
}

/// The view of an optional placement constraint.
pub open spec fn opt_placement(placement: Option<PlacementConstraint>) -> Option<PlacementView> {
    match placement {
        Some(constraint) => Some(constraint@),
        None => None,
    }
}

fn copy_opt_placement(placement: &Option<PlacementConstraint>) -> (copy: Option<
    PlacementConstraint,
>)
    ensures
        opt_placement(copy) == opt_placement(*placement),
{
    match placement {
        Some(constraint) => {
            let labels: Option<NameMap<String>> = match &constraint.labels {
                Some(labels) => Some(labels.copy()),
                None => None,
            };
            Some(
                PlacementConstraint {
                    labels,
                    node: copy_opt_text(&constraint.node),
                    requires_gpu: constraint.requires_gpu,
                },
            )
        },
        None => None,
    }
}

fn same_opt_placement(
    a: &Option<PlacementConstraint>,
    b: &Option<PlacementConstraint>,
) -> (same: bool)
    ensures
        same == (opt_placement(*a) == opt_placement(*b)),
{
    match (a, b) {
        (Some(x), Some(y)) => {
            let same_labels = match (&x.labels, &y.labels) {
                (Some(p), Some(q)) => p.same_as(q),
                (None, None) => true,
                _ => false,
            };
            let same_gpu = match (x.requires_gpu, y.requires_gpu) {
                (Some(p), Some(q)) => p == q,
                (None, None) => true,
                _ => false,
            };
            same_labels && same_opt_text(&x.node, &y.node) && same_gpu
        },
        (None, None) => true,
        _ => false,
    }
}

fn same_port(a: Option<u16>, b: Option<u16>) -> (same: bool)
    ensures
        same == (a == b),
{
    match (a, b) {
        (Some(x), Some(y)) => x == y,
        (None, None) => true,
        _ => false,
    }
}

/// The configuration of a service. A section that nothing here looks into is kept as the text
/// that the configuration gives for it.
pub struct ServiceConfig {
    /// The service's name, unique in the cluster.
    pub name: String,
    /// The project that the service belongs to.
    pub project: Option<String>,
    /// What runs the service.
    pub runtime: RuntimeKind,
    /// The image that a container runs.
    pub image: Option<String>,
    /// The module that runs in place of an image.
    pub module: Option<String>,
    /// How many instances to run.
    pub replicas: Replicas,
    /// The port that the service listens on.
    pub port: Option<u16>,
    /// The port of the host that is bound to it.
    pub host_port: Option<u16>,
    /// The domain that is routed to the service.
    pub domain: Option<String>,
    /// Further domains.
    pub domains: Vec<String>,
    /// Path patterns that are routed to the service.
    pub routes: Vec<String>,
    /// The health check, as written in the configuration.
    pub health: Option<String>,
    /// The readiness probe, as written in the configuration.
    pub readiness: Option<String>,
    /// The liveness probe, as written in the configuration.
    pub liveness: Option<String>,
    /// The environment variables.
    pub env: NameMap<String>,
    /// The resource limits, as written in the configuration.
    pub resources: Option<String>,
    /// The volume, as written in the configuration.
    pub volume: Option<String>,
    /// The deploy strategy, as written in the configuration.
    pub deploy: Option<String>,
    /// Where the service has to run.
    pub placement: Option<PlacementConstraint>,
    /// The network that the service joins.
    pub network: Option<String>,
    /// Further names in that network.
    pub aliases: Vec<String>,
    /// The mounts, as written in the configuration.
    pub mounts: Vec<String>,
    /// The triggers, as written in the configuration.
    pub triggers: Vec<String>,
    /// The static assets, as written in the configuration.
    pub assets: Option<String>,
    /// The build section, as written in the configuration.
    pub build: Option<String>,
    /// The path of the certificate.
    pub tls_cert: Option<String>,
    /// The path of the certificate's key.
    pub tls_key: Option<String>,
    /// Whether the service is hidden from the outside.
    pub internal: bool,
    /// The services that have to run first.
    pub depends_on: Vec<String>,
    /// The command line.
    pub cmd: Vec<String>,
    /// Further ports, as written in the configuration.
    pub extra_ports: Vec<String>,
    /// The path prefix that is taken off a routed request.
    pub strip_prefix: Option<String>,
    /// When images are pulled; absent for the default.
    pub pull_policy: Option<String>,
    /// The backup section, as written in the configuration.
    pub backup: Option<String>,
    /// When the service is restarted, as written in the configuration.
    pub restart_policy: Option<String>,
}

/// A service configuration by its texts. Two configurations with the same view ask for the
/// same service.
#[verifier::ext_equal]
pub struct ServiceConfigView {
    pub name: Seq<char>,
    pub project: Option<Seq<char>>,
    pub runtime: RuntimeKind,
    pub image: Option<Seq<char>>,
    pub module: Option<Seq<char>>,
    pub replicas: Replicas,
    pub port: Option<u16>,
    pub host_port: Option<u16>,
    pub domain: Option<Seq<char>>,
    pub domains: Seq<Seq<char>>,
    pub routes: Seq<Seq<char>>,
    pub health: Option<Seq<char>>,
    pub readiness: Option<Seq<char>>,
    pub liveness: Option<Seq<char>>,
    pub env: Map<Seq<char>, Seq<char>>,
    pub resources: Option<Seq<char>>,
    pub volume: Option<Seq<char>>,
    pub deploy: Option<Seq<char>>,
    pub placement: Option<PlacementView>,
    pub network: Option<Seq<char>>,
    pub aliases: Seq<Seq<char>>,
    pub mounts: Seq<Seq<char>>,
    pub triggers: Seq<Seq<char>>,
    pub assets: Option<Seq<char>>,
    pub build: Option<Seq<char>>,
    pub tls_cert: Option<Seq<char>>,
    pub tls_key: Option<Seq<char>>,
    pub internal: bool,
    pub depends_on: Seq<Seq<char>>,
    pub cmd: Seq<Seq<char>>,
    pub extra_ports: Seq<Seq<char>>,
    pub strip_prefix: Option<Seq<char>>,
    pub pull_policy: Option<Seq<char>>,
    pub backup: Option<Seq<char>>,
    pub restart_policy: Option<Seq<char>>,
}

impl View for ServiceConfig {
    type V = ServiceConfigView;

    open spec fn view(&self) -> ServiceConfigView {
        ServiceConfigView {
            name: self.name@,
            project: opt_text(self.project),
            runtime: self.runtime,
            image: opt_text(self.image),
            module: opt_text(self.module),
            replicas: self.replicas,
            port: self.port,
            host_port: self.host_port,
            domain: opt_text(self.domain),
            domains: texts(self.domains@),
            routes: texts(self.routes@),
            health: opt_text(self.health),
            readiness: opt_text(self.readiness),
            liveness: opt_text(self.liveness),
            env: self.env@,
            resources: opt_text(self.resources),
            volume: opt_text(self.volume),
            deploy: opt_text(self.deploy),
            placement: opt_placement(self.placement),
            network: opt_text(self.network),
            aliases: texts(self.aliases@),
            mounts: texts(self.mounts@),
            triggers: texts(self.triggers@),
            assets: opt_text(self.assets),
            build: opt_text(self.build),
            tls_cert: opt_text(self.tls_cert),
            tls_key: opt_text(self.tls_key),
            internal: self.internal,
            depends_on: texts(self.depends_on@),
            cmd: texts(self.cmd@),
            extra_ports: texts(self.extra_ports@),
            strip_prefix: opt_text(self.strip_prefix),
            pull_policy: opt_text(self.pull_policy),
            backup: opt_text(self.backup),
            restart_policy: opt_text(self.restart_policy),
        }
    }
}

impl ServiceConfigView {
    /// The label of the node that the service is pinned to.
    pub open spec fn pinned_to(self) -> Option<Seq<char>> {
        match self.placement {
            Some(placement) => placement.node,
            None => None,
        }
    }

    /// The node that the service is pinned to, if its label stands for one.
    pub open spec fn target(self) -> Option<u64> {
        match self.pinned_to() {
            Some(label) => node_id_of(label),
            None => None,
        }
    }
}

impl ServiceConfig {
    /// A configuration that asks for the same service.
    pub fn copy(&self) -> (copy: ServiceConfig)
        ensures
            copy@ == self@,
    {
        ServiceConfig {
            name: copy_text(&self.name),
            project: copy_opt_text(&self.project),
            runtime: self.runtime,
            image: copy_opt_text(&self.image),
            module: copy_opt_text(&self.module),
            replicas: self.replicas,
            port: self.port,
            host_port: self.host_port,
            domain: copy_opt_text(&self.domain),
            domains: copy_texts(&self.domains),
            routes: copy_texts(&self.routes),
            health: copy_opt_text(&self.health),
            readiness: copy_opt_text(&self.readiness),
            liveness: copy_opt_text(&self.liveness),
            env: self.env.copy(),
            resources: copy_opt_text(&self.resources),
            volume: copy_opt_text(&self.volume),
            deploy: copy_opt_text(&self.deploy),
            placement: copy_opt_placement(&self.placement),
            network: copy_opt_text(&self.network),
            aliases: copy_texts(&self.aliases),
            mounts: copy_texts(&self.mounts),
            triggers: copy_texts(&self.triggers),
            assets: copy_opt_text(&self.assets),
            build: copy_opt_text(&self.build),
            tls_cert: copy_opt_text(&self.tls_cert),
            tls_key: copy_opt_text(&self.tls_key),
            internal: self.internal,
            depends_on: copy_texts(&self.depends_on),
            cmd: copy_texts(&self.cmd),
            extra_ports: copy_texts(&self.extra_ports),
            strip_prefix: copy_opt_text(&self.strip_prefix),
            pull_policy: copy_opt_text(&self.pull_policy),
            backup: copy_opt_text(&self.backup),
            restart_policy: copy_opt_text(&self.restart_policy),
        }
    }

    /// Whether two configurations ask for the same service.
    pub fn same_as(&self, other: &ServiceConfig) -> (same: bool)
        ensures
            same == (self@ == other@),
    {
        same_text(&self.name, &other.name)
            && same_opt_text(&self.project, &other.project)
            && self.runtime == other.runtime
            && same_opt_text(&self.image, &other.image)
            && same_opt_text(&self.module, &other.module)
            && self.replicas == other.replicas
            && same_port(self.port, other.port)
            && same_port(self.host_port, other.host_port)
            && same_opt_text(&self.domain, &other.domain)
            && same_texts(&self.domains, &other.domains)
            && same_texts(&self.routes, &other.routes)
            && same_opt_text(&self.health, &other.health)
            && same_opt_text(&self.readiness, &other.readiness)
            && same_opt_text(&self.liveness, &other.liveness)
            && self.env.same_as(&other.env)
            && same_opt_text(&self.resources, &other.resources)
            && same_opt_text(&self.volume, &other.volume)
            && same_opt_text(&self.deploy, &other.deploy)
            && same_opt_placement(&self.placement, &other.placement)
            && same_opt_text(&self.network, &other.network)
            && same_texts(&self.aliases, &other.aliases)
            && same_texts(&self.mounts, &other.mounts)
            && same_texts(&self.triggers, &other.triggers)
            && same_opt_text(&self.assets, &other.assets)
            && same_opt_text(&self.build, &other.build)
            && same_opt_text(&self.tls_cert, &other.tls_cert)
            && same_opt_text(&self.tls_key, &other.tls_key)
            && self.internal == other.internal
            && same_texts(&self.depends_on, &other.depends_on)
            && same_texts(&self.cmd, &other.cmd)
            && same_texts(&self.extra_ports, &other.extra_ports)
            && same_opt_text(&self.strip_prefix, &other.strip_prefix)
            && same_opt_text(&self.pull_policy, &other.pull_policy)
            && same_opt_text(&self.backup, &other.backup)
            && same_opt_text(&self.restart_policy, &other.restart_policy)
    }
}

/// The view of the configuration that `config_placed_on` makes.
pub open spec fn placed_on(name: Seq<char>, node: Seq<char>) -> ServiceConfigView {
    ServiceConfigView {
        name: name,
        project: None,
        runtime: RuntimeKind::Container,
        image: Some("nginx:latest"@),
        module: None,
        replicas: Replicas::Fixed(1),
        port: Some(8080u16),
        host_port: None,
        domain: None,
        domains: Seq::empty(),
        routes: Seq::empty(),
        health: None,
        readiness: None,
        liveness: None,
        env: Map::empty(),
        resources: None,
        volume: None,
        deploy: None,
        placement: Some(PlacementView {
            labels: None,
            node: Some(node),
            requires_gpu: None,
        }),
        network: None,
        aliases: Seq::empty(),
        mounts: Seq::empty(),
        triggers: Seq::empty(),
        assets: None,
        build: None,
        tls_cert: None,
        tls_key: None,
        internal: false,
        depends_on: Seq::empty(),
        cmd: Seq::empty(),
        extra_ports: Seq::empty(),
        strip_prefix: None,
        pull_policy: None,
        backup: None,
        restart_policy: None,
    }
}

/// A one-replica container service that is pinned to a node and has nothing else configured.
pub fn config_placed_on(name: &String, node: &String) -> (config: ServiceConfig)
    ensures
        config@ == placed_on(name@, node@),
{
    let config = ServiceConfig {
        name: copy_text(name),
        project: None,
        runtime: RuntimeKind::Container,
        image: Some(String::from_str("nginx:latest")),
        module: None,
        replicas: Replicas::Fixed(1),
        port: Some(8080),
        host_port: None,
        domain: None,
        domains: Vec::new(),
        routes: Vec::new(),
        health: None,
        readiness: None,
        liveness: None,
        env: NameMap::new(),
        resources: None,
        volume: None,
        deploy: None,
        placement: Some(
            PlacementConstraint { labels: None, node: Some(copy_text(node)), requires_gpu: None },
        ),
        network: None,
        aliases: Vec::new(),
        mounts: Vec::new(),
        triggers: Vec::new(),
        assets: None,
        build: None,
        tls_cert: None,
        tls_key: None,
        internal: false,
        depends_on: Vec::new(),
        cmd: Vec::new(),
        extra_ports: Vec::new(),
        strip_prefix: None,
        pull_policy: None,
        backup: None,
        restart_policy: None,
    };
    assert(config@ =~~= placed_on(name@, node@));
    config
}

} // verus!
