//! Workloads: what an agent is asked to run, and the state of what it runs.

use vstd::prelude::*;
use crate::config::Replicas;
use crate::config::RuntimeKind;
use crate::config::ServiceConfig;
use crate::config::ServiceConfigView;
use crate::names::NameMap;
use crate::text::copy_opt_text;
use crate::text::copy_text;
use crate::text::copy_texts;
use crate::text::opt_text;
use crate::text::texts;

verus! {

/// The state of a workload, as its runtime tells it.
#[derive(Clone, Copy, Debug, PartialEq, Eq, Structural)]
pub enum WorkloadStatus {
    /// It runs.
    Running,
    /// It does not run.
    Stopped,
}

/// What an agent is asked to run.
pub struct WorkloadSpec {
    /// The name of the service.
    pub name: String,
    /// What runs it.
    pub runtime: RuntimeKind,
    /// The image that a container runs.
    pub image: Option<String>,
    /// How many instances to run.
    pub replicas: Replicas,
    /// Path patterns that are routed to the service.
    pub routes: Vec<String>,
    /// The environment variables.
    pub env: NameMap<String>,
    /// Further names in the service's network.
    pub aliases: Vec<String>,
    /// The mounts, as written in the configuration.
    pub mounts: Vec<String>,
    /// The triggers, as written in the configuration.
    pub triggers: Vec<String>,
    /// Whether the service is hidden from the outside.
    pub internal: bool,
}

/// A workload by its texts.
#[verifier::ext_equal]
pub struct WorkloadSpecView {
    pub name: Seq<char>,
    pub runtime: RuntimeKind,
    pub image: Option<Seq<char>>,
    pub replicas: Replicas,
    pub routes: Seq<Seq<char>>,
    pub env: Map<Seq<char>, Seq<char>>,
    pub aliases: Seq<Seq<char>>,
    pub mounts: Seq<Seq<char>>,
    pub triggers: Seq<Seq<char>>,
    pub internal: bool,
}

impl View for WorkloadSpec {
    type V = WorkloadSpecView;

    open spec fn view(&self) -> WorkloadSpecView {
        WorkloadSpecView {
            name: self.name@,
            runtime: self.runtime,
            image: opt_text(self.image),
            replicas: self.replicas,
            routes: texts(self.routes@),
            env: self.env@,
            aliases: texts(self.aliases@),
            mounts: texts(self.mounts@),
            triggers: texts(self.triggers@),
            internal: self.internal,
        }
    }
}

/// The view of the workload that `spec` makes.
pub open spec fn plain_workload(name: Seq<char>) -> WorkloadSpecView {
    WorkloadSpecView {
        name,
        runtime: RuntimeKind::Container,
        image: Some("nginx:alpine"@),
        replicas: Replicas::Fixed(1),
        routes: Seq::empty(),
        env: Map::empty(),
        aliases: Seq::empty(),
        mounts: Seq::empty(),
        triggers: Seq::empty(),
        internal: false,
    }
}

/// A one-replica container workload with nothing but its image configured.
pub fn spec(name: &String) -> (workload: WorkloadSpec)
    ensures
        workload@ == plain_workload(name@),
{
    let workload = WorkloadSpec {
        name: copy_text(name),
        runtime: RuntimeKind::Container,
        image: Some(String::from_str("nginx:alpine")),
        replicas: Replicas::Fixed(1),
        routes: Vec::new(),
        env: NameMap::new(),
        aliases: Vec::new(),
        mounts: Vec::new(),
        triggers: Vec::new(),
        internal: false,
    };
    assert(workload@ =~~= plain_workload(name@));
    workload
}

/// What travels of a service's configuration to its agent: these ten fields and no other.
pub open spec fn workload_of(config: ServiceConfigView) -> WorkloadSpecView {
    WorkloadSpecView {
        name: config.name,
        runtime: config.runtime,
        image: config.image,
        replicas: config.replicas,
        routes: config.routes,
        env: config.env,
        aliases: config.aliases,
        mounts: config.mounts,
        triggers: config.triggers,
        internal: config.internal,
    }
}

/// The workload that is sent to the agent of a service, with the ten fields of the service's
/// configuration that travel.
pub fn workload_spec(config: &ServiceConfig) -> (workload: WorkloadSpec)
    ensures
        workload@ == workload_of(config@),
{
    WorkloadSpec {
        name: copy_text(&config.name),
        runtime: config.runtime,
        image: copy_opt_text(&config.image),
        replicas: config.replicas,
        routes: copy_texts(&config.routes),
        env: config.env.copy(),
        aliases: copy_texts(&config.aliases),
        mounts: copy_texts(&config.mounts),
        triggers: copy_texts(&config.triggers),
        internal: config.internal,
    }
}

} // verus!
