//! The two waits of a remote deploy: briefly for the receipt, long for the result.

use orca_deploy::config::{config_placed_on, ClusterConfig, DeployConfig, ServiceConfig};
use orca_deploy::deploy::Dispatch;
use orca_deploy::failure::DeployFailure;
use orca_deploy::names::NameMap;
use orca_deploy::reconcile::{Reconcile, Step};
use orca_deploy::services::{HealthState, InstanceState, ServiceState, WorkloadHandle};
use orca_deploy::state::AppState;
use orca_deploy::wire::{AgentMessage, MasterMessage};
use orca_deploy::workload::WorkloadStatus;

const START: i64 = 1_700_000_000_000;
const IDLE_SECS: u64 = 90;

fn text(value: &str) -> String {
    value.to_string()
}

fn limits() -> ClusterConfig {
    ClusterConfig {
        deploy: DeployConfig::with_idle_timeout(IDLE_SECS),
    }
}

fn pinned(name: &str, node: &str) -> ServiceConfig {
    config_placed_on(&text(name), &text(node))
}

fn received(name: &str) -> AgentMessage {
    AgentMessage::DeployReceived {
        service_name: text(name),
    }
}

fn finished(name: &str, result: Result<(), String>) -> AgentMessage {
    AgentMessage::DeployFinished {
        service_name: text(name),
        result,
    }
}

/// When nobody answers: looks at the limits whenever a look is due, until the deploy has failed.
/// Gives the failure and the time of the look.
fn wait_out(state: &mut AppState, service: &str, now: i64) -> (DeployFailure, i64) {
    let service = text(service);
    let mut now = now;
    loop {
        if let Some(failure) = state.check_deploy(&service, now) {
            return (failure, now);
        }
        let next = state.next_check(&service, now).expect("deploy pending");
        assert!(next > now);
        now = next;
    }
}

/// A silent agent that never acknowledges: the deploy fails after the short wait with a message
/// of its own, both waiters are gone, and so are the dead session and its placeholders.
#[test]
fn ack_timeout_reports_unreachable_distinctly() {
    let mut cfg = limits();
    cfg.deploy.ack_timeout_secs = 1;
    let mut state = AppState::new(cfg);
    state.register_node(1, START);
    state.silence_node(1, START);
    state.connect_session(1);

    let mut run = Reconcile::new(vec![pinned("svc", "1")]);
    match run.advance(&mut state, START) {
        Step::Send { node_id, service, message } => {
            assert_eq!(node_id, 1);
            assert_eq!(service, "svc");
            assert!(matches!(message, MasterMessage::Deploy { .. }));
        }
        _ => panic!("expected a deploy"),
    }
    let (failure, at) = wait_out(&mut state, "svc", START);
    assert_eq!(at, START + 1000);
    run.settle(Err(failure));
    assert!(matches!(run.advance(&mut state, at), Step::Done));
    let (deployed, errors) = run.finish();

    assert!(deployed.is_empty(), "deploy should not be recorded");
    assert_eq!(errors.len(), 1, "expected one error, got {errors:?}");
    let err = &errors[0];
    assert!(
        err.contains("did not acknowledge") && err.contains("unreachable"),
        "expected a distinct unreachable message, got: {err}"
    );
    assert!(
        !err.contains("timed out after 30"),
        "must not emit an opaque timeout: {err}"
    );

    assert!(state.pending_deploy_acks.is_empty());
    assert!(state.pending_deploys.is_empty());

    assert!(
        state.ws_agents.is_empty(),
        "dead control session must be killed after ACK timeout"
    );
    if let Some(svc) = state.services.get(&text("svc")) {
        assert!(
            svc.instances.is_empty(),
            "remote placeholders must be removed with the dead session"
        );
    }
}

/// An agent that misses the short wait but still heartbeats is waited for, and its deploy
/// succeeds once it catches up.
#[test]
fn heartbeating_agent_is_waited_for_not_killed() {
    let mut cfg = limits();
    cfg.deploy.ack_timeout_secs = 1;
    let mut state = AppState::new(cfg);
    state.register_node(1, START);
    state.connect_session(1);

    let mut run = Reconcile::new(vec![pinned("svc", "1")]);
    match run.advance(&mut state, START) {
        Step::Send { message, .. } => assert!(matches!(message, MasterMessage::Deploy { .. })),
        _ => panic!("master should send a Deploy"),
    }

    for passed in [1000, 2000, 2500] {
        assert!(state.check_deploy(&text("svc"), START + passed).is_none());
    }
    let now = START + 2500;
    assert!(
        state.ws_agents.contains(&1),
        "a heartbeating agent's session must not be killed on a missed ACK"
    );
    assert!(
        state.pending_deploy_acks.contains_key(&text("svc")),
        "the master must still be waiting for the ACK"
    );

    assert!(state.hear(1, received("svc"), now).is_none());
    assert!(!state.pending_deploy_acks.contains_key(&text("svc")));
    assert!(state.pending_deploys.contains_key(&text("svc")));
    let outcome = state
        .hear(1, finished("svc", Ok(())), now)
        .expect("result waiter registered");
    assert_eq!(outcome.service, "svc");
    run.settle(outcome.result);
    assert!(matches!(run.advance(&mut state, now), Step::Done));

    let (deployed, errors) = run.finish();
    assert!(errors.is_empty(), "unexpected errors: {errors:?}");
    assert!(
        deployed.contains(&"svc".to_string()),
        "the late-acknowledged deploy must count as deployed"
    );
}

/// The wait for a busy agent ends when the deploy has taken as long as it may. That is a
/// time-out on a live session, not a reason to kill it.
#[test]
fn heartbeating_agent_that_never_acks_times_out_without_a_kill() {
    let mut cfg = limits();
    cfg.deploy.ack_timeout_secs = 1;
    cfg.deploy.completion_timeout_secs = 2;
    let mut state = AppState::new(cfg);
    state.register_node(1, START);
    state.connect_session(1);

    let mut run = Reconcile::new(vec![pinned("svc", "1")]);
    assert!(matches!(run.advance(&mut state, START), Step::Send { .. }));
    let (failure, at) = wait_out(&mut state, "svc", START);
    assert_eq!(at, START + 2000);
    run.settle(Err(failure));
    assert!(matches!(run.advance(&mut state, at), Step::Done));
    let (deployed, errors) = run.finish();

    assert!(deployed.is_empty());
    assert_eq!(errors.len(), 1, "expected one error, got {errors:?}");
    let err = &errors[0];
    assert!(
        err.contains("heartbeating") && err.contains("timed out"),
        "expected a live-but-unresponsive message, got: {err}"
    );
    assert!(
        !err.contains("unreachable"),
        "a heartbeating agent must not be reported unreachable: {err}"
    );
    assert!(
        state.ws_agents.contains(&1),
        "the live session must survive the timeout"
    );
    assert!(state.pending_deploy_acks.is_empty());
    assert!(state.pending_deploys.is_empty());
}

/// After the receipt, a real failure is told in the agent's own words.
#[test]
fn real_agent_error_propagates_after_ack() {
    let mut state = AppState::new(limits());
    state.register_node(1, START);
    state.connect_session(1);

    let mut run = Reconcile::new(vec![pinned("svc", "1")]);
    match run.advance(&mut state, START) {
        Step::Send { message, .. } => assert!(matches!(message, MasterMessage::Deploy { .. })),
        _ => panic!("master should send a Deploy"),
    }

    assert!(state.hear(1, received("svc"), START + 100).is_none());
    let outcome = state
        .hear(
            1,
            finished(
                "svc",
                Err(text("pull access denied for ghcr.io/x:nope, not found")),
            ),
            START + 200,
        )
        .expect("result waiter registered");
    run.settle(outcome.result);
    assert!(matches!(run.advance(&mut state, START + 200), Step::Done));

    let (deployed, errors) = run.finish();
    assert!(deployed.is_empty());
    assert_eq!(errors.len(), 1, "expected one error, got {errors:?}");
    let err = &errors[0];
    assert!(
        err.contains("not found") && err.contains("ghcr.io/x:nope"),
        "real pull error must propagate verbatim, got: {err}"
    );
    assert!(
        !err.contains("timed out") && !err.contains("did not"),
        "should not be a timeout once the agent reported a result: {err}"
    );
    assert_eq!(err, "pull access denied for ghcr.io/x:nope, not found");
}

/// A pinned service that runs as configured is not sent again; a changed one is.
#[test]
fn unchanged_remote_spec_is_not_redispatched() {
    let mut state = AppState::new(limits());
    state.register_node(1, START);
    state.connect_session(1);

    let cfg = pinned("svc", "1");
    let mut svc = ServiceState::from_config(cfg.copy());
    svc.add_instance(InstanceState {
        handle: WorkloadHandle {
            runtime_id: text("remote-1"),
            name: text("orca-svc"),
            metadata: NameMap::new(),
        },
        status: WorkloadStatus::Running,
        host_port: None,
        container_address: None,
        health: HealthState::NoCheck,
        started_at: START,
        is_canary: false,
    });
    state.services.insert(text("svc"), svc);

    let mut run = Reconcile::new(vec![cfg.copy()]);
    assert!(
        matches!(run.advance(&mut state, START), Step::Done),
        "unchanged spec must not dispatch a Deploy to the agent"
    );
    let (deployed, errors) = run.finish();
    assert!(errors.is_empty(), "unexpected errors: {errors:?}");
    assert!(
        deployed.contains(&"svc".to_string()),
        "skip still counts as converged"
    );
    assert!(state.pending_deploys.is_empty());

    let mut changed = cfg;
    changed.env.insert(text("NEW_VAR"), text("value"));
    let mut run = Reconcile::new(vec![changed]);
    match run.advance(&mut state, START) {
        Step::Send { node_id, message, .. } => {
            assert_eq!(node_id, 1);
            match message {
                MasterMessage::Deploy { spec } => {
                    assert_eq!(spec.env.get(&text("NEW_VAR")), Some(&text("value")));
                }
                _ => panic!("expected Deploy"),
            }
        }
        _ => panic!("changed spec must dispatch"),
    }
    assert!(run.is_waiting());
    // Dropping the receipt waiter ends the deploy now.
    state.pending_deploy_acks.remove(&text("svc"));
    let failure = state
        .check_deploy(&text("svc"), START)
        .expect("deploy ended");
    assert!(matches!(failure, DeployFailure::Abandoned));
    run.settle(Err(failure));
    assert!(!run.is_waiting());
    assert!(matches!(run.advance(&mut state, START), Step::Done));
    assert!(state.pending_deploy_acks.is_empty());
    assert!(state.pending_deploys.is_empty());
}

#[test]
fn a_deployed_service_is_not_sent_again() {
    let mut state = AppState::new(limits());
    state.register_node(7, START);
    state.connect_session(7);
    let config = pinned("svc", "7");
    assert!(matches!(
        state.begin_deploy(&config, START),
        Dispatch::Send { node_id: 7, .. }
    ));
    assert!(state.acknowledge(&text("svc"), START + 10));
    assert!(state.complete(&text("svc"), Ok(()), START + 20).is_some());
    let service = state.services.get(&text("svc")).expect("service");
    assert!(service.config.same_as(&config));
    assert_eq!(service.instances.len(), 1);
    assert_eq!(service.instances[0].handle.runtime_id, "remote-7");
    assert_eq!(service.instances[0].handle.name, "orca-svc");
    assert_eq!(service.instances[0].status, WorkloadStatus::Running);
    assert_eq!(service.instances[0].started_at, START + 20);
    assert!(matches!(
        state.begin_deploy(&config, START + 30),
        Dispatch::Converged
    ));
}

#[test]
fn a_stopped_placeholder_is_sent_again() {
    let mut state = AppState::new(limits());
    state.connect_session(1);
    let config = pinned("svc", "1");
    assert!(matches!(
        state.begin_deploy(&config, START),
        Dispatch::Send { .. }
    ));
    state.complete(&text("svc"), Ok(()), START);
    let mut service = state.services.remove(&text("svc")).expect("service");
    service.instances[0].status = WorkloadStatus::Stopped;
    state.services.insert(text("svc"), service);
    assert!(matches!(
        state.begin_deploy(&config, START),
        Dispatch::Send { .. }
    ));
}

#[test]
fn a_dead_session_takes_only_its_own_placeholders() {
    let mut cfg = limits();
    cfg.deploy.ack_timeout_secs = 1;
    let mut state = AppState::new(cfg);
    for node in [1, 11] {
        state.register_node(node, START);
        state.connect_session(node);
    }
    for (name, node) in [("a", "1"), ("b", "11")] {
        assert!(matches!(
            state.begin_deploy(&pinned(name, node), START),
            Dispatch::Send { .. }
        ));
        assert!(state.complete(&text(name), Ok(()), START).is_some());
    }
    state.silence_node(1, START);
    assert!(matches!(
        state.begin_deploy(&pinned("c", "1"), START),
        Dispatch::Send { .. }
    ));
    assert!(matches!(
        state.check_deploy(&text("c"), START + 1000),
        Some(DeployFailure::Unreachable)
    ));
    assert!(!state.has_session(1));
    assert!(state.has_session(11));
    assert!(state.services.get(&text("a")).expect("a").instances.is_empty());
    assert_eq!(state.services.get(&text("b")).expect("b").instances.len(), 1);

    match state.begin_deploy(&pinned("a", "1"), START + 1000) {
        Dispatch::Refused(failure) => {
            assert!(matches!(failure, DeployFailure::NotConnected));
            assert_eq!(failure.message(), "the agent is not connected");
        }
        _ => panic!("expected a refusal"),
    }
    assert!(state.pending_deploys.is_empty());
    assert!(matches!(
        state.begin_deploy(&pinned("b", "11"), START + 1000),
        Dispatch::Converged
    ));
}

#[test]
fn a_result_that_never_comes_times_out() {
    let mut cfg = limits();
    cfg.deploy.ack_timeout_secs = 1;
    cfg.deploy.completion_timeout_secs = 5;
    let mut state = AppState::new(cfg);
    state.register_node(1, START);
    state.connect_session(1);
    let config = pinned("svc", "1");
    state.begin_deploy(&config, START);
    assert!(state.acknowledge(&text("svc"), START + 500));
    assert!(!state.acknowledge(&text("svc"), START + 500));
    assert_eq!(
        state.next_check(&text("svc"), START + 500),
        Some(START + 5500)
    );
    assert!(state.check_deploy(&text("svc"), START + 5499).is_none());
    match state.check_deploy(&text("svc"), START + 5500) {
        Some(failure) => {
            assert!(matches!(failure, DeployFailure::Unfinished));
            assert_eq!(
                failure.message(),
                "the deploy timed out after the agent received it"
            );
        }
        None => panic!("expected a failure"),
    }
    assert!(state.has_session(1));
    assert!(state.pending_deploys.is_empty());
    assert!(state.check_deploy(&text("svc"), START + 9000).is_none());
    assert_eq!(state.next_check(&text("svc"), START + 9000), None);
}

#[test]
fn looks_at_the_limits_follow_the_short_wait() {
    let mut cfg = limits();
    cfg.deploy.ack_timeout_secs = 4;
    cfg.deploy.completion_timeout_secs = 10;
    let mut state = AppState::new(cfg);
    state.connect_session(1);
    state.begin_deploy(&pinned("svc", "1"), START);
    let svc = text("svc");
    assert_eq!(state.next_check(&svc, START), Some(START + 4000));
    assert_eq!(state.next_check(&svc, START + 3999), Some(START + 4000));
    assert_eq!(state.next_check(&svc, START + 4000), Some(START + 8000));
    assert_eq!(state.next_check(&svc, START + 8000), Some(START + 10000));
    assert_eq!(state.next_check(&svc, START + 10000), Some(START + 10001));
    assert_eq!(state.next_check(&svc, i64::MAX), Some(i64::MAX));
}

#[test]
fn a_heartbeat_saves_the_session() {
    let mut cfg = limits();
    cfg.deploy.ack_timeout_secs = 1;
    let mut state = AppState::new(cfg);
    state.register_node(1, START);
    state.silence_node(1, START);
    state.connect_session(1);
    assert!(state.is_silent(1, START));
    state.begin_deploy(&pinned("svc", "1"), START);
    assert!(state.hear(1, AgentMessage::Heartbeat, START + 900).is_none());
    assert!(!state.is_silent(1, START + 900));
    assert!(state.check_deploy(&text("svc"), START + 1000).is_none());
    assert!(state.has_session(1));
    let idle = 1000 * IDLE_SECS as i64;
    assert!(!state.is_silent(1, START + 900 + idle));
    assert!(state.is_silent(1, START + 901 + idle));
}

#[test]
fn an_agent_that_never_registered_is_silent() {
    let mut state = AppState::new(limits());
    assert!(state.is_silent(3, START));
    state.heartbeat(3, START);
    state.silence_node(3, START);
    assert!(state.is_silent(3, START));
    assert!(state.registered_nodes.is_empty());
}

#[test]
fn a_report_changes_nothing_for_the_deploys() {
    let mut state = AppState::new(limits());
    state.register_node(1, START);
    state.connect_session(1);
    state.begin_deploy(&pinned("svc", "1"), START);
    let report = AgentMessage::StatusReport { workloads: vec![] };
    assert!(state.hear(1, report, START).is_none());
    assert!(state.pending_deploy_acks.contains_key(&text("svc")));
    assert!(state.hear(1, finished("other", Ok(())), START).is_none());
    assert!(state.services.is_empty());
}

#[test]
fn an_abandoned_deploy_leaves_no_waiter() {
    let mut state = AppState::new(limits());
    state.connect_session(1);
    state.begin_deploy(&pinned("a", "1"), START);
    state.begin_deploy(&pinned("b", "1"), START);
    let failure = state.abandon_deploy(&text("a")).expect("pending");
    assert!(matches!(failure, DeployFailure::Abandoned));
    assert_eq!(failure.message(), "the deploy was abandoned");
    assert!(state.abandon_deploy(&text("a")).is_none());
    assert!(!state.pending_deploys.contains_key(&text("a")));
    assert!(state.pending_deploys.contains_key(&text("b")));
    assert!(state.pending_deploy_acks.contains_key(&text("b")));
}

#[test]
fn a_run_accounts_for_every_service() {
    let mut state = AppState::new(limits());
    state.register_node(1, START);
    state.connect_session(1);
    let mut local = pinned("local", "1");
    local.placement = None;
    let configs = vec![
        pinned("unknown", "not a node"),
        pinned("first", "1"),
        pinned("elsewhere", "2"),
        local,
        pinned("last", "1"),
    ];
    let mut run = Reconcile::new(configs);
    assert!(matches!(run.advance(&mut state, START), Step::Send { service, .. } if service == "first"));
    let outcome = state.complete(&text("first"), Ok(()), START).expect("pending");
    run.settle(outcome.result);
    assert!(matches!(
        run.advance(&mut state, START),
        Step::DeployLocally { config } if config.name == "local" && config.port == Some(8080)
    ));
    run.settle(Ok(()));
    assert!(matches!(run.advance(&mut state, START), Step::Send { service, .. } if service == "last"));
    run.settle(Err(DeployFailure::Agent(text("disk full"))));
    assert!(matches!(run.advance(&mut state, START), Step::Done));
    let (deployed, errors) = run.finish();
    assert_eq!(deployed, vec![text("first"), text("local")]);
    assert_eq!(
        errors,
        vec![
            text("the agent is not connected"),
            text("the agent is not connected"),
            text("disk full"),
        ]
    );
}

#[test]
fn a_converged_cluster_is_left_alone() {
    let mut state = AppState::new(limits());
    state.register_node(1, START);
    state.register_node(2, START);
    state.connect_session(1);
    state.connect_session(2);
    let configs = [pinned("a", "1"), pinned("b", "2"), pinned("c", "1")];
    for config in &configs {
        assert!(matches!(
            state.begin_deploy(config, START),
            Dispatch::Send { .. }
        ));
    }
    for name in ["b", "a", "c"] {
        assert!(state.complete(&text(name), Ok(()), START).is_some());
    }
    let copies: Vec<ServiceConfig> = configs.iter().map(|config| config.copy()).collect();
    let mut run = Reconcile::new(copies);
    assert!(matches!(run.advance(&mut state, START + 1), Step::Done));
    let (deployed, errors) = run.finish();
    assert_eq!(deployed, vec![text("a"), text("b"), text("c")]);
    assert!(errors.is_empty());
    assert!(state.pending_deploys.is_empty());
}

#[test]
fn an_answer_concerns_its_own_deploy_only() {
    let mut state = AppState::new(limits());
    state.connect_session(1);
    state.begin_deploy(&pinned("a", "1"), START);
    state.begin_deploy(&pinned("b", "1"), START);
    assert!(state.acknowledge(&text("a"), START + 1));
    assert!(state.pending_deploy_acks.contains_key(&text("b")));
    let outcome = state
        .complete(&text("a"), Err(text("no such image")), START + 2)
        .expect("pending");
    match outcome.result {
        Err(failure) => assert_eq!(failure.message(), "no such image"),
        Ok(()) => panic!("expected a failure"),
    }
    let other = state.pending_deploys.get(&text("b")).expect("b");
    assert_eq!(other.since, START);
    assert_eq!(other.node_id, 1);
    assert!(state.pending_deploys.get(&text("a")).is_none());
    assert!(state.services.is_empty());
}

fn local_instance(status: WorkloadStatus) -> InstanceState {
    InstanceState {
        handle: WorkloadHandle {
            runtime_id: text("c0ffee"),
            name: text("orca-svc"),
            metadata: NameMap::new(),
        },
        status,
        host_port: None,
        container_address: None,
        health: HealthState::NoCheck,
        started_at: START,
        is_canary: false,
    }
}

#[test]
fn an_unchanged_local_service_is_left_alone() {
    let mut state = AppState::new(limits());
    let mut config = pinned("svc", "1");
    config.placement = None;
    assert!(matches!(
        state.begin_deploy(&config, START),
        Dispatch::Local
    ));

    state.record_local(config.copy(), vec![local_instance(WorkloadStatus::Running)]);
    assert!(matches!(
        state.begin_deploy(&config, START),
        Dispatch::Converged
    ));
    let mut run = Reconcile::new(vec![config.copy()]);
    assert!(matches!(run.advance(&mut state, START), Step::Done));
    assert_eq!(run.finish().0, vec![text("svc")]);

    let mut changed = config.copy();
    changed.env.insert(text("NEW_VAR"), text("value"));
    assert!(matches!(
        state.begin_deploy(&changed, START),
        Dispatch::Local
    ));

    state.record_local(config.copy(), vec![local_instance(WorkloadStatus::Stopped)]);
    assert!(matches!(
        state.begin_deploy(&config, START),
        Dispatch::Local
    ));
}

#[test]
fn a_constraint_without_a_node_does_not_pin() {
    let mut state = AppState::new(limits());
    let mut config = pinned("svc", "1");
    if let Some(placement) = config.placement.as_mut() {
        placement.node = None;
    }
    assert!(matches!(
        state.begin_deploy(&config, START),
        Dispatch::Local
    ));
    state.record_local(config.copy(), vec![local_instance(WorkloadStatus::Running)]);
    assert!(matches!(
        state.begin_deploy(&config, START),
        Dispatch::Converged
    ));
}

#[test]
fn a_silent_agent_fails_at_the_end_of_the_short_wait() {
    let mut state = AppState::new(limits());
    state.register_node(1, START);
    state.silence_node(1, START);
    state.connect_session(1);
    state.begin_deploy(&pinned("svc", "1"), START);
    let (failure, at) = wait_out(&mut state, "svc", START);
    assert!(matches!(failure, DeployFailure::Unreachable));
    assert_eq!(at, START + 10_000);
}

#[test]
fn a_deploy_ends_with_its_receipt_waiter() {
    let mut state = AppState::new(limits());
    state.register_node(1, START);
    state.connect_session(1);
    let svc = text("svc");

    state.begin_deploy(&pinned("svc", "1"), START);
    assert_eq!(state.pending_deploy_acks.remove(&svc), Some(1));
    assert_eq!(state.next_check(&svc, START + 5), Some(START + 6));
    assert!(!state.acknowledge(&svc, START + 5));
    let outcome = state.complete(&svc, Ok(()), START + 5).expect("pending");
    assert!(matches!(outcome.result, Err(DeployFailure::Abandoned)));
    assert!(state.services.is_empty());
    assert!(state.pending_deploys.is_empty());
    assert!(state.has_session(1));

    state.begin_deploy(&pinned("svc", "1"), START);
    assert!(state.acknowledge(&svc, START + 5));
    assert!(state.check_deploy(&svc, START + 6).is_none());
    assert!(state.complete(&svc, Ok(()), START + 7).expect("pending").result.is_ok());
}
