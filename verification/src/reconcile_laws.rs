//! What a run does, told by the configurations that it goes through.

use vstd::prelude::*;
use crate::config::ServiceConfigView;
use crate::decimal::node_id_of;
use crate::deploy::DispatchView;
use crate::failure::FailureView;
use crate::reconcile::RunView;
use crate::reconcile::StepView;
use crate::state::StateView;
use crate::wire::MasterMessageView;

verus! {

/// A run stops at the first service that someone else has to act on: every one before it has
/// converged or is refused, and it is neither. It is over only if there is none.
pub proof fn run_stops_at_the_first_open_service(run: RunView, state: StateView, now: i64)
    requires
        run.begun <= run.configs.len(),
    ensures
        ({
            let (after, changed, step) = run.advanced(state, now);
            let done = if step is Done {
                after.begun as int
            } else {
                after.begun - 1
            };
            &&& after.configs == run.configs
            &&& run.begun <= done <= after.begun <= run.configs.len()
            &&& step is Done ==> after.begun == run.configs.len() && after.waiting == run.waiting
            &&& !(step is Done) ==> after.waiting
            &&& forall|i: int|
                run.begun <= i < done ==> state.dispatch(#[trigger] run.configs[i]) is Converged
                    || state.dispatch(run.configs[i]) is Refused
            &&& step is Send <==> !(step is Done) && state.dispatch(run.configs[done]) is Send
            &&& step is DeployLocally <==> !(step is Done) && state.dispatch(
                run.configs[done],
            ) is Local
        }),
    decreases run.configs.len() - run.begun,
{
    if run.begun < run.configs.len() {
        let config = run.configs[run.begun as int];
        let next = RunView { begun: run.begun + 1, ..run };
        match state.dispatch(config) {
            DispatchView::Converged => {
                run_stops_at_the_first_open_service(next.noted(config.name, None), state, now);
            },
            DispatchView::Refused(failure) => {
                run_stops_at_the_first_open_service(
                    next.noted(config.name, Some(failure)),
                    state,
                    now,
                );
            },
            _ => {},
        }
    }
}

/// What a run asks to be sent is the deploy of the service that it has just begun: it goes to
/// the node that this service is pinned to, which has a session, it carries the service's
/// workload as configured, and it is waited for from that node and under that service's name,
/// from now on. Nothing else changes.
pub proof fn sent_deploy_is_the_one_begun(
    run: RunView,
    state: StateView,
    now: i64,
    node_id: u64,
    service: Seq<char>,
    message: MasterMessageView,
    other: Seq<char>,
)
    requires
        run.begun <= run.configs.len(),
        run.advanced(state, now).2 == (StepView::Send { node_id, service, message }),
        other != service,
    ensures
        ({
            let (after, changed, _) = run.advanced(state, now);
            let config = run.configs[after.begun - 1];
            &&& run.begun < after.begun <= run.configs.len()
            &&& config.target() == Some(node_id)
            &&& config.placement is Some
            &&& config.placement->0.node is Some
            &&& node_id_of(config.placement->0.node->0) == Some(node_id)
            &&& service == config.name
            &&& message is Deploy
            &&& message->spec.name == config.name
            &&& message->spec.runtime == config.runtime
            &&& message->spec.image == config.image
            &&& message->spec.replicas == config.replicas
            &&& message->spec.routes == config.routes
            &&& message->spec.env == config.env
            &&& message->spec.aliases == config.aliases
            &&& message->spec.mounts == config.mounts
            &&& message->spec.triggers == config.triggers
            &&& message->spec.internal == config.internal
            &&& state.sessions.contains(node_id)
            &&& changed.acks.contains_key(service)
            &&& changed.acks[service] == node_id
            &&& changed.deploys.contains_key(service)
            &&& changed.deploys[service].config == config
            &&& changed.deploys[service].node_id == node_id
            &&& changed.deploys[service].since == now
            &&& !changed.deploys[service].acknowledged
            &&& changed.acks.contains_key(other) == state.acks.contains_key(other)
            &&& state.acks.contains_key(other) ==> changed.acks[other] == state.acks[other]
            &&& changed.deploys.contains_key(other) == state.deploys.contains_key(other)
            &&& state.deploys.contains_key(other) ==> changed.deploys[other]
                == state.deploys[other]
            &&& changed.sessions == state.sessions
            &&& changed.services == state.services
            &&& changed.nodes == state.nodes
            &&& changed.deploy == state.deploy
        }),
    decreases run.configs.len() - run.begun,
{
    let config = run.configs[run.begun as int];
    let next = RunView { begun: run.begun + 1, ..run };
    match state.dispatch(config) {
        DispatchView::Converged => {
            sent_deploy_is_the_one_begun(
                next.noted(config.name, None),
                state,
                now,
                node_id,
                service,
                message,
                other,
            );
        },
        DispatchView::Refused(failure) => {
            sent_deploy_is_the_one_begun(
                next.noted(config.name, Some(failure)),
                state,
                now,
                node_id,
                service,
                message,
                other,
            );
        },
        _ => {},
    }
}

/// What a run asks to be deployed to the master's own runtime is the service that it has just
/// begun, which is pinned to no node; until that has ended, nothing changes.
pub proof fn local_deploy_is_the_one_begun(
    run: RunView,
    state: StateView,
    now: i64,
    config: ServiceConfigView,
)
    requires
        run.begun <= run.configs.len(),
        run.advanced(state, now).2 == (StepView::DeployLocally { config }),
    ensures
        run.begun < run.advanced(state, now).0.begun <= run.configs.len(),
        config == run.configs[run.advanced(state, now).0.begun - 1],
        config.placement is None || config.placement->0.node is None,
        run.advanced(state, now).1 == state,
    decreases run.configs.len() - run.begun,
{
    let first = run.configs[run.begun as int];
    let next = RunView { begun: run.begun + 1, ..run };
    match state.dispatch(first) {
        DispatchView::Converged => {
            local_deploy_is_the_one_begun(next.noted(first.name, None), state, now, config);
        },
        DispatchView::Refused(failure) => {
            local_deploy_is_the_one_begun(
                next.noted(first.name, Some(failure)),
                state,
                now,
                config,
            );
        },
        _ => {},
    }
}

/// A run that is over, and one that stops for a local deploy, has left the state as it was.
pub proof fn only_a_deploy_that_is_sent_changes_the_state(run: RunView, state: StateView, now: i64)
    requires
        run.begun <= run.configs.len(),
        !(run.advanced(state, now).2 is Send),
    ensures
        run.advanced(state, now).1 == state,
    decreases run.configs.len() - run.begun,
{
    if run.begun < run.configs.len() {
        let config = run.configs[run.begun as int];
        let next = RunView { begun: run.begun + 1, ..run };
        match state.dispatch(config) {
            DispatchView::Converged => {
                only_a_deploy_that_is_sent_changes_the_state(
                    next.noted(config.name, None),
                    state,
                    now,
                );
            },
            DispatchView::Refused(failure) => {
                only_a_deploy_that_is_sent_changes_the_state(
                    next.noted(config.name, Some(failure)),
                    state,
                    now,
                );
            },
            _ => {},
        }
    }
}

/// What a run has gone past is told by name and in order: the services that have converged are
/// added to the deployed, and for each of the others it is told once that its agent is not
/// connected. What was told before stays.
pub proof fn what_is_passed_is_told(run: RunView, state: StateView, now: i64)
    requires
        run.begun <= run.configs.len(),
    ensures
        ({
            let (after, _, step) = run.advanced(state, now);
            let done = if step is Done {
                after.begun as int
            } else {
                after.begun - 1
            };
            let passed = run.configs.subrange(run.begun as int, done);
            let converged = passed.filter(
                |config: ServiceConfigView| state.dispatch(config) is Converged,
            );
            let refused = (passed.len() - converged.len()) as nat;
            &&& converged.len() <= passed.len()
            &&& after.deployed == run.deployed + converged.map_values(
                |config: ServiceConfigView| config.name,
            )
            &&& after.errors == run.errors + Seq::new(
                refused,
                |i: int| "the agent is not connected"@,
            )
        }),
    decreases run.configs.len() - run.begun,
{
    let (after, _, step) = run.advanced(state, now);
    let done = if step is Done {
        after.begun as int
    } else {
        after.begun - 1
    };
    let has_converged = |config: ServiceConfigView| state.dispatch(config) is Converged;
    let name = |config: ServiceConfigView| config.name;
    let told = |i: int| "the agent is not connected"@;
    let passed = run.configs.subrange(run.begun as int, done);
    run_stops_at_the_first_open_service(run, state, now);
    reveal(Seq::filter);
    if run.begun < run.configs.len() && (state.dispatch(
        run.configs[run.begun as int],
    ) is Converged || state.dispatch(run.configs[run.begun as int]) is Refused) {
        let config = run.configs[run.begun as int];
        let failure = match state.dispatch(config) {
            DispatchView::Refused(failure) => Some(failure),
            _ => None,
        };
        let next = RunView { begun: run.begun + 1, ..run }.noted(config.name, failure);
        what_is_passed_is_told(next, state, now);
        run_stops_at_the_first_open_service(next, state, now);
        let rest = run.configs.subrange((run.begun + 1) as int, done);
        assert(passed =~= seq![config] + rest);
        Seq::filter_distributes_over_add(seq![config], rest, has_converged);
        let none = Seq::<ServiceConfigView>::empty();
        assert(none.filter(has_converged) =~= none);
        assert(seq![config].drop_last() =~= none);
        let later = rest.filter(has_converged);
        let refused = (rest.len() - later.len()) as nat;
        if failure is None {
            assert(seq![config].filter(has_converged) =~= seq![config]);
            assert(passed.filter(has_converged) =~= seq![config] + later);
            assert(after.deployed =~= run.deployed + passed.filter(has_converged).map_values(name));
        } else {
            assert(seq![config].filter(has_converged) =~= none);
            assert(passed.filter(has_converged) =~= later);
            assert(FailureView::NotConnected.message() == "the agent is not connected"@);
            assert(after.errors =~= run.errors + Seq::new(refused + 1, told));
        }
    } else {
        assert(passed =~= Seq::<ServiceConfigView>::empty());
        assert(after.deployed =~= run.deployed + passed.filter(has_converged).map_values(name));
        assert(after.errors =~= run.errors + Seq::new(0, told));
    }
}

/// What a run is told of the service that it handed out is told on of that service: a success
/// by its name, a failure by its message, and never both. What was told before stays, and the
/// run goes on behind that service.
pub proof fn end_is_told_of_the_service_handed_out(run: RunView, failure: FailureView)
    requires
        0 < run.begun <= run.configs.len(),
    ensures
        ({
            let well = run.settled(None);
            &&& well.deployed == run.deployed.push(run.configs[run.begun - 1].name)
            &&& well.errors == run.errors
            &&& well.configs == run.configs
            &&& well.begun == run.begun
            &&& !well.waiting
        }),
        ({
            let badly = run.settled(Some(failure));
            &&& badly.deployed == run.deployed
            &&& badly.errors == run.errors.push(failure.message())
            &&& badly.configs == run.configs
            &&& badly.begun == run.begun
            &&& !badly.waiting
        }),
{
}

/// No service is handed out twice, and none is passed in silence: each time a run goes on, it
/// hands out a later service than before.
pub proof fn run_moves_on(
    run: RunView,
    failure: Option<FailureView>,
    state: StateView,
    now: i64,
)
    requires
        run.wf(),
        run.waiting,
    ensures
        ({
            let (after, _, step) = run.settled(failure).advanced(state, now);
            &&& !(step is Done) ==> run.begun < after.begun
            &&& after.deployed.len() + after.errors.len() == (if step is Done {
                after.begun as int
            } else {
                after.begun - 1
            })
        }),
{
    let told = run.settled(failure);
    run_stops_at_the_first_open_service(told, state, now);
    what_is_passed_is_told(told, state, now);
}

} // verus!
