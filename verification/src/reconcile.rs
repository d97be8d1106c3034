//! Bringing the cluster to a list of configurations.
//!
//! A run goes through the configurations one by one. It stops wherever someone else has to act:
//! to send a deploy and wait for its end, or to deploy to the master's own runtime. It goes on
//! when it is told how that went.

use vstd::prelude::*;
use crate::config::ServiceConfig;
use crate::config::ServiceConfigView;
use crate::deploy::failure_of;
use crate::deploy::Dispatch;
use crate::deploy::DispatchView;
use crate::failure::DeployFailure;
use crate::failure::FailureView;
use crate::state::AppState;
use crate::state::StateView;
use crate::text::copy_text;
use crate::text::texts;
use crate::wire::MasterMessage;
use crate::wire::MasterMessageView;

verus! {

/// What a run needs next.
pub enum Step {
    /// The message is to be sent to the node's agent, and the end of the deploy to be told.
    Send { node_id: u64, service: String, message: MasterMessage },
    /// The service is to be deployed to the master's own runtime, and the end to be told.
    DeployLocally { config: ServiceConfig },
    /// Nothing: the run is over.
    Done,
}

/// What a run needs next, by its texts.
#[verifier::ext_equal]
pub enum StepView {
    Send { node_id: u64, service: Seq<char>, message: MasterMessageView },
    DeployLocally { config: ServiceConfigView },
    Done,
}

impl View for Step {
    type V = StepView;

    open spec fn view(&self) -> StepView {
        match self {
            Step::Send { node_id, service, message } => StepView::Send {
                node_id: *node_id,
                service: service@,
                message: message@,
            },
            Step::DeployLocally { config } => StepView::DeployLocally { config: config@ },
            Step::Done => StepView::Done,
        }
    }
}

/// A run through a list of configurations.
pub struct Reconcile {
    /// The configurations.
    pub(crate) configs: Vec<ServiceConfig>,
    /// How many of them have been begun.
    pub(crate) begun: usize,
    /// Whether the end of the last one begun is still to be told.
    pub(crate) waiting: bool,
    /// The services that run as configured.
    pub(crate) deployed: Vec<String>,
    /// What went wrong with the others.
    pub(crate) errors: Vec<String>,
}

/// A run by its texts.
#[verifier::ext_equal]
pub struct RunView {
    pub configs: Seq<ServiceConfigView>,
    pub begun: nat,
    pub waiting: bool,
    pub deployed: Seq<Seq<char>>,
    pub errors: Seq<Seq<char>>,
}

/// The views of a list of configurations.
pub open spec fn config_views(list: Seq<ServiceConfig>) -> Seq<ServiceConfigView> {
    list.map_values(|config: ServiceConfig| config@)
}

impl View for Reconcile {
    type V = RunView;

    closed spec fn view(&self) -> RunView {
        RunView {
            configs: config_views(self.configs@),
            begun: self.begun as nat,
            waiting: self.waiting,
            deployed: texts(self.deployed@),
            errors: texts(self.errors@),
        }
    }
}

impl RunView {
    /// Every configuration that was begun is accounted for: it is deployed, has gone wrong, or
    /// is the one whose end is still to be told.
    pub open spec fn wf(self) -> bool {
        &&& self.begun <= self.configs.len()
        &&& self.begun == self.deployed.len() + self.errors.len() + if self.waiting {
            1nat
        } else {
            0nat
        }
    }

    /// The run with one more configuration begun, to be ended by someone else.
    pub open spec fn handed_out(self) -> RunView {
        RunView { begun: self.begun + 1, waiting: true, ..self }
    }

    /// The run with the end of a service taken down.
    pub open spec fn noted(self, service: Seq<char>, failure: Option<FailureView>) -> RunView {
        match failure {
            None => RunView { deployed: self.deployed.push(service), ..self },
            Some(failure) => RunView { errors: self.errors.push(failure.message()), ..self },
        }
    }

    /// The run after it was told how the last service begun has ended.
    pub open spec fn settled(self, failure: Option<FailureView>) -> RunView {
        RunView { waiting: false, ..self }.noted(self.configs[self.begun - 1].name, failure)
    }

    /// The run and the state after the run has gone on as far as it can alone, and what it
    /// needs next. A service that has converged, or that is refused, is done with at once.
    pub open spec fn advanced(self, state: StateView, now: i64) -> (RunView, StateView, StepView)
        decreases self.configs.len() - self.begun,
    {
        if self.begun >= self.configs.len() {
            (self, state, StepView::Done)
        } else {
            let config = self.configs[self.begun as int];
            let next = RunView { begun: self.begun + 1, ..self };
            match state.dispatch(config) {
                DispatchView::Converged => next.noted(config.name, None).advanced(state, now),
                DispatchView::Refused(failure) => next.noted(
                    config.name,
                    Some(failure),
                ).advanced(state, now),
                DispatchView::Local => (
                    self.handed_out(),
                    state,
                    StepView::DeployLocally { config },
                ),
                DispatchView::Send { node_id, message } => (
                    self.handed_out(),
                    state.dispatched(config, now),
                    StepView::Send { node_id, service: config.name, message },
                ),
            }
        }
    }
}

impl Reconcile {
    /// A run through the configurations, at its start.
    pub fn new(configs: Vec<ServiceConfig>) -> (run: Reconcile)
        ensures
            run@ == (RunView {
                configs: config_views(configs@),
                begun: 0,
                waiting: false,
                deployed: Seq::empty(),
                errors: Seq::empty(),
            }),
            run@.wf(),
    {
        let run = Reconcile {
            configs,
            begun: 0,
            waiting: false,
            deployed: Vec::new(),
            errors: Vec::new(),
        };
        assert(run@.deployed =~= Seq::empty());
        assert(run@.errors =~= Seq::empty());
        run
    }

    fn note(&mut self, result: Result<(), DeployFailure>)
        requires
            0 < old(self)@.begun <= old(self)@.configs.len(),
        ensures
            final(self)@ == old(self)@.noted(
                old(self)@.configs[old(self)@.begun - 1].name,
                failure_of(result),
            ),
    {
        let ghost before = self@;
        match result {
            Ok(_) => {
                let name: String = copy_text(&self.configs[self.begun - 1].name);
                self.deployed.push(name);
                assert(self@.deployed =~= before.deployed.push(name@));
            },
            Err(failure) => {
                let message: String = failure.message();
                self.errors.push(message);
                assert(self@.errors =~= before.errors.push(message@));
            },
        }
    }

    /// Goes on as far as the run can alone, and tells what it needs next.
    pub fn advance(&mut self, state: &mut AppState, now: i64) -> (step: Step)
        requires
            old(self)@.wf(),
            !old(self)@.waiting,
        ensures
            (final(self)@, final(state)@, step@) == old(self)@.advanced(old(state)@, now),
            final(self)@.wf(),
            final(self)@.waiting == !(step@ is Done),
    {
        let ghost start = self@;
        let ghost before = state@;
        while self.begun < self.configs.len()
            invariant
                start == old(self)@,
                before == old(state)@,
                self@.wf(),
                !self@.waiting,
                state@ == before,
                self@.advanced(before, now) == start.advanced(before, now),
            decreases self.configs@.len() - self.begun,
        {
            let ghost here = self@;
            let config: &ServiceConfig = &self.configs[self.begun];
            assert(here.configs[here.begun as int] == config@);
            let dispatch: Dispatch = state.begin_deploy(config, now);
            let config: ServiceConfig = config.copy();
            self.begun = self.begun + 1;
            match dispatch {
                Dispatch::Converged => {
                    self.note(Ok(()));
                },
                Dispatch::Refused(failure) => {
                    self.note(Err(failure));
                },
                Dispatch::Local => {
                    self.waiting = true;
                    return Step::DeployLocally { config };
                },
                Dispatch::Send { node_id, message } => {
                    self.waiting = true;
                    return Step::Send { node_id, service: config.name, message };
                },
            }
        }
        Step::Done
    }

    /// Tells the run how the service that it handed out has ended.
    pub fn settle(&mut self, result: Result<(), DeployFailure>)
        requires
            old(self)@.wf(),
            old(self)@.waiting,
        ensures
            final(self)@ == old(self)@.settled(failure_of(result)),
            final(self)@.wf(),
    {
        self.waiting = false;
        self.note(result);
    }

    /// Whether the run has handed a service out and was not told yet how it has ended.
    pub fn is_waiting(&self) -> (waiting: bool)
        ensures
            waiting == self@.waiting,
    {
        self.waiting
    }

    /// The services that run as configured, and the messages of what went wrong, each in the
    /// order of the configurations.
    pub fn finish(self) -> (report: (Vec<String>, Vec<String>))
        ensures
            texts(report.0@) == self@.deployed,
            texts(report.1@) == self@.errors,
    {
        (self.deployed, self.errors)
    }
}

/// A run that is over has accounted for every configuration: it is among the deployed, or
/// something went wrong with it.
pub proof fn every_service_is_accounted_for(run: RunView, state: StateView, now: i64)
    requires
        run.wf(),
        !run.waiting,
        run.advanced(state, now).2 is Done,
    ensures
        run.advanced(state, now).0.deployed.len() + run.advanced(state, now).0.errors.len()
            == run.configs.len(),
        run.advanced(state, now).1 == state,
    decreases run.configs.len() - run.begun,
{
    if run.begun < run.configs.len() {
        let config = run.configs[run.begun as int];
        let next = RunView { begun: run.begun + 1, ..run };
        match state.dispatch(config) {
            DispatchView::Converged => {
                every_service_is_accounted_for(next.noted(config.name, None), state, now);
            },
            DispatchView::Refused(failure) => {
                every_service_is_accounted_for(next.noted(config.name, Some(failure)), state, now);
            },
            _ => {},
        }
    }
}

/// The names of a list of configurations.
pub open spec fn names(configs: Seq<ServiceConfigView>) -> Seq<Seq<char>> {
    configs.map_values(|config: ServiceConfigView| config.name)
}

/// Whether every service that a run counts as deployed is one of those it was asked for.
pub open spec fn deployed_as_asked(run: RunView) -> bool {
    forall|i: int|
        0 <= i < run.deployed.len() ==> names(run.configs).contains(#[trigger] run.deployed[i])
}

/// A run counts nothing as deployed that it was not asked for, however it goes on and whatever
/// it is told.
pub proof fn only_what_was_asked_for_is_deployed(
    run: RunView,
    state: StateView,
    now: i64,
    failure: Option<FailureView>,
)
    requires
        run.wf(),
        deployed_as_asked(run),
    ensures
        deployed_as_asked(run.advanced(state, now).0),
        run.waiting ==> deployed_as_asked(run.settled(failure)),
    decreases run.configs.len() - run.begun,
{
    if run.waiting {
        assert(names(run.configs)[run.begun - 1] == run.configs[run.begun - 1].name);
    }
    if run.begun < run.configs.len() {
        let config = run.configs[run.begun as int];
        let next = RunView { begun: run.begun + 1, ..run };
        assert(names(run.configs)[run.begun as int] == config.name);
        match state.dispatch(config) {
            DispatchView::Converged => {
                only_what_was_asked_for_is_deployed(
                    next.noted(config.name, None),
                    state,
                    now,
                    failure,
                );
            },
            DispatchView::Refused(reason) => {
                only_what_was_asked_for_is_deployed(
                    next.noted(config.name, Some(reason)),
                    state,
                    now,
                    failure,
                );
            },
            _ => {},
        }
    }
}

/// A run through services that all run as configured sends nothing, changes nothing, and
/// counts every one of them as deployed.
pub proof fn converged_services_are_left_alone(run: RunView, state: StateView, now: i64)
    requires
        !run.waiting,
        run.begun <= run.configs.len(),
        forall|i: int|
            run.begun <= i < run.configs.len() ==> state.dispatch(
                #[trigger] run.configs[i],
            ) is Converged,
    ensures
        run.advanced(state, now).0 == (RunView {
            begun: run.configs.len(),
            deployed: run.deployed + names(run.configs.skip(run.begun as int)),
            ..run
        }),
        run.advanced(state, now).1 == state,
        run.advanced(state, now).2 is Done,
    decreases run.configs.len() - run.begun,
{
    let rest = run.configs.skip(run.begun as int);
    if run.begun < run.configs.len() {
        let config = run.configs[run.begun as int];
        assert(state.dispatch(config) is Converged);
        let next = RunView { begun: run.begun + 1, ..run }.noted(config.name, None);
        converged_services_are_left_alone(next, state, now);
        let later = next.configs.skip(next.begun as int);
        assert(run.deployed + names(rest) =~= next.deployed + names(later));
    } else {
        assert(run.deployed + names(rest) =~= run.deployed);
    }
}

} // verus!
