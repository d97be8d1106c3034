//! What an agent's session does with each thing that happens in it.

use vstd::prelude::*;
use crate::agent::arrived;
use crate::agent::job;
use crate::agent::receipts;
use crate::agent::receipts_among;
use crate::agent::receipts_wait_for_no_job;
use crate::agent::JobView;
use crate::agent::SessionEvent;
use crate::agent::SessionView;
use crate::wire::AgentMessageView;
use crate::wire::MasterMessageView;
use crate::wire::WorkloadReportView;
use crate::workload::WorkloadSpecView;

verus! {

/// A deploy is run as it was asked for: the job behind all others is the deploy of exactly the
/// workload in the message, and the message behind all others is its receipt.
pub proof fn deploy_is_run_as_asked_for(session: SessionView, spec: WorkloadSpecView)
    ensures
        session.received(MasterMessageView::Deploy { spec }).jobs == session.jobs.push(
            JobView::Deploy { spec },
        ),
        session.received(MasterMessageView::Deploy { spec }).outbox == session.outbox.push(
            AgentMessageView::DeployReceived { service_name: spec.name },
        ),
{
}

/// A status ping leaves a report to be made behind all other jobs, and is answered with nothing.
pub proof fn ping_asks_for_a_report(session: SessionView)
    ensures
        session.received(MasterMessageView::StatusPing).jobs == session.jobs.push(JobView::Report),
        session.received(MasterMessageView::StatusPing).outbox == session.outbox,
{
}

/// Every message of a series leaves one job, in its place: a deploy leaves the deploy of its
/// own workload, a status ping leaves a report. The jobs that were there stay before them.
pub proof fn jobs_are_those_asked_for(session: SessionView, series: Seq<MasterMessageView>, i: int)
    requires
        0 <= i < series.len(),
    ensures
        ({
            let jobs = session.received_all(series).jobs;
            let left = jobs[session.jobs.len() + i];
            &&& jobs.len() == session.jobs.len() + series.len()
            &&& jobs.take(session.jobs.len() as int) == session.jobs
            &&& series[i] is StatusPing ==> left == JobView::Report
            &&& series[i] is Deploy ==> left == (JobView::Deploy { spec: series[i]->spec })
        }),
{
    receipts_wait_for_no_job(session, series);
    let left = series.map_values(|message: MasterMessageView| job(message));
    assert((session.jobs + left).take(session.jobs.len() as int) =~= session.jobs);
    assert((session.jobs + left)[session.jobs.len() + i] == left[i]);
}

/// The receipts of a series are those of its deploys: one for each, in order, by the name of
/// the service.
pub proof fn each_deploy_has_its_receipt(series: Seq<MasterMessageView>)
    ensures
        receipts(series) == series.filter(
            |message: MasterMessageView| message is Deploy,
        ).map_values(
            |message: MasterMessageView|
                AgentMessageView::DeployReceived { service_name: message->spec.name },
        ),
    decreases series.len(),
{
    let deploys = |message: MasterMessageView| message is Deploy;
    let answer = |message: MasterMessageView|
        AgentMessageView::DeployReceived { service_name: message->spec.name };
    reveal(Seq::filter);
    if series.len() > 0 {
        each_deploy_has_its_receipt(series.drop_last());
    }
    assert(receipts(series) =~= series.filter(deploys).map_values(answer));
}

/// Only a message from the master leaves a job. A heartbeat, a report and a result are written
/// behind what already waits, as they are.
pub proof fn answers_are_written_as_they_are(
    session: SessionView,
    workloads: Seq<WorkloadReportView>,
    service_name: Seq<char>,
    error: Option<Seq<char>>,
)
    ensures
        session.after(SessionEvent::Beat).jobs == session.jobs,
        session.after(SessionEvent::Beat).outbox == session.outbox.push(
            AgentMessageView::Heartbeat,
        ),
        session.after(SessionEvent::Reported { workloads }).jobs == session.jobs,
        session.after(SessionEvent::Reported { workloads }).outbox == session.outbox.push(
            AgentMessageView::StatusReport { workloads },
        ),
        session.after(SessionEvent::Finished { service_name, error }).jobs == session.jobs,
        session.after(SessionEvent::Finished { service_name, error }).outbox
            == session.outbox.push(AgentMessageView::DeployFinished { service_name, error }),
{
}

/// Nothing that waits to be written or to be run is lost or overtaken by what happens next.
pub proof fn what_waits_stays_in_front(session: SessionView, event: SessionEvent)
    ensures
        session.outbox.is_prefix_of(session.after(event).outbox),
        session.jobs.is_prefix_of(session.after(event).jobs),
        session.after(event).jobs.len() == session.jobs.len() + (if event is Received {
            1nat
        } else {
            0nat
        }),
        session.after(event).outbox.len() == session.outbox.len() + (if event
            == SessionEvent::Received(MasterMessageView::StatusPing) {
            0nat
        } else {
            1nat
        }),
{
}

/// A series of things that happen is taken in one by one, in order.
pub proof fn things_happen_one_by_one(
    session: SessionView,
    before: Seq<SessionEvent>,
    after: Seq<SessionEvent>,
    event: SessionEvent,
)
    ensures
        session.after_all(Seq::empty()) == session,
        session.after_all(seq![event]) == session.after(event),
        session.after_all(before + after) == session.after_all(before).after_all(after),
    decreases after.len(),
{
    reveal_with_fuel(SessionView::after_all, 2);
    assert(seq![event].drop_last() =~= Seq::<SessionEvent>::empty());
    if after.len() == 0 {
        assert(before + after =~= before);
    } else {
        things_happen_one_by_one(session, before, after.drop_last(), event);
        assert((before + after).drop_last() =~= before + after.drop_last());
    }
}

/// A series of messages from the master is taken in one by one, in order.
pub proof fn messages_come_in_one_by_one(
    session: SessionView,
    before: Seq<MasterMessageView>,
    after: Seq<MasterMessageView>,
    message: MasterMessageView,
)
    ensures
        session.received_all(Seq::empty()) == session,
        session.received_all(seq![message]) == session.received(message),
        session.received_all(before + after) == session.received_all(before).received_all(after),
    decreases after.len(),
{
    reveal_with_fuel(SessionView::received_all, 2);
    assert(seq![message].drop_last() =~= Seq::<MasterMessageView>::empty());
    if after.len() == 0 {
        assert(before + after =~= before);
    } else {
        messages_come_in_one_by_one(session, before, after.drop_last(), message);
        assert((before + after).drop_last() =~= before + after.drop_last());
    }
}

/// Whatever happens in a session, the jobs that it leaves are those that the messages from the
/// master asked for, in order.
pub proof fn only_the_master_asks_for_jobs(session: SessionView, events: Seq<SessionEvent>)
    ensures
        arrived(events) == events.filter(|event: SessionEvent| event is Received).map_values(
            |event: SessionEvent| event->Received_0,
        ),
        session.after_all(events).jobs == session.received_all(arrived(events)).jobs,
    decreases events.len(),
{
    let from_master = |event: SessionEvent| event is Received;
    let carried = |event: SessionEvent| event->Received_0;
    reveal(Seq::filter);
    if events.len() > 0 {
        only_the_master_asks_for_jobs(session, events.drop_last());
        if events.last() is Received {
            assert(arrived(events).drop_last() =~= arrived(events.drop_last()));
        }
    }
    assert(arrived(events) =~= events.filter(from_master).map_values(carried));
}

/// The receipts among what is written are all of it that says that a deploy was received, and
/// nothing else.
pub proof fn receipts_among_are_the_receipts(
    outbox: Seq<AgentMessageView>,
    message: AgentMessageView,
)
    ensures
        receipts_among(outbox.push(message)) == (match message {
            AgentMessageView::DeployReceived { .. } => receipts_among(outbox).push(message),
            _ => receipts_among(outbox),
        }),
        receipts_among(Seq::empty()) == Seq::<AgentMessageView>::empty(),
{
    reveal(Seq::filter);
    assert(outbox.push(message).drop_last() =~= outbox);
}

} // verus!
