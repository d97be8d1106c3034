//! The agent's side of a control session.
//!
//! The read loop only decides. What takes time, a walk over the runtime or a deploy, is left
//! behind as a job, so that the receipt of a deploy is acknowledged whatever came before it.

use vstd::prelude::*;
use crate::names::NameMap;
use crate::text::copy_text;
use crate::wire::error_of;
use crate::wire::AgentMessage;
use crate::wire::AgentMessageView;
use crate::wire::MasterMessage;
use crate::wire::MasterMessageView;
use crate::wire::WorkloadReport;
use crate::wire::WorkloadReportView;
use crate::workload::WorkloadSpec;
use crate::workload::WorkloadSpecView;
use crate::workload::WorkloadStatus;

verus! {

/// What the agent knows of a workload.
pub struct WorkloadRecord {
    /// The service that the workload belongs to.
    pub service_name: String,
    /// Its last known state.
    pub status: WorkloadStatus,
}

/// A workload record by its texts.
#[verifier::ext_equal]
pub struct WorkloadRecordView {
    pub service_name: Seq<char>,
    pub status: WorkloadStatus,
}

impl View for WorkloadRecord {
    type V = WorkloadRecordView;

    open spec fn view(&self) -> WorkloadRecordView {
        WorkloadRecordView { service_name: self.service_name@, status: self.status }
    }
}

/// An agent: whom it talks to, who it is, and its workloads by runtime id.
pub struct AgentClient {
    /// The address of the master.
    pub master_url: String,
    /// The agent's node.
    pub node_id: u64,
    /// The agent's workloads, by the ids that the runtime gave them.
    pub workloads: NameMap<WorkloadRecord>,
}

/// Whether a report holds one line for each of the workloads, and no other line.
pub open spec fn reports_exactly(
    report: Seq<WorkloadReportView>,
    workloads: Map<Seq<char>, WorkloadRecordView>,
) -> bool {
    &&& forall|i: int|
        0 <= i < report.len() ==> workloads.contains_key((#[trigger] report[i]).runtime_id)
            && workloads[report[i].runtime_id].service_name == report[i].service_name
            && workloads[report[i].runtime_id].status == report[i].status
    &&& forall|id: Seq<char>| #[trigger]
        workloads.contains_key(id) ==> exists|i: int|
            0 <= i < report.len() && (#[trigger] report[i]).runtime_id == id
    &&& forall|i: int, j: int|
        0 <= i < j < report.len() ==> (#[trigger] report[i]).runtime_id != (
        #[trigger] report[j]).runtime_id
}

impl AgentClient {
    /// An agent that runs nothing yet.
    pub fn new(master_url: String, node_id: u64) -> (agent: AgentClient)
        ensures
            agent.master_url == master_url,
            agent.node_id == node_id,
            agent.workloads@ == Map::<Seq<char>, WorkloadRecordView>::empty(),
    {
        AgentClient { master_url, node_id, workloads: NameMap::new() }
    }

    /// Takes down the state of a workload.
    pub fn update_workload_status(
        &mut self,
        runtime_id: &String,
        service_name: &String,
        status: WorkloadStatus,
    )
        ensures
            final(self).workloads@ == old(self).workloads@.insert(
                runtime_id@,
                (WorkloadRecordView { service_name: service_name@, status }),
            ),
            final(self).master_url == old(self).master_url,
            final(self).node_id == old(self).node_id,
    {
        self.workloads.insert(
            copy_text(runtime_id),
            WorkloadRecord { service_name: copy_text(service_name), status },
        );
    }

    /// The report on the agent's workloads.
    pub fn report(&self) -> (report: Vec<WorkloadReport>)
        ensures
            reports_exactly(report@.map_values(|line: WorkloadReport| line@), self.workloads@),
    {
        proof {
            use_type_invariant(&self.workloads);
        }
        let mut report: Vec<WorkloadReport> = Vec::new();
        let mut i: usize = 0;
        while i < self.workloads.entries.len()
            invariant
                self.workloads.wf(),
                i <= self.workloads.entries@.len(),
                report@.len() == i,
                forall|j: int|
                    0 <= j < i ==> (#[trigger] report@[j]).runtime_id@
                        == self.workloads.entries@[j].0@ && report@[j].service_name@
                        == self.workloads.entries@[j].1@.service_name && report@[j].status
                        == self.workloads.entries@[j].1@.status,
            decreases self.workloads.entries@.len() - i,
        {
            report.push(
                WorkloadReport {
                    runtime_id: copy_text(&self.workloads.entries[i].0),
                    service_name: copy_text(&self.workloads.entries[i].1.service_name),
                    status: self.workloads.entries[i].1.status,
                },
            );
            i = i + 1;
        }
        proof {
            let lines = report@.map_values(|line: WorkloadReport| line@);
            assert forall|j: int| 0 <= j < lines.len() implies self.workloads@.contains_key(
                (#[trigger] lines[j]).runtime_id,
            ) && self.workloads@[lines[j].runtime_id].service_name == lines[j].service_name
                && self.workloads@[lines[j].runtime_id].status == lines[j].status by {
                assert(lines[j] == report@[j]@);
                self.workloads.lemma_entry(j);
            }
            assert forall|id: Seq<char>| #[trigger] self.workloads@.contains_key(id) implies exists|
                j: int,
            | 0 <= j < lines.len() && (#[trigger] lines[j]).runtime_id == id by {
                let j = self.workloads.lemma_named(id);
                assert(lines[j] == report@[j]@);
            }
            assert forall|j: int, k: int| 0 <= j < k < lines.len() implies (
            #[trigger] lines[j]).runtime_id != (#[trigger] lines[k]).runtime_id by {
                assert(lines[j] == report@[j]@);
                assert(lines[k] == report@[k]@);
            }
        }
        report
    }
}

/// Work that the read loop leaves to someone else.
pub enum Job {
    /// Ask the runtime for the state of the workloads, and report it.
    Report,
    /// Run a workload, and tell how it went.
    Deploy { spec: Box<WorkloadSpec> },
}

/// A job by its texts.
#[verifier::ext_equal]
pub enum JobView {
    Report,
    Deploy { spec: WorkloadSpecView },
}

impl View for Job {
    type V = JobView;

    open spec fn view(&self) -> JobView {
        match self {
            Job::Report => JobView::Report,
            Job::Deploy { spec } => JobView::Deploy { spec: spec@ },
        }
    }
}

/// A session: the messages that wait to be written, and the jobs that wait to be run, each in
/// the order in which they came.
pub struct Session {
    outbox: Vec<AgentMessage>,
    jobs: Vec<Job>,
}

/// A session by its texts.
#[verifier::ext_equal]
pub struct SessionView {
    pub outbox: Seq<AgentMessageView>,
    pub jobs: Seq<JobView>,
}

/// The views of a list of messages.
pub open spec fn messages(list: Seq<AgentMessage>) -> Seq<AgentMessageView> {
    list.map_values(|message: AgentMessage| message@)
}

/// The views of a list of jobs.
pub open spec fn job_views(list: Seq<Job>) -> Seq<JobView> {
    list.map_values(|job: Job| job@)
}

impl View for Session {
    type V = SessionView;

    closed spec fn view(&self) -> SessionView {
        SessionView { outbox: messages(self.outbox@), jobs: job_views(self.jobs@) }
    }
}

/// The receipt that a message from the master is answered with, before anything is done.
pub open spec fn receipt(message: MasterMessageView) -> Seq<AgentMessageView> {
    match message {
        MasterMessageView::StatusPing => Seq::empty(),
        MasterMessageView::Deploy { spec } => seq![
            AgentMessageView::DeployReceived { service_name: spec.name },
        ],
    }
}

/// The job that a message from the master asks for.
pub open spec fn job(message: MasterMessageView) -> JobView {
    match message {
        MasterMessageView::StatusPing => JobView::Report,
        MasterMessageView::Deploy { spec } => JobView::Deploy { spec },
    }
}

impl SessionView {
    /// The session after a message from the master.
    pub open spec fn received(self, message: MasterMessageView) -> SessionView {
        SessionView {
            outbox: self.outbox + receipt(message),
            jobs: self.jobs.push(job(message)),
        }
    }

    /// The session after a series of messages from the master.
    pub open spec fn received_all(self, series: Seq<MasterMessageView>) -> SessionView
        decreases series.len(),
    {
        if series.len() == 0 {
            self
        } else {
            self.received_all(series.drop_last()).received(series.last())
        }
    }
}

impl Session {
    /// A session in which nothing has happened.
    pub fn new() -> (session: Session)
        ensures
            session@ == (SessionView { outbox: Seq::empty(), jobs: Seq::empty() }),
    {
        let session = Session { outbox: Vec::new(), jobs: Vec::new() };
        assert(session@ =~= SessionView { outbox: Seq::empty(), jobs: Seq::empty() });
        session
    }

    /// Takes in a message from the master.
    pub fn receive(&mut self, message: MasterMessage)
        ensures
            final(self)@ == old(self)@.received(message@),
            final(self)@ == old(self)@.after(SessionEvent::Received(message@)),
    {
        let ghost before = self@;
        match message {
            MasterMessage::StatusPing => {
                self.jobs.push(Job::Report);
            },
            MasterMessage::Deploy { spec } => {
                self.outbox.push(
                    AgentMessage::DeployReceived { service_name: copy_text(&spec.name) },
                );
                self.jobs.push(Job::Deploy { spec });
            },
        }
        assert(self@ =~= before.received(message@));
    }

    /// Hands out the messages that wait to be written, in their order.
    pub fn take_outbox(&mut self) -> (taken: Vec<AgentMessage>)
        ensures
            messages(taken@) == old(self)@.outbox,
            final(self)@ == (SessionView { outbox: Seq::empty(), ..old(self)@ }),
    {
        let ghost before = self@;
        let mut taken: Vec<AgentMessage> = Vec::new();
        std::mem::swap(&mut taken, &mut self.outbox);
        assert(self@ =~= SessionView { outbox: Seq::empty(), ..before });
        taken
    }

    /// Hands out the jobs that wait to be run, in their order.
    pub fn take_jobs(&mut self) -> (taken: Vec<Job>)
        ensures
            job_views(taken@) == old(self)@.jobs,
            final(self)@ == (SessionView { jobs: Seq::empty(), ..old(self)@ }),
    {
        let ghost before = self@;
        let mut taken: Vec<Job> = Vec::new();
        std::mem::swap(&mut taken, &mut self.jobs);
        assert(self@ =~= SessionView { jobs: Seq::empty(), ..before });
        taken
    }

    /// Lets the master know that the agent is alive, after what already waits.
    pub fn beat(&mut self)
        ensures
            final(self)@ == (SessionView {
                outbox: old(self)@.outbox.push(AgentMessageView::Heartbeat),
                ..old(self)@
            }),
            final(self)@ == old(self)@.after(SessionEvent::Beat),
    {
        let ghost before = self@;
        self.outbox.push(AgentMessage::Heartbeat);
        assert(self@ =~= SessionView {
            outbox: before.outbox.push(AgentMessageView::Heartbeat),
            ..before
        });
    }

    /// A report job has ended: the report is written after what already waits.
    pub fn finish_report(&mut self, workloads: Vec<WorkloadReport>)
        ensures
            final(self)@ == (SessionView {
                outbox: old(self)@.outbox.push(
                    AgentMessageView::StatusReport {
                        workloads: workloads@.map_values(|line: WorkloadReport| line@),
                    },
                ),
                ..old(self)@
            }),
            final(self)@ == old(self)@.after(
                SessionEvent::Reported {
                    workloads: workloads@.map_values(|line: WorkloadReport| line@),
                },
            ),
    {
        let ghost before = self@;
        self.outbox.push(AgentMessage::StatusReport { workloads });
        assert(self@ =~= SessionView {
            outbox: before.outbox.push(
                AgentMessageView::StatusReport {
                    workloads: workloads@.map_values(|line: WorkloadReport| line@),
                },
            ),
            ..before
        });
    }

    /// A deploy job has ended: its result is written after what already waits.
    pub fn finish_deploy(&mut self, service_name: String, result: Result<(), String>)
        ensures
            final(self)@ == (SessionView {
                outbox: old(self)@.outbox.push(
                    AgentMessageView::DeployFinished {
                        service_name: service_name@,
                        error: error_of(result),
                    },
                ),
                ..old(self)@
            }),
            final(self)@ == old(self)@.after(
                SessionEvent::Finished { service_name: service_name@, error: error_of(result) },
            ),
    {
        let ghost before = self@;
        self.outbox.push(AgentMessage::DeployFinished { service_name, result });
        assert(self@ =~= SessionView {
            outbox: before.outbox.push(
                AgentMessageView::DeployFinished {
                    service_name: service_name@,
                    error: error_of(result),
                },
            ),
            ..before
        });
    }
}

/// The receipts of a series of messages from the master: one for each deploy, in order.
pub open spec fn receipts(series: Seq<MasterMessageView>) -> Seq<AgentMessageView>
    decreases series.len(),
{
    if series.len() == 0 {
        Seq::empty()
    } else {
        receipts(series.drop_last()) + receipt(series.last())
    }
}

/// No receipt waits for a job: after any series of messages, while no job has ended, the
/// messages to be written are the receipts of the deploys in their order, and each message
/// has left its job behind.
pub proof fn receipts_wait_for_no_job(session: SessionView, series: Seq<MasterMessageView>)
    ensures
        session.received_all(series).outbox == session.outbox + receipts(series),
        session.received_all(series).jobs == session.jobs + series.map_values(
            |message: MasterMessageView| job(message),
        ),
    decreases series.len(),
{
    if series.len() == 0 {
        assert(session.outbox + receipts(series) =~= session.outbox);
        assert(session.jobs + series.map_values(|message: MasterMessageView| job(message))
            =~= session.jobs);
    } else {
        receipts_wait_for_no_job(session, series.drop_last());
        assert(session.received_all(series).outbox =~= session.outbox + receipts(series));
        assert(session.received_all(series).jobs =~= session.jobs + series.map_values(
            |message: MasterMessageView| job(message),
        ));
    }
}

/// What can happen in a session.
#[verifier::ext_equal]
pub enum SessionEvent {
    /// A message from the master came in.
    Received(MasterMessageView),
    /// It was time for a heartbeat.
    Beat,
    /// A report job has ended.
    Reported { workloads: Seq<WorkloadReportView> },
    /// A deploy job has ended.
    Finished { service_name: Seq<char>, error: Option<Seq<char>> },
}

impl SessionView {
    /// The session after something happened in it.
    pub open spec fn after(self, event: SessionEvent) -> SessionView {
        match event {
            SessionEvent::Received(message) => self.received(message),
            SessionEvent::Beat => SessionView {
                outbox: self.outbox.push(AgentMessageView::Heartbeat),
                ..self
            },
            SessionEvent::Reported { workloads } => SessionView {
                outbox: self.outbox.push(AgentMessageView::StatusReport { workloads }),
                ..self
            },
            SessionEvent::Finished { service_name, error } => SessionView {
                outbox: self.outbox.push(AgentMessageView::DeployFinished { service_name, error }),
                ..self
            },
        }
    }

    /// The session after a series of things happened in it.
    pub open spec fn after_all(self, events: Seq<SessionEvent>) -> SessionView
        decreases events.len(),
    {
        if events.len() == 0 {
            self
        } else {
            self.after_all(events.drop_last()).after(events.last())
        }
    }
}

/// The messages from the master among what happened, in order.
pub open spec fn arrived(events: Seq<SessionEvent>) -> Seq<MasterMessageView>
    decreases events.len(),
{
    if events.len() == 0 {
        Seq::empty()
    } else {
        match events.last() {
            SessionEvent::Received(message) => arrived(events.drop_last()).push(message),
            _ => arrived(events.drop_last()),
        }
    }
}

/// The receipts among the messages that are written, in order.
pub open spec fn receipts_among(outbox: Seq<AgentMessageView>) -> Seq<AgentMessageView> {
    outbox.filter(|message: AgentMessageView| message is DeployReceived)
}

/// Receipts keep their order: whatever heartbeats, reports and results fall between them, the
/// receipts among what is written are those of the deploys that came in, one for each and in
/// their order.
pub proof fn receipts_keep_their_order(session: SessionView, events: Seq<SessionEvent>)
    ensures
        receipts_among(session.after_all(events).outbox) == receipts_among(session.outbox)
            + receipts(arrived(events)),
    decreases events.len(),
{
    reveal(Seq::filter);
    if events.len() == 0 {
        assert(receipts_among(session.outbox) + receipts(arrived(events)) =~= receipts_among(
            session.outbox,
        ));
    } else {
        receipts_keep_their_order(session, events.drop_last());
        let before = session.after_all(events.drop_last());
        let after = session.after_all(events);
        let earlier = arrived(events.drop_last());
        match events.last() {
            SessionEvent::Received(message) => {
                assert(arrived(events).drop_last() =~= earlier);
                match message {
                    MasterMessageView::StatusPing => {
                        assert(after.outbox =~= before.outbox);
                        assert(receipts(arrived(events)) =~= receipts(earlier));
                    },
                    MasterMessageView::Deploy { spec } => {
                        let ack = AgentMessageView::DeployReceived { service_name: spec.name };
                        assert(after.outbox =~= before.outbox.push(ack));
                        assert(after.outbox.drop_last() =~= before.outbox);
                        assert(receipts_among(after.outbox) =~= receipts_among(session.outbox)
                            + receipts(arrived(events)));
                    },
                }
            },
            _ => {
                assert(after.outbox.drop_last() =~= before.outbox);
            },
        }
    }
}

/// A status ping delays nothing: with or without it, wherever it comes in, the same receipts
/// are written in the same order.
pub proof fn status_ping_delays_no_receipt(
    before: Seq<MasterMessageView>,
    after: Seq<MasterMessageView>,
)
    ensures
        receipts(before + seq![MasterMessageView::StatusPing] + after) == receipts(before + after),
    decreases after.len(),
{
    let with_ping = before + seq![MasterMessageView::StatusPing] + after;
    let without = before + after;
    if after.len() == 0 {
        assert(with_ping.drop_last() =~= before);
        assert(without =~= before);
        assert(receipts(with_ping) =~= receipts(before));
    } else {
        status_ping_delays_no_receipt(before, after.drop_last());
        assert(with_ping.drop_last() =~= before + seq![MasterMessageView::StatusPing]
            + after.drop_last());
        assert(without.drop_last() =~= before + after.drop_last());
    }
}

/// A receipt is written at once: in whatever state a session is, whatever jobs are unfinished,
/// a deploy leaves its receipt right behind what already waits to be written.
pub proof fn receipt_is_written_at_once(session: SessionView, spec: WorkloadSpecView)
    ensures
        session.received(MasterMessageView::Deploy { spec }).outbox == session.outbox.push(
            AgentMessageView::DeployReceived { service_name: spec.name },
        ),
{
    assert(session.received(MasterMessageView::Deploy { spec }).outbox =~= session.outbox.push(
        AgentMessageView::DeployReceived { service_name: spec.name },
    ));
}

/// A series of status pings is answered with nothing, so the receipt of the deploy that comes
/// behind them is the first message on the wire.
pub proof fn receipt_of_a_deploy_comes_first(pings: Seq<MasterMessageView>, spec: WorkloadSpecView)
    requires
        forall|i: int| 0 <= i < pings.len() ==> #[trigger] pings[i] is StatusPing,
    ensures
        (SessionView { outbox: Seq::empty(), jobs: Seq::empty() }).received_all(
            pings.push(MasterMessageView::Deploy { spec }),
        ).outbox == seq![AgentMessageView::DeployReceived { service_name: spec.name }],
{
    let start = SessionView { outbox: Seq::empty(), jobs: Seq::empty() };
    let series = pings.push(MasterMessageView::Deploy { spec });
    receipts_wait_for_no_job(start, series);
    lemma_no_receipts(pings);
    assert(series.drop_last() =~= pings);
    assert(start.outbox + receipts(series) =~= seq![
        AgentMessageView::DeployReceived { service_name: spec.name },
    ]);
}

proof fn lemma_no_receipts(pings: Seq<MasterMessageView>)
    requires
        forall|i: int| 0 <= i < pings.len() ==> #[trigger] pings[i] is StatusPing,
    ensures
        receipts(pings) == Seq::<AgentMessageView>::empty(),
    decreases pings.len(),
{
    if pings.len() > 0 {
        assert(pings.last() is StatusPing);
        lemma_no_receipts(pings.drop_last());
        assert(receipts(pings) =~= Seq::<AgentMessageView>::empty());
    }
}

} // verus!
