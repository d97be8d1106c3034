//! What travels over a control session: frames, and the messages that text frames carry.

use vstd::prelude::*;
use crate::workload::WorkloadSpec;
use crate::workload::WorkloadSpecView;
use crate::workload::WorkloadStatus;

verus! {

/// A message from the master to an agent.
pub enum MasterMessage {
    /// Asks for a report on the agent's workloads.
    StatusPing,
    /// Asks the agent to run a workload.
    Deploy { spec: Box<WorkloadSpec> },
}

/// A master message by its texts.
#[verifier::ext_equal]
pub enum MasterMessageView {
    StatusPing,
    Deploy { spec: WorkloadSpecView },
}

impl View for MasterMessage {
    type V = MasterMessageView;

    open spec fn view(&self) -> MasterMessageView {
        match self {
            MasterMessage::StatusPing => MasterMessageView::StatusPing,
            MasterMessage::Deploy { spec } => MasterMessageView::Deploy { spec: spec@ },
        }
    }
}

/// The state of one workload in a report.
pub struct WorkloadReport {
    /// The runtime's id of the workload.
    pub runtime_id: String,
    /// The service that the workload belongs to.
    pub service_name: String,
    /// Its state.
    pub status: WorkloadStatus,
}

/// A workload's line in a report by its texts.
#[verifier::ext_equal]
pub struct WorkloadReportView {
    pub runtime_id: Seq<char>,
    pub service_name: Seq<char>,
    pub status: WorkloadStatus,
}

impl View for WorkloadReport {
    type V = WorkloadReportView;

    open spec fn view(&self) -> WorkloadReportView {
        WorkloadReportView {
            runtime_id: self.runtime_id@,
            service_name: self.service_name@,
            status: self.status,
        }
    }
}

/// A message from an agent to the master.
pub enum AgentMessage {
    /// The agent has the deploy command of the service. It says nothing of the outcome.
    DeployReceived { service_name: String },
    /// The deploy of the service has ended.
    DeployFinished { service_name: String, result: Result<(), String> },
    /// The states of the agent's workloads.
    StatusReport { workloads: Vec<WorkloadReport> },
    /// The agent is alive.
    Heartbeat,
}

/// An agent message by its texts.
#[verifier::ext_equal]
pub enum AgentMessageView {
    DeployReceived { service_name: Seq<char> },
    DeployFinished { service_name: Seq<char>, error: Option<Seq<char>> },
    StatusReport { workloads: Seq<WorkloadReportView> },
    Heartbeat,
}

/// The error text of a deploy's result.
pub open spec fn error_of(result: Result<(), String>) -> Option<Seq<char>> {
    match result {
        Ok(_) => None,
        Err(error) => Some(error@),
    }
}

impl View for AgentMessage {
    type V = AgentMessageView;

    open spec fn view(&self) -> AgentMessageView {
        match self {
            AgentMessage::DeployReceived { service_name } => AgentMessageView::DeployReceived {
                service_name: service_name@,
            },
            AgentMessage::DeployFinished { service_name, result } => {
                AgentMessageView::DeployFinished {
                    service_name: service_name@,
                    error: error_of(*result),
                }
            },
            AgentMessage::StatusReport { workloads } => AgentMessageView::StatusReport {
                workloads: workloads@.map_values(|workload: WorkloadReport| workload@),
            },
            AgentMessage::Heartbeat => AgentMessageView::Heartbeat,
        }
    }
}

/// A frame of a control session.
pub enum Frame {
    /// A frame that carries a message.
    Text(String),
    /// Raw bytes, which carry no message.
    Binary(Vec<u8>),
    /// A keep-alive request of the transport.
    Ping(Vec<u8>),
    /// The answer to a keep-alive request.
    Pong(Vec<u8>),
    /// The peer closes the connection.
    Close,
}

/// What a read from the connection gave.
pub enum Incoming {
    /// A frame.
    Frame(Frame),
    /// The transport failed.
    Broken,
    /// The connection is at its end.
    Ended,
}

/// Why no message can be read any more.
#[derive(Clone, Copy, Debug, PartialEq, Eq, Structural)]
pub enum ReadFault {
    /// The transport failed.
    Broken,
    /// The connection is at its end.
    Ended,
}

/// What to do after a read.
pub enum ReadStep {
    /// Hand out the text of a message.
    Deliver(String),
    /// Read again.
    KeepReading,
    /// Give up.
    Fail(ReadFault),
}

/// The step that follows a read: a text frame is delivered, another frame is passed over.
pub open spec fn read_step(incoming: Incoming) -> ReadStep {
    match incoming {
        Incoming::Frame(Frame::Text(text)) => ReadStep::Deliver(text),
        Incoming::Frame(_) => ReadStep::KeepReading,
        Incoming::Broken => ReadStep::Fail(ReadFault::Broken),
        Incoming::Ended => ReadStep::Fail(ReadFault::Ended),
    }
}

/// The first step of a series of reads that does not ask for another one.
pub open spec fn read_all(reads: Seq<Incoming>) -> ReadStep
    decreases reads.len(),
{
    if reads.len() == 0 {
        ReadStep::KeepReading
    } else if read_step(reads[0]) is KeepReading {
        read_all(reads.drop_first())
    } else {
        read_step(reads[0])
    }
}

/// Decides what a read means to someone who waits for the next message.
pub fn next_message(incoming: Incoming) -> (step: ReadStep)
    ensures
        step == read_step(incoming),
{
    match incoming {
        Incoming::Frame(Frame::Text(text)) => ReadStep::Deliver(text),
        Incoming::Frame(_) => ReadStep::KeepReading,
        Incoming::Broken => ReadStep::Fail(ReadFault::Broken),
        Incoming::Ended => ReadStep::Fail(ReadFault::Ended),
    }
}

/// The frame that carries a message, given the message's text.
pub fn text_frame(text: String) -> (frame: Frame)
    ensures
        frame == Frame::Text(text),
{
    Frame::Text(text)
}

/// Whether a read gave a frame that carries no message.
pub open spec fn passed_over(incoming: Incoming) -> bool {
    incoming is Frame && !(incoming->Frame_0 is Text)
}

/// The reads that are left once a series of reads has given what `read_all` says.
pub open spec fn reads_left(reads: Seq<Incoming>) -> Seq<Incoming>
    decreases reads.len(),
{
    if reads.len() == 0 {
        reads
    } else if read_step(reads[0]) is KeepReading {
        reads_left(reads.drop_first())
    } else {
        reads.drop_first()
    }
}

/// The texts that someone gets who waits for one message after the other, until there is none.
pub open spec fn deliveries(reads: Seq<Incoming>) -> Seq<String>
    decreases reads.len(),
    via deliveries_decreases
{
    match read_all(reads) {
        ReadStep::Deliver(text) => seq![text] + deliveries(reads_left(reads)),
        _ => Seq::empty(),
    }
}

#[via_fn]
proof fn deliveries_decreases(reads: Seq<Incoming>) {
    lemma_fewer_reads(reads);
}

proof fn lemma_fewer_reads(reads: Seq<Incoming>)
    ensures
        reads_left(reads).len() <= reads.len(),
        read_all(reads) is Deliver ==> reads_left(reads).len() < reads.len(),
    decreases reads.len(),
{
    if reads.len() > 0 {
        lemma_fewer_reads(reads.drop_first());
    }
}

/// The texts of the text frames in a series of reads, in order, as far as the connection holds.
pub open spec fn texts_sent(reads: Seq<Incoming>) -> Seq<String>
    decreases reads.len(),
{
    if reads.len() == 0 {
        Seq::empty()
    } else {
        match reads[0] {
            Incoming::Frame(Frame::Text(text)) => seq![text] + texts_sent(reads.drop_first()),
            Incoming::Frame(_) => texts_sent(reads.drop_first()),
            Incoming::Broken => Seq::empty(),
            Incoming::Ended => Seq::empty(),
        }
    }
}

/// No text is lost, doubled or moved: someone who waits for one message after the other gets
/// every text that comes in before the connection fails or ends, once and in order.
pub proof fn every_text_is_delivered_in_order(reads: Seq<Incoming>)
    ensures
        deliveries(reads) == texts_sent(reads),
    decreases reads.len(),
{
    if reads.len() > 0 {
        every_text_is_delivered_in_order(reads.drop_first());
        if read_step(reads[0]) is KeepReading {
            lemma_fewer_reads(reads);
            assert(deliveries(reads) == deliveries(reads.drop_first()));
        }
    }
}

/// What is sent is what is read: whatever frames without a message come before it, the text
/// of the first text frame is the one that is delivered, and all that follows it is left to be
/// read.
pub proof fn first_text_is_delivered(skipped: Seq<Incoming>, text: String, rest: Seq<Incoming>)
    requires
        forall|i: int| 0 <= i < skipped.len() ==> passed_over(#[trigger] skipped[i]),
    ensures
        read_all(skipped + seq![Incoming::Frame(Frame::Text(text))] + rest) == ReadStep::Deliver(
            text,
        ),
        reads_left(skipped + seq![Incoming::Frame(Frame::Text(text))] + rest) == rest,
    decreases skipped.len(),
{
    let reads = skipped + seq![Incoming::Frame(Frame::Text(text))] + rest;
    if skipped.len() == 0 {
        assert(reads[0] == Incoming::Frame(Frame::Text(text)));
        assert(reads.drop_first() =~= rest);
    } else {
        assert(reads[0] == skipped[0]);
        first_text_is_delivered(skipped.drop_first(), text, rest);
        assert(reads.drop_first() =~= skipped.drop_first() + seq![
            Incoming::Frame(Frame::Text(text)),
        ] + rest);
    }
}

/// Nothing is delivered before a text frame: a series of frames without a message asks for
/// another read.
pub proof fn nothing_is_delivered_without_text(skipped: Seq<Incoming>)
    requires
        forall|i: int| 0 <= i < skipped.len() ==> passed_over(#[trigger] skipped[i]),
    ensures
        read_all(skipped) is KeepReading,
    decreases skipped.len(),
{
    if skipped.len() > 0 {
        nothing_is_delivered_without_text(skipped.drop_first());
    }
}

} // verus!
