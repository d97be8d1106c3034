//! The agent's side of a control session.

use orca_deploy::agent::{AgentClient, Job, Session};
use orca_deploy::wire::{
    next_message, text_frame, AgentMessage, Frame, Incoming, MasterMessage, ReadFault, ReadStep,
};
use orca_deploy::workload::{spec, WorkloadStatus};

fn text(value: &str) -> String {
    value.to_string()
}

fn deploy(name: &str) -> MasterMessage {
    MasterMessage::Deploy {
        spec: Box::new(spec(&text(name))),
    }
}

/// A status ping, then a deploy right behind it: the receipt is the first message on the wire,
/// and the report comes only when its walk has ended.
#[test]
fn status_ping_does_not_delay_the_next_deploy_ack() {
    let mut agent = AgentClient::new(text("http://127.0.0.1:1"), 1);
    agent.update_workload_status(&text("mock-web"), &text("web"), WorkloadStatus::Running);
    let mut session = Session::new();

    session.receive(MasterMessage::StatusPing);
    session.receive(deploy("web"));

    let written = session.take_outbox();
    let first = &written[0];
    assert!(
        matches!(first, AgentMessage::DeployReceived { service_name } if service_name == "web"),
        "expected DeployReceived first"
    );
    assert_eq!(written.len(), 1);

    let jobs = session.take_jobs();
    assert_eq!(jobs.len(), 2);
    assert!(matches!(jobs[0], Job::Report));
    assert!(matches!(&jobs[1], Job::Deploy { spec } if spec.name == "web"));

    session.finish_report(agent.report());
    session.finish_deploy(text("web"), Err(text("no space left")));
    let written = session.take_outbox();
    assert_eq!(written.len(), 2);
    match &written[0] {
        AgentMessage::StatusReport { workloads } => {
            assert_eq!(workloads.len(), 1);
            assert_eq!(workloads[0].runtime_id, "mock-web");
            assert_eq!(workloads[0].service_name, "web");
            assert_eq!(workloads[0].status, WorkloadStatus::Running);
        }
        _ => panic!("expected the report"),
    }
    match &written[1] {
        AgentMessage::DeployFinished { service_name, result } => {
            assert_eq!(service_name, "web");
            assert_eq!(*result, Err(text("no space left")));
        }
        _ => panic!("expected the result"),
    }
    assert!(session.take_outbox().is_empty());
    assert!(session.take_jobs().is_empty());
}

#[test]
fn receipts_come_in_the_order_of_the_deploys() {
    let mut session = Session::new();
    session.receive(deploy("a"));
    session.receive(MasterMessage::StatusPing);
    session.receive(MasterMessage::StatusPing);
    session.receive(deploy("b"));
    let mut names = Vec::new();
    for message in session.take_outbox() {
        match message {
            AgentMessage::DeployReceived { service_name } => names.push(service_name),
            _ => panic!("expected a receipt"),
        }
    }
    assert_eq!(names, vec![text("a"), text("b")]);
    assert_eq!(session.take_jobs().len(), 4);
}

#[test]
fn a_receipt_does_not_wait_for_unfinished_jobs() {
    let mut session = Session::new();
    session.receive(MasterMessage::StatusPing);
    session.finish_report(Vec::new());
    session.receive(deploy("web"));
    let written = session.take_outbox();
    assert_eq!(written.len(), 2);
    assert!(matches!(&written[0], AgentMessage::StatusReport { workloads } if workloads.is_empty()));
    assert!(matches!(&written[1], AgentMessage::DeployReceived { .. }));
}

#[test]
fn the_report_has_one_line_for_each_workload() {
    let mut agent = AgentClient::new(text("http://127.0.0.1:1"), 1);
    assert!(agent.report().is_empty());
    agent.update_workload_status(&text("a"), &text("web"), WorkloadStatus::Running);
    agent.update_workload_status(&text("b"), &text("db"), WorkloadStatus::Running);
    agent.update_workload_status(&text("a"), &text("web"), WorkloadStatus::Stopped);
    let mut lines: Vec<(String, String, WorkloadStatus)> = agent
        .report()
        .into_iter()
        .map(|line| (line.runtime_id, line.service_name, line.status))
        .collect();
    lines.sort_by(|x, y| x.0.cmp(&y.0));
    assert_eq!(
        lines,
        vec![
            (text("a"), text("web"), WorkloadStatus::Stopped),
            (text("b"), text("db"), WorkloadStatus::Running),
        ]
    );
    assert_eq!(agent.node_id, 1);
    assert_eq!(agent.master_url, "http://127.0.0.1:1");
}

#[test]
fn a_plain_workload_has_only_its_image() {
    let workload = spec(&text("web"));
    assert_eq!(workload.name, "web");
    assert_eq!(workload.image, Some(text("nginx:alpine")));
    assert_eq!(workload.replicas, orca_deploy::config::Replicas::Fixed(1));
    assert_eq!(
        workload.runtime,
        orca_deploy::config::RuntimeKind::Container
    );
    assert!(workload.routes.is_empty());
    assert!(workload.env.is_empty());
    assert!(workload.aliases.is_empty());
    assert!(workload.mounts.is_empty());
    assert!(workload.triggers.is_empty());
    assert!(!workload.internal);
}

#[test]
fn the_text_that_was_sent_is_read() {
    let frame = text_frame(text("{\"type\":\"status_ping\"}"));
    match next_message(Incoming::Frame(frame)) {
        ReadStep::Deliver(read) => assert_eq!(read, "{\"type\":\"status_ping\"}"),
        _ => panic!("expected the text"),
    }
}

#[test]
fn frames_without_a_message_are_passed_over() {
    let frames = vec![
        Frame::Ping(vec![1]),
        Frame::Pong(vec![]),
        Frame::Binary(vec![2, 3]),
        Frame::Close,
    ];
    for frame in frames {
        assert!(matches!(
            next_message(Incoming::Frame(frame)),
            ReadStep::KeepReading
        ));
    }
}

#[test]
fn a_connection_that_fails_or_ends_gives_no_message() {
    assert!(matches!(
        next_message(Incoming::Broken),
        ReadStep::Fail(ReadFault::Broken)
    ));
    assert!(matches!(
        next_message(Incoming::Ended),
        ReadStep::Fail(ReadFault::Ended)
    ));
}

#[test]
fn the_first_text_of_a_series_is_delivered() {
    let reads = vec![
        Incoming::Frame(Frame::Ping(vec![])),
        Incoming::Frame(Frame::Binary(vec![9])),
        Incoming::Frame(Frame::Text(text("first"))),
        Incoming::Frame(Frame::Text(text("second"))),
        Incoming::Ended,
    ];
    let mut passed_over = 0;
    for read in reads {
        match next_message(read) {
            ReadStep::KeepReading => passed_over += 1,
            ReadStep::Deliver(read) => {
                assert_eq!(read, "first");
                assert_eq!(passed_over, 2);
                return;
            }
            ReadStep::Fail(_) => panic!("the text comes before the end"),
        }
    }
    panic!("nothing was delivered");
}

#[test]
fn receipts_keep_their_order_among_heartbeats() {
    let mut session = Session::new();
    session.beat();
    session.receive(deploy("a"));
    session.beat();
    session.finish_report(Vec::new());
    session.receive(deploy("b"));
    session.finish_deploy(text("a"), Ok(()));
    session.beat();
    let written = session.take_outbox();
    assert_eq!(written.len(), 7);
    assert!(matches!(written[0], AgentMessage::Heartbeat));
    assert!(matches!(written[2], AgentMessage::Heartbeat));
    assert!(matches!(written[6], AgentMessage::Heartbeat));
    let receipts: Vec<&str> = written
        .iter()
        .filter_map(|message| match message {
            AgentMessage::DeployReceived { service_name } => Some(service_name.as_str()),
            _ => None,
        })
        .collect();
    assert_eq!(receipts, vec!["a", "b"]);
}

#[test]
fn every_text_is_delivered_once_and_in_order() {
    let reads = vec![
        Incoming::Frame(Frame::Text(text("one"))),
        Incoming::Frame(Frame::Pong(vec![])),
        Incoming::Frame(Frame::Text(text("two"))),
        Incoming::Frame(Frame::Text(text("two"))),
        Incoming::Broken,
        Incoming::Frame(Frame::Text(text("lost"))),
    ];
    let mut delivered = Vec::new();
    for read in reads {
        match next_message(read) {
            ReadStep::KeepReading => {}
            ReadStep::Deliver(read) => delivered.push(read),
            ReadStep::Fail(fault) => {
                assert_eq!(fault, ReadFault::Broken);
                break;
            }
        }
    }
    assert_eq!(delivered, vec![text("one"), text("two"), text("two")]);
}
