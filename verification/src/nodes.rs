//! The nodes of the cluster.

use vstd::prelude::*;
use crate::decimal::decimal;
use crate::decimal::decimal_text;
use crate::names::NameMap;
use crate::text::opt_text;

verus! {

/// A node that has registered with the master.
pub struct RegisteredNode {
    /// The address that the node connects from.
    pub peer_ip: Option<String>,
    /// The node's id.
    pub node_id: u64,
    /// The address of the node's agent.
    pub address: String,
    /// The node's labels.
    pub labels: NameMap<String>,
    /// When the node's agent was last heard of, in milliseconds.
    pub last_heartbeat: i64,
    /// Whether the node is being emptied.
    pub drain: bool,
    /// The memory in use.
    pub memory_bytes: u64,
    /// The memory that there is.
    pub memory_total: u64,
    /// The disk space in use.
    pub disk_used: u64,
    /// The disk space that there is.
    pub disk_total: u64,
    /// The bytes received.
    pub net_rx: u64,
    /// The bytes sent.
    pub net_tx: u64,
}

/// A node by its texts.
#[verifier::ext_equal]
pub struct NodeView {
    pub peer_ip: Option<Seq<char>>,
    pub node_id: u64,
    pub address: Seq<char>,
    pub labels: Map<Seq<char>, Seq<char>>,
    pub last_heartbeat: i64,
    pub drain: bool,
    pub memory_bytes: u64,
    pub memory_total: u64,
    pub disk_used: u64,
    pub disk_total: u64,
    pub net_rx: u64,
    pub net_tx: u64,
}

impl View for RegisteredNode {
    type V = NodeView;

    open spec fn view(&self) -> NodeView {
        NodeView {
            peer_ip: opt_text(self.peer_ip),
            node_id: self.node_id,
            address: self.address@,
            labels: self.labels@,
            last_heartbeat: self.last_heartbeat,
            drain: self.drain,
            memory_bytes: self.memory_bytes,
            memory_total: self.memory_total,
            disk_used: self.disk_used,
            disk_total: self.disk_total,
            net_rx: self.net_rx,
            net_tx: self.net_tx,
        }
    }
}

/// A node of which nothing is known but its id and that it is alive now.
pub open spec fn fresh_node(node_id: u64, now: i64) -> NodeView {
    NodeView {
        peer_ip: None,
        node_id,
        address: "node-"@ + decimal(node_id as nat) + ":6881"@,
        labels: Map::empty(),
        last_heartbeat: now,
        drain: false,
        memory_bytes: 0,
        memory_total: 0,
        disk_used: 0,
        disk_total: 0,
        net_rx: 0,
        net_tx: 0,
    }
}

impl RegisteredNode {
    /// A node of which nothing is known but its id and that it is alive now.
    pub fn fresh(node_id: u64, now: i64) -> (node: RegisteredNode)
        ensures
            node@ == fresh_node(node_id, now),
    {
        let digits: String = decimal_text(node_id);
        RegisteredNode {
            peer_ip: None,
            node_id,
            address: String::from_str("node-").concat(digits.as_str()).concat(":6881"),
            labels: NameMap::new(),
            last_heartbeat: now,
            drain: false,
            memory_bytes: 0,
            memory_total: 0,
            disk_used: 0,
            disk_total: 0,
            net_rx: 0,
            net_tx: 0,
        }
    }
}

/// Whether a time limit in seconds, counted from `since`, has run out by `now`. Both are in
/// milliseconds.
pub open spec fn expired(since: i64, now: i64, limit_secs: u64) -> bool {
    now - since >= 1000 * limit_secs
}

/// Whether a time limit has run out.
pub fn has_expired(since: i64, now: i64, limit_secs: u64) -> (out: bool)
    ensures
        out == expired(since, now, limit_secs),
{
    (now as i128) - (since as i128) >= 1000 * (limit_secs as i128)
}

impl NodeView {
    /// Whether the node's agent has gone longer without a heartbeat than it may.
    pub open spec fn quiet(self, now: i64, idle_secs: u64) -> bool {
        now - self.last_heartbeat > 1000 * idle_secs
    }
}

impl RegisteredNode {
    /// Whether the node's agent has gone longer without a heartbeat than it may.
    pub fn is_quiet(&self, now: i64, idle_secs: u64) -> (quiet: bool)
        ensures
            quiet == self@.quiet(now, idle_secs),
    {
        (now as i128) - (self.last_heartbeat as i128) > 1000 * (idle_secs as i128)
    }
}

} // verus!
