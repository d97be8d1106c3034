//! Names, numbers, nodes and configurations.

use orca_deploy::config::{config_placed_on, DeployConfig, Replicas, RuntimeKind};
use orca_deploy::decimal::{decimal_text, parse_node_id};
use orca_deploy::names::NameMap;
use orca_deploy::nodes::{has_expired, RegisteredNode};
use orca_deploy::services::remote_runtime_id;
use orca_deploy::workload::workload_spec;

fn text(value: &str) -> String {
    value.to_string()
}

#[test]
fn numbers_are_written_in_decimal() {
    assert_eq!(decimal_text(0), "0");
    assert_eq!(decimal_text(9), "9");
    assert_eq!(decimal_text(10), "10");
    assert_eq!(decimal_text(1203), "1203");
    assert_eq!(decimal_text(u64::MAX), "18446744073709551615");
}

#[test]
fn node_labels_are_read_back() {
    for id in [0, 1, 42, u64::MAX] {
        assert_eq!(parse_node_id(&decimal_text(id)), Some(id));
    }
    assert_eq!(parse_node_id(&text("007")), Some(7));
    assert_eq!(parse_node_id(&text("")), None);
    assert_eq!(parse_node_id(&text("1a")), None);
    assert_eq!(parse_node_id(&text("-1")), None);
    assert_eq!(parse_node_id(&text("18446744073709551616")), None);
    assert_eq!(parse_node_id(&text("99999999999999999999999")), None);
}

#[test]
fn placeholders_of_different_nodes_differ() {
    assert_eq!(remote_runtime_id(1), "remote-1");
    assert_eq!(remote_runtime_id(11), "remote-11");
}

#[test]
fn a_name_map_keeps_one_value_for_each_name() {
    let mut map: NameMap<u64> = NameMap::new();
    assert!(map.is_empty());
    map.insert(text("a"), 1);
    map.insert(text("b"), 2);
    map.insert(text("a"), 3);
    assert!(!map.is_empty());
    assert_eq!(map.get(&text("a")), Some(&3));
    assert_eq!(map.get(&text("c")), None);
    assert!(map.contains_key(&text("b")));
    assert_eq!(map.remove(&text("a")), Some(3));
    assert_eq!(map.remove(&text("a")), None);
    assert!(!map.contains_key(&text("a")));
    assert_eq!(map.into_entries(), vec![(text("b"), 2)]);
}

#[test]
fn the_order_of_insertion_makes_no_difference() {
    let mut one: NameMap<String> = NameMap::new();
    one.insert(text("a"), text("1"));
    one.insert(text("b"), text("2"));
    let mut other: NameMap<String> = NameMap::new();
    other.insert(text("b"), text("2"));
    assert!(!one.same_as(&other));
    assert!(!other.same_as(&one));
    other.insert(text("a"), text("0"));
    assert!(!one.same_as(&other));
    other.insert(text("a"), text("1"));
    assert!(one.same_as(&other));
    assert!(one.copy().same_as(&other));
}

#[test]
fn a_pinned_service_has_nothing_else_configured() {
    let config = config_placed_on(&text("svc"), &text("1"));
    assert_eq!(config.name, "svc");
    assert_eq!(config.runtime, RuntimeKind::Container);
    assert_eq!(config.image, Some(text("nginx:latest")));
    assert_eq!(config.replicas, Replicas::Fixed(1));
    assert_eq!(config.port, Some(8080));
    assert_eq!(config.host_port, None);
    assert!(config.env.is_empty());
    assert!(!config.internal);
    let placement = config.placement.as_ref().expect("placement");
    assert_eq!(placement.node, Some(text("1")));
    assert!(placement.labels.is_none());
    assert_eq!(placement.requires_gpu, None);

    let workload = workload_spec(&config);
    assert_eq!(workload.name, "svc");
    assert_eq!(workload.image, Some(text("nginx:latest")));
}

#[test]
fn every_change_of_a_configuration_is_seen() {
    let config = config_placed_on(&text("svc"), &text("1"));
    assert!(config.same_as(&config.copy()));
    let mut changed = config.copy();
    changed.port = None;
    assert!(!config.same_as(&changed));
    let mut changed = config.copy();
    changed.cmd.push(text("serve"));
    assert!(!config.same_as(&changed));
    let mut changed = config.copy();
    changed.backup = Some(text("daily"));
    assert!(!config.same_as(&changed));
    let mut changed = config.copy();
    changed.replicas = Replicas::Fixed(2);
    assert!(!config.same_as(&changed));
    let mut changed = config.copy();
    changed.placement = None;
    assert!(!config.same_as(&changed));
    assert!(!config.same_as(&config_placed_on(&text("svc"), &text("2"))));
}

#[test]
fn the_usual_limits_are_ten_seconds_and_ten_minutes() {
    let limits = DeployConfig::with_idle_timeout(45);
    assert_eq!(limits.ack_timeout_secs, 10);
    assert_eq!(limits.completion_timeout_secs, 600);
    assert_eq!(limits.ws_idle_timeout_secs, 45);
}

#[test]
fn a_fresh_node_has_an_address() {
    let node = RegisteredNode::fresh(12, 5);
    assert_eq!(node.node_id, 12);
    assert_eq!(node.address, "node-12:6881");
    assert_eq!(node.last_heartbeat, 5);
    assert!(!node.drain);
    assert!(node.is_quiet(1006, 1));
    assert!(!node.is_quiet(1005, 1));
}

#[test]
fn limits_run_out_to_the_millisecond() {
    assert!(!has_expired(100, 1099, 1));
    assert!(has_expired(100, 1100, 1));
    assert!(!has_expired(i64::MIN, i64::MAX, u64::MAX));
    assert!(!has_expired(100, 0, 0));
    assert!(has_expired(0, 0, 0));
}
