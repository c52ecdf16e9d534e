use raft_demo3::decimal::to_decimal_string;
use raft_demo3::{db_dir, raft_settings, Node, RaftSettings};

#[test]
fn decimal_renders_like_display() {
    assert_eq!(to_decimal_string(0), "0");
    assert_eq!(to_decimal_string(7), "7");
    assert_eq!(to_decimal_string(10), "10");
    assert_eq!(to_decimal_string(1234567890), "1234567890");
    assert_eq!(to_decimal_string(u64::MAX), u64::MAX.to_string());
}

#[test]
fn decimal_round_trip_on_values() {
    for n in [0u64, 9, 10, 99, 100, 65535, 4294967296, u64::MAX] {
        assert_eq!(to_decimal_string(n).parse::<u64>().unwrap(), n);
    }
}

#[test]
fn node_text_form() {
    let node = Node { rpc_addr: "127.0.0.1:22001".to_string(), api_addr: "127.0.0.1:21001".to_string() };
    assert_eq!(node.to_string(), "Node { rpc_addr: 127.0.0.1:22001, api_addr: 127.0.0.1:21001 }");
    let empty = Node::default();
    assert_eq!(empty.to_string(), "Node { rpc_addr: , api_addr:  }");
}

#[test]
fn data_directory_is_named_after_the_node() {
    assert_eq!(db_dir(1), "1-db");
    assert_eq!(db_dir(0), "0-db");
    assert_eq!(db_dir(42), "42-db");
}

#[test]
fn raft_settings_are_the_chosen_timeouts() {
    let s = raft_settings();
    assert_eq!(
        s,
        RaftSettings {
            heartbeat_interval: 250,
            election_timeout_min: 299,
            election_timeout_max: 300,
            max_payload_entries: 300,
        }
    );
}

#[test]
fn raft_settings_are_accepted_by_openraft() {
    let s = raft_settings();
    let config = openraft::Config {
        heartbeat_interval: s.heartbeat_interval,
        election_timeout_min: s.election_timeout_min,
        election_timeout_max: s.election_timeout_max,
        max_payload_entries: s.max_payload_entries,
        ..Default::default()
    };
    assert!(config.validate().is_ok());
}
