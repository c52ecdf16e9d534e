use std::collections::BTreeSet;

use raft_demo3::app::{initial_nodes, HttpServerApp};
use raft_demo3::mq::{join_requests, receive_task, send_task, MqTask, TaskQueue};
use raft_demo3::network::err::AppError;
use raft_demo3::network::management::{
    add_learner, change_membership, init, register_learner, rest, ManagementEndpoint,
};
use raft_demo3::network::HttpMethod;

fn server() -> HttpServerApp {
    HttpServerApp::new(1, "127.0.0.1:21001".to_string(), "127.0.0.1:22001".to_string())
}

#[test]
fn new_node_knows_only_itself() {
    let app = server();
    assert_eq!(app.id, 1);
    assert_eq!(app.api_addr, "127.0.0.1:21001");
    assert_eq!(app.rpc_addr, "127.0.0.1:22001");
    assert_eq!(app.nodes, BTreeSet::from([1]));
    assert_eq!(initial_nodes(7), BTreeSet::from([7]));
}

#[test]
fn add_learner_registers_the_node() {
    let mut app = server();
    let (id, node) = add_learner(b"[2, \"127.0.0.1:21002\", \"127.0.0.1:22002\"]", &mut app).unwrap();
    assert_eq!(id, 2);
    assert_eq!(node.api_addr, "127.0.0.1:21002");
    assert_eq!(node.rpc_addr, "127.0.0.1:22002");
    assert_eq!(app.nodes, BTreeSet::from([1, 2]));
    add_learner(b"[3, \"a\", \"b\"]", &mut app).unwrap();
    add_learner(b"[2, \"127.0.0.1:21002\", \"127.0.0.1:22002\"]", &mut app).unwrap();
    assert_eq!(change_membership(&app), BTreeSet::from([1, 2, 3]));
}

#[test]
fn add_learner_refuses_a_malformed_body() {
    let mut app = server();
    for body in [&b"{}"[..], b"[2, \"a\"]", b"[\"2\", \"a\", \"b\"]", b"[-1, \"a\", \"b\"]", b"oops"] {
        match add_learner(body, &mut app) {
            Err(AppError::Anyhow { message, cause }) => {
                assert_eq!(message, "deserialize json failed");
                assert!(cause.is_some());
            }
            other => panic!("unexpected {:?}", other),
        }
    }
    assert_eq!(app.nodes, BTreeSet::from([1]));
}

#[test]
fn register_learner_cases() {
    let mut app = server();
    let (id, node) =
        register_learner(Ok((5, "api".to_string(), "rpc".to_string())), &mut app).unwrap();
    assert_eq!((id, node.api_addr.as_str(), node.rpc_addr.as_str()), (5, "api", "rpc"));
    match register_learner(Err("trailing characters".to_string()), &mut app) {
        Err(AppError::Anyhow { message, cause }) => {
            assert_eq!(message, "deserialize json failed");
            assert_eq!(cause.as_deref(), Some("trailing characters"));
        }
        other => panic!("unexpected {:?}", other),
    }
    assert_eq!(app.nodes, BTreeSet::from([1, 5]));
}

#[test]
fn init_names_this_node_alone() {
    let app = server();
    let members = init(&app);
    assert_eq!(members.len(), 1);
    let node = &members[&1];
    assert_eq!(node.api_addr, "127.0.0.1:21001");
    assert_eq!(node.rpc_addr, "127.0.0.1:22001");
}

#[test]
fn management_routes() {
    let routes = rest();
    let expected = [
        (HttpMethod::Post, "/cluster/add-learner", ManagementEndpoint::AddLearner),
        (HttpMethod::Post, "/cluster/change-membership", ManagementEndpoint::ChangeMembership),
        (HttpMethod::Post, "/cluster/init", ManagementEndpoint::Init),
        (HttpMethod::Get, "/cluster/metrics", ManagementEndpoint::Metrics),
    ];
    assert_eq!(routes.len(), expected.len());
    for (r, (method, path, endpoint)) in routes.iter().zip(expected.iter()) {
        assert_eq!(r.method, *method);
        assert_eq!(r.path, *path);
        assert_eq!(r.endpoint, *endpoint);
    }
}

fn task(id: u64, leader: Option<&str>) -> MqTask {
    MqTask::InitNodeReq {
        node_id: id,
        http_addr: format!("127.0.0.1:2100{}", id),
        rpc_addr: format!("127.0.0.1:2200{}", id),
        leader_http_addr: leader.map(|s| s.to_string()),
    }
}

fn node_of(t: &MqTask) -> u64 {
    match t {
        MqTask::InitNodeReq { node_id, .. } => *node_id,
    }
}

#[test]
fn queue_is_first_in_first_out() {
    let mut q = TaskQueue::new();
    assert!(receive_task(&mut q).is_none());
    assert!(send_task(&mut q, task(1, None)).is_ok());
    assert!(send_task(&mut q, task(2, Some("127.0.0.1:21001"))).is_ok());
    assert_eq!(node_of(&receive_task(&mut q).unwrap()), 1);
    assert!(send_task(&mut q, task(3, Some("127.0.0.1:21001"))).is_ok());
    assert_eq!(node_of(&receive_task(&mut q).unwrap()), 2);
    assert_eq!(node_of(&receive_task(&mut q).unwrap()), 3);
    assert!(receive_task(&mut q).is_none());
}

#[test]
fn node_without_leader_initializes_its_own_cluster() {
    let calls = join_requests(&task(1, None));
    assert_eq!(calls.len(), 1);
    assert_eq!(calls[0].url, "http://127.0.0.1:21001/cluster/init");
    assert_eq!(calls[0].body.as_deref(), Some("{}"));
}

#[test]
fn node_with_leader_joins_as_learner_then_member() {
    let calls = join_requests(&task(2, Some("127.0.0.1:21001")));
    assert_eq!(calls.len(), 2);
    assert_eq!(calls[0].url, "http://127.0.0.1:21001/cluster/add-learner");
    assert_eq!(
        calls[0].body.as_deref(),
        Some("[2, \"127.0.0.1:21002\", \"127.0.0.1:22002\"]")
    );
    assert_eq!(calls[1].url, "http://127.0.0.1:21001/cluster/change-membership");
    assert_eq!(calls[1].body, None);
}

#[test]
fn learner_body_is_read_back_by_add_learner() {
    let calls = join_requests(&task(2, Some("127.0.0.1:21001")));
    let mut leader = server();
    let (id, node) = add_learner(calls[0].body.as_ref().unwrap().as_bytes(), &mut leader).unwrap();
    assert_eq!(id, 2);
    assert_eq!(node.api_addr, "127.0.0.1:21002");
    assert_eq!(node.rpc_addr, "127.0.0.1:22002");
}
