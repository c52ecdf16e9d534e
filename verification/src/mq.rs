//! The queue of tasks that a node hands from its HTTP server to the worker
//! that joins it to a cluster, and what that worker asks of the cluster.

use vstd::prelude::*;

use crossbeam_channel::SendError;

use crate::decimal::{
    all_digits, decimal, digits_value, law_decimal_no_leading_zero, law_decimal_round_trip,
    push_decimal,
};
use crate::NodeId;

verus! {

/// A task for the worker of a node.
#[derive(Debug, Clone)]
pub enum MqTask {
    /// Bring the node that has just started into a cluster: join the cluster
    /// of the leader at `leader_http_addr`, or start a cluster of its own.
    InitNodeReq {
        node_id: NodeId,
        http_addr: String,
        rpc_addr: String,
        leader_http_addr: Option<String>,
    },
}

#[verifier::external_type_specification]
#[verifier::external_body]
#[verifier::reject_recursive_types(T)]
pub struct ExSendError<T>(SendError<T>);

#[verifier::external_type_specification]
#[verifier::external_body]
#[verifier::reject_recursive_types(T)]
pub struct ExSender<T>(crossbeam_channel::Sender<T>);

#[verifier::external_type_specification]
#[verifier::external_body]
#[verifier::reject_recursive_types(T)]
pub struct ExReceiver<T>(crossbeam_channel::Receiver<T>);

/// The messages waiting in the channel that `receiver` receives from, oldest
/// first.
pub uninterp spec fn channel_contents(receiver: crossbeam_channel::Receiver<MqTask>) -> Seq<MqTask>;

/// A first-in first-out queue of tasks: the sending and the receiving end of
/// one unbounded crossbeam channel, both held here and never handed out, so
/// that the channel stays connected while the queue lives and nothing else
/// sends to it or receives from it.
pub struct TaskQueue {
    sender: crossbeam_channel::Sender<MqTask>,
    receiver: crossbeam_channel::Receiver<MqTask>,
}

/// The tasks waiting in the queue, oldest first.
pub closed spec fn queued_tasks(queue: TaskQueue) -> Seq<MqTask> {
    channel_contents(queue.receiver)
}

/// Calls `crossbeam_channel::unbounded`: a new channel holds no message.
#[verifier::external_body]
fn open_channel() -> (ends: (crossbeam_channel::Sender<MqTask>, crossbeam_channel::Receiver<MqTask>))
    ensures
        channel_contents(ends.1) == Seq::<MqTask>::empty(),
{
    crossbeam_channel::unbounded()
}

/// Calls `Sender::send` on the queue's channel.  Sending fails only on a
/// disconnected channel, that is one whose receivers or senders are all
/// dropped; the queue holds one of each, so the message is appended.
#[verifier::external_body]
fn channel_send(queue: &mut TaskQueue, task: MqTask) -> (res: Result<(), SendError<MqTask>>)
    ensures
        res is Ok,
        channel_contents(final(queue).receiver) == channel_contents(old(queue).receiver).push(task),
{
    queue.sender.send(task)
}

/// Calls `Receiver::try_recv` on the queue's channel: the oldest message if
/// there is one, nothing otherwise (the channel stays connected, see
/// `channel_send`).
#[verifier::external_body]
fn channel_try_recv(queue: &mut TaskQueue) -> (res: Option<MqTask>)
    ensures
        channel_contents(old(queue).receiver).len() == 0 ==> {
            &&& res is None
            &&& channel_contents(final(queue).receiver) == channel_contents(old(queue).receiver)
        },
        channel_contents(old(queue).receiver).len() > 0 ==> {
            &&& res == Some(channel_contents(old(queue).receiver)[0])
            &&& channel_contents(final(queue).receiver) == channel_contents(
                old(queue).receiver,
            ).drop_first()
        },
{
    queue.receiver.try_recv().ok()
}

impl TaskQueue {
    /// An empty queue.
    pub fn new() -> (queue: TaskQueue)
        ensures
            queued_tasks(queue) == Seq::<MqTask>::empty(),
    {
        let (sender, receiver) = open_channel();
        TaskQueue { sender, receiver }
    }
}

/// Puts `task` at the end of the queue.  It always succeeds.
pub fn send_task(queue: &mut TaskQueue, task: MqTask) -> (res: Result<(), SendError<MqTask>>)
    ensures
        res is Ok,
        queued_tasks(*final(queue)) == queued_tasks(*old(queue)).push(task),
{
    channel_send(queue, task)
}

/// Takes the oldest task out of the queue, if there is one.
pub fn receive_task(queue: &mut TaskQueue) -> (res: Option<MqTask>)
    ensures
        queued_tasks(*old(queue)).len() == 0 ==> {
            &&& res is None
            &&& queued_tasks(*final(queue)) == queued_tasks(*old(queue))
        },
        queued_tasks(*old(queue)).len() > 0 ==> {
            &&& res == Some(queued_tasks(*old(queue))[0])
            &&& queued_tasks(*final(queue)) == queued_tasks(*old(queue)).drop_first()
        },
{
    channel_try_recv(queue)
}

/// Tasks leave the queue in the order they were sent: a task sent to a queue
/// holding `waiting` is taken out after all of `waiting`, and sending does not
/// change which task is taken out next.
pub proof fn law_first_in_first_out(waiting: Seq<MqTask>, task: MqTask)
    ensures
        waiting.len() == 0 ==> waiting.push(task)[0] == task && waiting.push(task).drop_first()
            =~= waiting,
        waiting.len() > 0 ==> waiting.push(task)[0] == waiting[0] && waiting.push(task).drop_first()
            =~= waiting.drop_first().push(task),
{
}

/// A POST request that the worker sends to a node of the cluster.
#[derive(Debug, Clone)]
pub struct ClusterCall {
    pub url: String,
    pub body: Option<String>,
}

/// The URL of `path` on the HTTP server at `addr`.
pub open spec fn cluster_url(addr: Seq<char>, path: Seq<char>) -> Seq<char> {
    "http://"@ + addr + path
}

/// The body that names a learner: `[<node_id>, "<http_addr>", "<rpc_addr>"]`.
pub open spec fn learner_body(node_id: NodeId, http_addr: Seq<char>, rpc_addr: Seq<char>) -> Seq<
    char,
> {
    "["@ + decimal(node_id as nat) + ", \""@ + http_addr + "\", \""@ + rpc_addr + "\"]"@
}

/// A cluster URL holds the whole address it was made for: it is "http://",
/// then every character of the address, unchanged and uncut, then the path.
pub proof fn law_url_carries_whole_address(addr: Seq<char>, path: Seq<char>)
    ensures
        ({
            let u = cluster_url(addr, path);
            let a: int = addr.len() as int;
            let p: int = path.len() as int;
            &&& u.len() == 7 + a + p
            &&& u.subrange(0, 7) == "http://"@
            &&& u.subrange(7, 7 + a) == addr
            &&& u.subrange(7 + a, 7 + a + p) == path
        }),
{
    reveal_strlit("http://");
    let u = cluster_url(addr, path);
    let a: int = addr.len() as int;
    let p: int = path.len() as int;
    assert(u.subrange(0, 7) =~= "http://"@);
    assert(u.subrange(7, 7 + a) =~= addr);
    assert(u.subrange(7 + a, 7 + a + p) =~= path);
}

/// The learner body carries the node whole: after "[" come the digits of the
/// node id, which read back as the id and start with no '0' unless the id is
/// zero; then `, "`, every character of the HTTP address, `", "`, every
/// character of the RPC address, and `"]`, with nothing cut or changed.
pub proof fn law_learner_body_carries_node(node_id: NodeId, http_addr: Seq<char>, rpc_addr: Seq<char>)
    ensures
        ({
            let b = learner_body(node_id, http_addr, rpc_addr);
            let d: int = b.len() - http_addr.len() - rpc_addr.len() - 10;
            &&& d >= 1
            &&& b[0] == '['
            &&& digits_value(b.subrange(1, 1 + d)) == node_id
            &&& all_digits(b.subrange(1, 1 + d))
            &&& (d > 1 ==> b[1] != '0')
            &&& b.subrange(1 + d, 4 + d) == ", \""@
            &&& b.subrange(4 + d, 4 + d + http_addr.len() as int) == http_addr
            &&& b.subrange(4 + d + http_addr.len(), 8 + d + http_addr.len()) == "\", \""@
            &&& b.subrange(8 + d + http_addr.len(), 8 + d + http_addr.len() + rpc_addr.len())
                == rpc_addr
            &&& b.subrange(8 + d + http_addr.len() + rpc_addr.len(), b.len() as int) == "\"]"@
        }),
{
    reveal_strlit("[");
    reveal_strlit(", \"");
    reveal_strlit("\", \"");
    reveal_strlit("\"]");
    law_decimal_round_trip(node_id as nat);
    law_decimal_no_leading_zero(node_id as nat);
    let dec = decimal(node_id as nat);
    let b = learner_body(node_id, http_addr, rpc_addr);
    let d = dec.len() as int;
    let h = http_addr.len() as int;
    let r = rpc_addr.len() as int;
    assert(b.len() == d + h + r + 10);
    assert(b.subrange(1, 1 + d) =~= dec);
    assert(b.subrange(1 + d, 4 + d) =~= ", \""@);
    assert(b.subrange(4 + d, 4 + d + h) =~= http_addr);
    assert(b.subrange(4 + d + h, 8 + d + h) =~= "\", \""@);
    assert(b.subrange(8 + d + h, 8 + d + h + r) =~= rpc_addr);
    assert(b.subrange(8 + d + h + r, b.len() as int) =~= "\"]"@);
    assert(b[1] == dec[0]);
}

/// `call` posts `body` to `url`.
pub open spec fn call_is(call: ClusterCall, url: Seq<char>, body: Option<Seq<char>>) -> bool {
    &&& call.url@ == url
    &&& match (call.body, body) {
        (Some(b), Some(e)) => b@ == e,
        (None, None) => true,
        _ => false,
    }
}

/// The URL of `path` on the HTTP server at `addr`.
fn url_of(addr: &String, path: &str) -> (url: String)
    ensures
        url@ == cluster_url(addr@, path@),
{
    let mut url = String::from_str("http://");
    url.append(addr.as_str());
    url.append(path);
    url
}

/// The requests with which the worker carries out `task`, in order.  A node
/// that knows a leader asks it to add the node as a learner (naming the node
/// by its id and addresses), then to change the membership to every node it
/// has registered; a node that knows no leader asks its own server to
/// initialize a cluster of one.
pub fn join_requests(task: &MqTask) -> (calls: Vec<ClusterCall>)
    ensures
        match task {
            MqTask::InitNodeReq { node_id, http_addr, rpc_addr, leader_http_addr } => match leader_http_addr {
                Some(leader) => {
                    &&& calls@.len() == 2
                    &&& call_is(
                        calls@[0],
                        cluster_url(leader@, "/cluster/add-learner"@),
                        Some(learner_body(*node_id, http_addr@, rpc_addr@)),
                    )
                    &&& call_is(calls@[1], cluster_url(leader@, "/cluster/change-membership"@), None)
                },
                None => {
                    &&& calls@.len() == 1
                    &&& call_is(calls@[0], cluster_url(http_addr@, "/cluster/init"@), Some("{}"@))
                },
            },
        },
{
    let mut calls = Vec::new();
    match task {
        MqTask::InitNodeReq { node_id, http_addr, rpc_addr, leader_http_addr } => match leader_http_addr {
            Some(leader) => {
                let mut body = String::from_str("[");
                push_decimal(&mut body, *node_id);
                body.append(", \"");
                body.append(http_addr.as_str());
                body.append("\", \"");
                body.append(rpc_addr.as_str());
                body.append("\"]");
                assert(body@ =~= learner_body(*node_id, http_addr@, rpc_addr@));
                calls.push(ClusterCall { url: url_of(leader, "/cluster/add-learner"), body: Some(body) });
                calls.push(ClusterCall { url: url_of(leader, "/cluster/change-membership"), body: None });
            },
            None => {
                calls.push(
                    ClusterCall {
                        url: url_of(http_addr, "/cluster/init"),
                        body: Some(String::from_str("{}")),
                    },
                );
            },
        },
    }
    calls
}

} // verus!
