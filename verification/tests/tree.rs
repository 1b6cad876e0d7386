use ferrokrait::chain::LayerId;
use ferrokrait::error::TreeError;
use ferrokrait::node::{Delta, Hook, Invocation, Node};
use ferrokrait::tree::{Candidate, NodeTree, Phase, Reply, Request};

const OBJECT: LayerId = LayerId(0);
const NODE: LayerId = LayerId(1);
const BASE: LayerId = LayerId(10);
const MID: LayerId = LayerId(11);
const A: LayerId = LayerId(12);
const B: LayerId = LayerId(20);

fn layer_name(layer: LayerId) -> &'static str {
    match layer.0 {
        10 => "Base",
        11 => "Mid",
        12 => "A",
        20 => "B",
        _ => "?",
    }
}

fn type_a() -> Candidate {
    Candidate { is_node: true, ancestors: vec![A, MID, BASE, NODE, OBJECT] }
}

fn type_b() -> Candidate {
    Candidate { is_node: true, ancestors: vec![B, NODE, OBJECT] }
}

/// What a run of the tree did, as a driver saw it.
struct Record {
    log: Vec<String>,
    calls: Vec<Invocation>,
    pacer: Vec<Option<u32>>,
    sleeps: usize,
    end: Option<TreeError>,
}

/// Drives a tree the way a host would: `keys[i]` is what the input source
/// says in iteration `i`, `deltas[i]` the elapsed time; after the last
/// iteration a cancellation request is there. The hook call number
/// `fail_at`, counted from zero, fails.
fn drive(
    tree: &mut NodeTree,
    rate: Option<u32>,
    keys: &[bool],
    deltas: &[u128],
    fail_at: Option<usize>,
) -> Record {
    let mut record =
        Record { log: Vec::new(), calls: Vec::new(), pacer: Vec::new(), sleeps: 0, end: None };
    let mut request = tree.run(rate).expect("an idle tree starts");
    let mut iteration = 0usize;
    let mut steps = 0usize;
    loop {
        steps += 1;
        assert!(steps < 100_000, "the driver must come to an end");
        assert_eq!(request, tree.pending());
        let reply = match request {
            Request::Idle => panic!("a started tree asks for something"),
            Request::Invoke(call) => {
                let hook = match call.hook {
                    Hook::Ready => "ready".to_string(),
                    Hook::Update(delta) => format!("update({})", delta.nanos),
                    Hook::KeyInput => "on_key_input".to_string(),
                };
                let done = record.calls.len();
                record.calls.push(call);
                if fail_at == Some(done) {
                    Reply::HookFailed
                } else {
                    record.log.push(format!("{}.{}", layer_name(call.layer), hook));
                    Reply::HookDone
                }
            }
            Request::ConfigurePacer(rate) => {
                record.pacer.push(rate);
                Reply::PacerConfigured
            }
            Request::StartIteration => {
                let delta = deltas.get(iteration).copied().unwrap_or(0);
                Reply::IterationStarted(Delta { nanos: delta })
            }
            Request::PollCancellation => Reply::CancellationPolled(iteration >= keys.len()),
            Request::PollInput => Reply::InputPolled(keys[iteration]),
            Request::EndIteration => {
                record.sleeps += 1;
                iteration += 1;
                Reply::IterationPaced
            }
            Request::Stop(cause) => {
                record.end = Some(cause);
                return record;
            }
        };
        request = tree.advance(reply);
    }
}

#[test]
fn new_tree_is_empty_and_idle() {
    let tree = NodeTree::new();
    assert_eq!(tree.len(), 0);
    assert!(!tree.is_running());
    assert_eq!(tree.phase(), Phase::Idle);
    assert_eq!(tree.pending(), Request::Idle);
    assert!(tree.get_from_id(0).is_none());
}

#[test]
fn registration_resolves_the_chain() {
    let tree = NodeTree::new().add_node(&type_a());
    assert_eq!(tree.len(), 1);
    let node = tree.get_from_id(0).unwrap();
    assert_eq!(node.behavior_chain(), &vec![BASE, MID, A]);
    assert_eq!(node.tree_index(), 0);
    assert!(tree.get_from_id(1).is_none());
}

#[test]
fn registration_chains_fluently_and_keeps_insertion_order() {
    let tree = NodeTree::new().add_node(&type_b()).add_node(&type_a()).add_node(&type_b());
    assert_eq!(tree.len(), 3);
    assert_eq!(tree.get_from_id(0).unwrap().behavior_chain(), &vec![B]);
    assert_eq!(tree.get_from_id(1).unwrap().behavior_chain(), &vec![BASE, MID, A]);
    assert_eq!(tree.get_from_id(2).unwrap().behavior_chain(), &vec![B]);
    assert_eq!(tree.get_from_id(2).unwrap().tree_index(), 2);
}

#[test]
fn product_without_node_capability_is_dropped() {
    let stranger = Candidate { is_node: false, ancestors: vec![A, MID, BASE, NODE, OBJECT] };
    let tree = NodeTree::new().add_node(&type_a());
    let before = tree.len();
    let tree = tree.add_node(&stranger);
    assert_eq!(tree.len(), before);
    assert_eq!(tree.get_from_id(0).unwrap().behavior_chain(), &vec![BASE, MID, A]);
    assert!(!tree.is_running());
}

#[test]
fn product_without_a_layer_of_its_own_is_dropped() {
    let bare = Candidate { is_node: true, ancestors: vec![NODE, OBJECT] };
    let unrelated = Candidate { is_node: true, ancestors: vec![] };
    let tree = NodeTree::new().add_node(&bare).add_node(&unrelated);
    assert_eq!(tree.len(), 0);
}

#[test]
fn ready_runs_base_to_derived_before_the_loop() {
    let mut tree = NodeTree::new().add_node(&type_a());
    let record = drive(&mut tree, None, &[false], &[5], None);
    assert_eq!(
        record.log[..3].to_vec(),
        vec!["Base.ready".to_string(), "Mid.ready".to_string(), "A.ready".to_string()]
    );
    let ready: Vec<&String> = record.log.iter().filter(|line| line.ends_with(".ready")).collect();
    assert_eq!(ready.len(), 3);
    let first_update = record.log.iter().position(|line| line.contains("update")).unwrap();
    assert_eq!(first_update, 3);
    assert_eq!(record.end, Some(TreeError::Cancelled));
}

#[test]
fn update_reaches_every_layer_once_with_one_delta() {
    let mut tree = NodeTree::new().add_node(&type_a()).add_node(&type_b());
    let record = drive(&mut tree, Some(60), &[false, false], &[16_000_000, 17_000_000], None);
    assert_eq!(
        record.log,
        vec![
            "Base.ready",
            "Mid.ready",
            "A.ready",
            "B.ready",
            "Base.update(16000000)",
            "Mid.update(16000000)",
            "A.update(16000000)",
            "B.update(16000000)",
            "Base.update(17000000)",
            "Mid.update(17000000)",
            "A.update(17000000)",
            "B.update(17000000)",
        ]
    );
    assert_eq!(record.calls[3], Invocation { hook: Hook::Ready, node: 1, layer: B });
    assert_eq!(
        record.calls[4],
        Invocation { hook: Hook::Update(Delta { nanos: 16_000_000 }), node: 0, layer: BASE }
    );
    assert_eq!(record.pacer, vec![Some(60)]);
    assert_eq!(record.sleeps, 2);
    assert_eq!(record.end, Some(TreeError::Cancelled));
}

#[test]
fn key_input_fires_only_in_iterations_with_a_key() {
    let mut tree = NodeTree::new().add_node(&type_b()).add_node(&type_b());
    let record = drive(&mut tree, None, &[false, true, false], &[1, 2, 3], None);
    assert_eq!(
        record.log,
        vec![
            "B.ready",
            "B.ready",
            "B.update(1)",
            "B.update(1)",
            "B.on_key_input",
            "B.on_key_input",
            "B.update(2)",
            "B.update(2)",
            "B.update(3)",
            "B.update(3)",
        ]
    );
    let keyed: Vec<usize> = record
        .calls
        .iter()
        .filter(|call| call.hook == Hook::KeyInput)
        .map(|call| call.node)
        .collect();
    assert_eq!(keyed, vec![0, 1]);
}

#[test]
fn ten_idle_iterations_fire_no_key_input() {
    let mut tree = NodeTree::new().add_node(&type_a()).add_node(&type_b());
    let record = drive(&mut tree, Some(60), &[false; 10], &[0; 10], None);
    let keyed = record.calls.iter().filter(|call| call.hook == Hook::KeyInput).count();
    assert_eq!(keyed, 0);
    let updates = record.calls.iter().filter(|call| matches!(call.hook, Hook::Update(_))).count();
    assert_eq!(updates, 10 * 4);
    assert_eq!(record.sleeps, 10);
}

#[test]
fn second_run_fails_and_changes_nothing() {
    let mut tree = NodeTree::new().add_node(&type_a());
    let first = tree.run(Some(30)).unwrap();
    assert_eq!(first, Request::Invoke(Invocation { hook: Hook::Ready, node: 0, layer: BASE }));
    assert!(tree.is_running());
    let next = tree.advance(Reply::HookDone);
    assert_eq!(next, Request::Invoke(Invocation { hook: Hook::Ready, node: 0, layer: MID }));
    let phase = tree.phase();
    assert_eq!(tree.run(None), Err(TreeError::AlreadyRunning));
    assert_eq!(tree.run(Some(5)), Err(TreeError::AlreadyRunning));
    assert_eq!(tree.phase(), phase);
    assert_eq!(tree.pending(), next);
    assert_eq!(tree.len(), 1);
    assert_eq!(tree.advance(Reply::HookDone), Request::Invoke(Invocation {
        hook: Hook::Ready,
        node: 0,
        layer: A,
    }));
    assert_eq!(tree.advance(Reply::HookDone), Request::ConfigurePacer(Some(30)));
}

#[test]
fn failing_ready_hook_stops_the_tree() {
    let mut tree = NodeTree::new().add_node(&type_a()).add_node(&type_b());
    let record = drive(&mut tree, None, &[true], &[1], Some(1));
    assert_eq!(record.log, vec!["Base.ready"]);
    assert_eq!(record.calls.len(), 2);
    assert!(record.pacer.is_empty());
    assert_eq!(record.end, Some(TreeError::DispatchFailure));
    assert_eq!(tree.phase(), Phase::Stopped { cause: TreeError::DispatchFailure });
    assert_eq!(tree.advance(Reply::HookDone), Request::Stop(TreeError::DispatchFailure));
    assert!(tree.is_running());
}

#[test]
fn failing_update_hook_stops_the_tree() {
    let mut tree = NodeTree::new().add_node(&type_a()).add_node(&type_b());
    let record = drive(&mut tree, None, &[false, false], &[1, 2], Some(5));
    assert_eq!(
        record.log,
        vec!["Base.ready", "Mid.ready", "A.ready", "B.ready", "Base.update(1)"]
    );
    assert_eq!(record.sleeps, 0);
    assert_eq!(record.end, Some(TreeError::DispatchFailure));
}

#[test]
fn failing_key_input_hook_stops_the_tree() {
    let mut tree = NodeTree::new().add_node(&type_b());
    let record = drive(&mut tree, None, &[true], &[1], Some(1));
    assert_eq!(record.log, vec!["B.ready"]);
    assert_eq!(record.calls[1].hook, Hook::KeyInput);
    assert_eq!(record.end, Some(TreeError::DispatchFailure));
}

#[test]
fn cancellation_is_seen_before_input_and_update() {
    let mut tree = NodeTree::new().add_node(&type_b());
    let record = drive(&mut tree, None, &[], &[9], None);
    assert_eq!(record.log, vec!["B.ready"]);
    assert_eq!(record.end, Some(TreeError::Cancelled));
    assert_eq!(tree.pending(), Request::Stop(TreeError::Cancelled));
}

#[test]
fn empty_tree_still_paces() {
    let mut tree = NodeTree::new();
    assert_eq!(tree.run(None), Ok(Request::ConfigurePacer(None)));
    assert_eq!(tree.advance(Reply::PacerConfigured), Request::StartIteration);
    assert_eq!(
        tree.advance(Reply::IterationStarted(Delta { nanos: 3 })),
        Request::PollCancellation
    );
    assert_eq!(tree.advance(Reply::CancellationPolled(false)), Request::PollInput);
    assert_eq!(tree.advance(Reply::InputPolled(true)), Request::EndIteration);
    assert_eq!(tree.advance(Reply::IterationPaced), Request::StartIteration);
}

#[test]
fn reply_that_answers_nothing_is_ignored() {
    let mut tree = NodeTree::new().add_node(&type_b());
    assert_eq!(tree.advance(Reply::HookDone), Request::Idle);
    assert!(!tree.is_running());
    let first = tree.run(None).unwrap();
    assert_eq!(tree.advance(Reply::IterationPaced), first);
    assert_eq!(tree.advance(Reply::InputPolled(true)), first);
    assert_eq!(tree.phase(), Phase::Readying { at: 0 });
}

#[test]
fn node_plans_follow_the_chain() {
    let tree = NodeTree::new().add_node(&type_b()).add_node(&type_a());
    let node = tree.get_from_id(1).unwrap();
    assert_eq!(
        node.ready_recursive(),
        vec![
            Invocation { hook: Hook::Ready, node: 1, layer: BASE },
            Invocation { hook: Hook::Ready, node: 1, layer: MID },
            Invocation { hook: Hook::Ready, node: 1, layer: A },
        ]
    );
    let delta = Delta { nanos: 250 };
    let updates = node.update_recursive(delta);
    assert_eq!(updates.len(), 3);
    assert!(updates.iter().all(|call| call.hook == Hook::Update(delta) && call.node == 1));
    assert_eq!(updates.iter().map(|call| call.layer).collect::<Vec<LayerId>>(), vec![BASE, MID, A]);
    let keyed = node.on_key_input_recursive();
    assert_eq!(keyed.iter().map(|call| call.layer).collect::<Vec<LayerId>>(), vec![BASE, MID, A]);
    assert!(keyed.iter().all(|call| call.hook == Hook::KeyInput));
}

#[test]
fn detached_node_is_inert() {
    let node = Node::new();
    assert!(node.behavior_chain().is_empty());
    assert_eq!(node.tree_index(), 0);
    assert!(node.ready_recursive().is_empty());
    assert!(node.update_recursive(Delta { nanos: 1 }).is_empty());
    assert!(node.on_key_input_recursive().is_empty());
    node.ready();
    node.update(Delta { nanos: 1 });
    node.on_key_input();
}

#[test]
fn stopped_tree_takes_nodes_but_never_runs_again() {
    let mut tree = NodeTree::new().add_node(&type_b());
    assert!(!tree.is_looping());
    let record = drive(&mut tree, None, &[], &[], None);
    assert_eq!(record.end, Some(TreeError::Cancelled));
    assert!(tree.is_running());
    assert!(!tree.is_looping());
    let mut tree = tree.add_node(&type_a());
    assert_eq!(tree.len(), 2);
    assert_eq!(tree.get_from_id(1).unwrap().tree_index(), 1);
    assert_eq!(tree.run(None), Err(TreeError::AlreadyRunning));
    assert_eq!(tree.pending(), Request::Stop(TreeError::Cancelled));
}

#[test]
fn default_tree_and_node_are_the_new_ones() {
    let tree = NodeTree::default();
    assert_eq!(tree.len(), 0);
    assert_eq!(tree.phase(), Phase::Idle);
    let node = Node::default();
    assert!(node.behavior_chain().is_empty());
}

#[test]
fn looping_is_told_from_running() {
    let mut tree = NodeTree::new().add_node(&type_b());
    assert!(!tree.is_looping());
    tree.run(Some(1)).unwrap();
    assert!(tree.is_looping());
    assert_eq!(tree.advance(Reply::HookFailed), Request::Stop(TreeError::DispatchFailure));
    assert!(!tree.is_looping());
    assert!(tree.is_running());
}
