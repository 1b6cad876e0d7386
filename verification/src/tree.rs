use crate::chain::{dispatch_chain, is_node_lineage, resolve_chain, LayerId};
use crate::error::TreeError;
use crate::node::{dispatch_plan, Delta, Hook, Invocation, Node, NodeView};
use crate::pacer::FramePacer;
use vstd::prelude::*;

verus! {

/// What a factory made, as the tree needs to know it.
#[derive(Clone, Debug)]
pub struct Candidate {
    /// Whether the product satisfies the node capability.
    pub is_node: bool,
    /// The ancestors of the product's type, from the type itself up to the
    /// universal root.
    pub ancestors: Vec<LayerId>,
}

/// Where a tree stands: what it has asked for last and is waiting to hear of.
#[derive(Clone, Copy, Debug, PartialEq, Eq, Structural)]
pub enum Phase {
    /// `run` has not been called.
    Idle,
    /// The `ready` call at position `at` of the dispatch order is under way.
    Readying { at: usize },
    /// The pacer is being set up.
    Configuring,
    /// The pacer has been asked for the elapsed time.
    Starting,
    /// The cancellation request is being looked for.
    Polling { delta: Delta },
    /// The input source is being asked whether any key is held.
    Sensing { delta: Delta },
    /// The `on_key_input` call at position `at` is under way.
    Notifying { delta: Delta, at: usize },
    /// The `update` call at position `at` is under way.
    Updating { delta: Delta, at: usize },
    /// The pacer is waiting out the rest of the iteration.
    Pacing,
    /// The loop has ended, and why.
    Stopped { cause: TreeError },
}

/// What the tree asks of whoever drives it.
#[derive(Clone, Copy, Debug, PartialEq, Eq, Structural)]
pub enum Request {
    /// Nothing: the tree has not been started.
    Idle,
    /// Call this hook, and report whether it failed.
    Invoke(Invocation),
    /// Set up the pacer for this target rate; `None` is uncapped.
    ConfigurePacer(Option<u32>),
    /// Ask the pacer for the time since the previous iteration started.
    StartIteration,
    /// Look for a cancellation request.
    PollCancellation,
    /// Ask the input source whether any key is held.
    PollInput,
    /// Let the pacer wait at the end of the iteration.
    EndIteration,
    /// Leave the loop: `run` ends with this.
    Stop(TreeError),
}

/// What the driver reports back.
#[derive(Clone, Copy, Debug, PartialEq, Eq, Structural)]
pub enum Reply {
    /// The hook returned.
    HookDone,
    /// The hook failed.
    HookFailed,
    /// The pacer is set up.
    PacerConfigured,
    /// An iteration has started, this long after the previous one.
    IterationStarted(Delta),
    /// Whether a cancellation request was there.
    CancellationPolled(bool),
    /// Whether any key was held.
    InputPolled(bool),
    /// The pacing wait is over.
    IterationPaced,
}

/// Every call that dispatching `hook` to a whole tree makes: the calls of the
/// first node, then those of the second, and so on in insertion order.
pub open spec fn tree_plan(hook: Hook, chains: Seq<Seq<LayerId>>) -> Seq<Invocation>
    decreases chains.len(),
{
    if chains.len() == 0 {
        Seq::empty()
    } else {
        tree_plan(hook, chains.drop_last()) + dispatch_plan(
            hook,
            (chains.len() - 1) as usize,
            chains.last(),
        )
    }
}

/// Registering one more node appends its calls to the tree's.
pub proof fn tree_plan_push(hook: Hook, chains: Seq<Seq<LayerId>>, chain: Seq<LayerId>)
    ensures
        tree_plan(hook, chains.push(chain)) == tree_plan(hook, chains) + dispatch_plan(
            hook,
            chains.len() as usize,
            chain,
        ),
{
    assert(chains.push(chain).drop_last() =~= chains);
}

/// The calls of two hooks differ in the hook alone: they go to the same
/// layers of the same nodes in the same order.
pub proof fn tree_plan_same_targets(first: Hook, second: Hook, chains: Seq<Seq<LayerId>>)
    ensures
        tree_plan(first, chains).len() == tree_plan(second, chains).len(),
        forall|k: int|
            0 <= k < tree_plan(first, chains).len() ==> #[trigger] tree_plan(second, chains)[k]
                == (Invocation { hook: second, ..tree_plan(first, chains)[k] }),
    decreases chains.len(),
{
    if chains.len() > 0 {
        tree_plan_same_targets(first, second, chains.drop_last());
    }
}

/// What a tree is, to a contract.
pub struct TreeModel {
    /// The chains of the registered nodes, in insertion order.
    pub chains: Seq<Seq<LayerId>>,
    /// Where the tree stands.
    pub phase: Phase,
    /// The target rate that `run` was given.
    pub target_rate: Option<u32>,
}

impl TreeModel {
    /// The number of hook calls that one dispatch to the whole tree makes.
    pub open spec fn size(self) -> nat {
        tree_plan(Hook::Ready, self.chains).len()
    }

    /// The run loop is active, or has been.
    pub open spec fn is_running(self) -> bool {
        self.phase != Phase::Idle
    }

    /// The run loop is active now: it has begun and has not ended.
    pub open spec fn is_looping(self) -> bool {
        self.phase != Phase::Idle && !(self.phase is Stopped)
    }

    /// The nodes and their calls can be counted by the machine, a target rate
    /// is positive, every registered node has at least one behavior layer,
    /// and a call under way is one of the dispatch order.
    pub open spec fn valid(self) -> bool {
        &&& self.chains.len() <= usize::MAX
        &&& self.size() <= usize::MAX
        &&& self.target_rate != Some(0u32)
        &&& forall|i: int| 0 <= i < self.chains.len() ==> (#[trigger] self.chains[i]).len() >= 1
        &&& self.phase matches Phase::Readying { at } ==> at < self.size()
        &&& self.phase matches Phase::Notifying { at, .. } ==> at < self.size()
        &&& self.phase matches Phase::Updating { at, .. } ==> at < self.size()
    }

    /// The phase in which the `update` calls begin, or what follows them
    /// where there is none to make.
    pub open spec fn updating(self, delta: Delta) -> Phase {
        if self.size() > 0 {
            Phase::Updating { delta, at: 0 }
        } else {
            Phase::Pacing
        }
    }

    /// The tree as `run` leaves it when it was idle: the `ready` calls begin.
    pub open spec fn started(self, target_rate: Option<u32>) -> TreeModel {
        TreeModel {
            chains: self.chains,
            phase: if self.size() > 0 {
                Phase::Readying { at: 0 }
            } else {
                Phase::Configuring
            },
            target_rate,
        }
    }

    /// The request that the tree is waiting to hear of.
    pub open spec fn pending(self) -> Request {
        match self.phase {
            Phase::Idle => Request::Idle,
            Phase::Readying { at } => Request::Invoke(tree_plan(Hook::Ready, self.chains)[at as int]),
            Phase::Configuring => Request::ConfigurePacer(self.target_rate),
            Phase::Starting => Request::StartIteration,
            Phase::Polling { .. } => Request::PollCancellation,
            Phase::Sensing { .. } => Request::PollInput,
            Phase::Notifying { at, .. } => Request::Invoke(
                tree_plan(Hook::KeyInput, self.chains)[at as int],
            ),
            Phase::Updating { delta, at } => Request::Invoke(
                tree_plan(Hook::Update(delta), self.chains)[at as int],
            ),
            Phase::Pacing => Request::EndIteration,
            Phase::Stopped { cause } => Request::Stop(cause),
        }
    }

    /// Whether `reply` is an answer to the pending request.
    pub open spec fn answers(self, reply: Reply) -> bool {
        match self.phase {
            Phase::Idle => false,
            Phase::Readying { .. } | Phase::Notifying { .. } | Phase::Updating { .. } => reply
                == Reply::HookDone || reply == Reply::HookFailed,
            Phase::Configuring => reply == Reply::PacerConfigured,
            Phase::Starting => reply is IterationStarted,
            Phase::Polling { .. } => reply is CancellationPolled,
            Phase::Sensing { .. } => reply is InputPolled,
            Phase::Pacing => reply == Reply::IterationPaced,
            Phase::Stopped { .. } => false,
        }
    }

    /// The phase that follows on `reply`. A reply that does not answer the
    /// pending request changes nothing.
    pub open spec fn next_phase(self, reply: Reply) -> Phase {
        match (self.phase, reply) {
            (Phase::Readying { at }, Reply::HookDone) => if at + 1 < self.size() {
                Phase::Readying { at: (at + 1) as usize }
            } else {
                Phase::Configuring
            },
            (Phase::Readying { .. }, Reply::HookFailed) => Phase::Stopped {
                cause: TreeError::DispatchFailure,
            },
            (Phase::Configuring, Reply::PacerConfigured) => Phase::Starting,
            (Phase::Starting, Reply::IterationStarted(delta)) => Phase::Polling { delta },
            (Phase::Polling { delta }, Reply::CancellationPolled(requested)) => if requested {
                Phase::Stopped { cause: TreeError::Cancelled }
            } else {
                Phase::Sensing { delta }
            },
            (Phase::Sensing { delta }, Reply::InputPolled(any_key)) => if any_key && self.size()
                > 0 {
                Phase::Notifying { delta, at: 0 }
            } else {
                self.updating(delta)
            },
            (Phase::Notifying { delta, at }, Reply::HookDone) => if at + 1 < self.size() {
                Phase::Notifying { delta, at: (at + 1) as usize }
            } else {
                self.updating(delta)
            },
            (Phase::Notifying { .. }, Reply::HookFailed) => Phase::Stopped {
                cause: TreeError::DispatchFailure,
            },
            (Phase::Updating { delta, at }, Reply::HookDone) => if at + 1 < self.size() {
                Phase::Updating { delta, at: (at + 1) as usize }
            } else {
                Phase::Pacing
            },
            (Phase::Updating { .. }, Reply::HookFailed) => Phase::Stopped {
                cause: TreeError::DispatchFailure,
            },
            (Phase::Pacing, Reply::IterationPaced) => Phase::Starting,
            _ => self.phase,
        }
    }

    /// The tree after `reply`.
    pub open spec fn step(self, reply: Reply) -> TreeModel {
        TreeModel { chains: self.chains, phase: self.next_phase(reply), target_rate: self.target_rate }
    }
}

/// The scheduler: the registered nodes in insertion order, and the state of
/// the run loop.
#[derive(Clone, Debug)]
pub struct NodeTree {
    nodes: Vec<Node>,
    running: bool,
    phase: Phase,
    target_rate: Option<u32>,
    order: Vec<Invocation>,
}

impl View for NodeTree {
    type V = TreeModel;

    closed spec fn view(&self) -> TreeModel {
        TreeModel {
            chains: Seq::new(self.nodes@.len(), |i: int| self.nodes@[i]@.chain),
            phase: self.phase,
            target_rate: self.target_rate,
        }
    }
}

impl NodeTree {
    /// The tree's own invariant: each node knows its position, the dispatch
    /// order is the one that the chains give, and the guard is up exactly
    /// while the loop is active.
    pub closed spec fn wf(&self) -> bool {
        &&& self@.valid()
        &&& self.running == self@.is_running()
        &&& forall|i: int| 0 <= i < self.nodes@.len() ==> (#[trigger] self.nodes@[i])@.index == i
        &&& self.order@ == tree_plan(Hook::Ready, self@.chains)
    }

    /// A tree that is well formed has a valid model.
    pub proof fn wf_is_valid(&self)
        requires
            self.wf(),
        ensures
            self@.valid(),
    {
    }

    /// An empty tree whose loop is not active.
    pub fn new() -> (tree: NodeTree)
        ensures
            tree.wf(),
            tree@.chains == Seq::<Seq<LayerId>>::empty(),
            tree@.phase == Phase::Idle,
            tree@.target_rate == None::<u32>,
    {
        let tree = NodeTree {
            nodes: Vec::new(),
            running: false,
            phase: Phase::Idle,
            target_rate: None,
            order: Vec::new(),
        };
        assert(tree@.chains =~= Seq::<Seq<LayerId>>::empty());
        tree
    }

    /// The number of registered nodes.
    pub fn len(&self) -> (count: usize)
        ensures
            count == self@.chains.len(),
    {
        self.nodes.len()
    }

    /// Whether `run` has been called on this tree.
    pub fn is_running(&self) -> (running: bool)
        requires
            self.wf(),
        ensures
            running == self@.is_running(),
    {
        self.running
    }

    /// Whether the run loop is active now.
    pub fn is_looping(&self) -> (looping: bool)
        ensures
            looping == self@.is_looping(),
    {
        match self.phase {
            Phase::Idle => false,
            Phase::Stopped { .. } => false,
            _ => true,
        }
    }

    /// Where the tree stands.
    pub fn phase(&self) -> (phase: Phase)
        ensures
            phase == self@.phase,
    {
        self.phase
    }

    /// The node at position `id`, if there is one.
    pub fn get_from_id(&self, id: usize) -> (found: Option<&Node>)
        requires
            self.wf(),
        ensures
            id >= self@.chains.len() ==> found is None,
            id < self@.chains.len() ==> found is Some && found->0@ == (NodeView {
                chain: self@.chains[id as int],
                index: id,
            }),
    {
        if id < self.nodes.len() {
            Some(&self.nodes[id])
        } else {
            None
        }
    }

    /// Whether a candidate may join a tree: it satisfies the node capability
    /// and its type has at least one behavior layer of its own.
    pub open spec fn admits(candidate: Candidate) -> bool {
        candidate.is_node && is_node_lineage(candidate.ancestors@)
    }

    /// Registers what a factory made, on a tree whose loop is not active. A
    /// candidate that the tree admits is appended, with its chain resolved
    /// and its position in the tree attached; any other is dropped, and the
    /// tree comes back as it was.
    pub fn add_node(self, candidate: &Candidate) -> (tree: NodeTree)
        requires
            self.wf(),
            !self@.is_looping(),
        ensures
            tree.wf(),
            tree@.phase == self@.phase,
            tree@.target_rate == self@.target_rate,
            !Self::admits(*candidate) ==> tree@ == self@,
            Self::admits(*candidate) ==> tree@.chains == self@.chains.push(
                dispatch_chain(candidate.ancestors@),
            ),
            Self::admits(*candidate) ==> tree@.chains.last().len() == candidate.ancestors@.len() - 2
                && forall|i: int|
                0 <= i < candidate.ancestors@.len() - 2 ==> #[trigger] tree@.chains.last()[i]
                    == candidate.ancestors@[candidate.ancestors@.len() - 3 - i],
    {
        if !candidate.is_node {
            return self;
        }
        match resolve_chain(&candidate.ancestors) {
            Err(_) => self,
            Ok(chain) => {
                let mut tree = self;
                let index: usize = tree.nodes.len();
                let node = Node::attached(chain, index);
                let mut calls = node.ready_recursive();
                proof {
                    tree_plan_push(Hook::Ready, tree@.chains, node@.chain);
                }
                tree.order.append(&mut calls);
                tree.nodes.push(node);
                proof {
                    assert(tree@.chains.len() == tree.nodes.len());
                    let grown = self@.chains.push(dispatch_chain(candidate.ancestors@));
                    assert(tree@.chains =~= grown);
                    assert(tree.order@ == tree_plan(Hook::Ready, grown));
                    assert(tree@.size() == tree.order.len());
                    assert forall|i: int| 0 <= i < tree@.chains.len() implies (
                    #[trigger] tree@.chains[i]).len() >= 1 by {
                        if i < self@.chains.len() {
                            assert(tree@.chains[i] == self@.chains[i]);
                        }
                    }
                    assert forall|i: int| 0 <= i < tree.nodes@.len() implies (
                    #[trigger] tree.nodes@[i])@.index == i by {
                        if i < self.nodes@.len() {
                            assert(tree.nodes@[i] == self.nodes@[i]);
                        }
                    }
                }
                tree
            },
        }
    }

    /// The call at position `at` of the dispatch order, for `hook`.
    fn call_at(&self, hook: Hook, at: usize) -> (call: Invocation)
        requires
            self.wf(),
            at < self@.size(),
        ensures
            call == tree_plan(hook, self@.chains)[at as int],
    {
        proof {
            tree_plan_same_targets(Hook::Ready, hook, self@.chains);
        }
        let target = self.order[at];
        Invocation { hook, node: target.node, layer: target.layer }
    }

    /// The request that the tree is waiting to hear of.
    pub fn pending(&self) -> (request: Request)
        requires
            self.wf(),
        ensures
            request == self@.pending(),
    {
        match self.phase {
            Phase::Idle => Request::Idle,
            Phase::Readying { at } => Request::Invoke(self.call_at(Hook::Ready, at)),
            Phase::Configuring => Request::ConfigurePacer(self.target_rate),
            Phase::Starting => Request::StartIteration,
            Phase::Polling { .. } => Request::PollCancellation,
            Phase::Sensing { .. } => Request::PollInput,
            Phase::Notifying { at, .. } => Request::Invoke(self.call_at(Hook::KeyInput, at)),
            Phase::Updating { delta, at } => Request::Invoke(
                self.call_at(Hook::Update(delta), at),
            ),
            Phase::Pacing => Request::EndIteration,
            Phase::Stopped { cause } => Request::Stop(cause),
        }
    }

    /// The pacer that the tree is asking for, while it is asking for one:
    /// made for the rate that `run` was given.
    pub fn pacer(&self) -> (pacer: Option<FramePacer>)
        requires
            self.wf(),
        ensures
            pacer is Some <==> self@.phase == Phase::Configuring,
            pacer matches Some(made) ==> made.target_rate == self@.target_rate,
    {
        match self.phase {
            Phase::Configuring => Some(FramePacer::new(self.target_rate)),
            _ => None,
        }
    }

    /// Starts the loop. On a tree whose loop is already active this fails
    /// with `AlreadyRunning` and changes nothing. Otherwise the guard goes
    /// up, and the first request comes back: the first `ready` call, or the
    /// pacer's set-up where the tree has no call to make.
    pub fn run(&mut self, target_rate: Option<u32>) -> (first: Result<Request, TreeError>)
        requires
            old(self).wf(),
            old(self)@.is_running() || target_rate != Some(0u32),
        ensures
            final(self).wf(),
            old(self)@.is_running() ==> first == Err::<Request, TreeError>(
                TreeError::AlreadyRunning,
            ) && *final(self) == *old(self),
            !old(self)@.is_running() ==> final(self)@ == old(self)@.started(target_rate) && first
                == Ok::<Request, TreeError>(final(self)@.pending()),
    {
        if self.running {
            return Err(TreeError::AlreadyRunning);
        }
        self.running = true;
        self.target_rate = target_rate;
        self.phase = if self.order.len() > 0 {
            Phase::Readying { at: 0 }
        } else {
            Phase::Configuring
        };
        Ok(self.pending())
    }

    /// Takes the driver's reply to the pending request, and gives the next
    /// request. A reply that does not answer the pending request changes
    /// nothing, and the same request comes back.
    pub fn advance(&mut self, reply: Reply) -> (next: Request)
        requires
            old(self).wf(),
        ensures
            final(self).wf(),
            final(self)@ == old(self)@.step(reply),
            next == final(self)@.pending(),
    {
        let size: usize = self.order.len();
        let phase: Phase = match (self.phase, reply) {
            (Phase::Readying { at }, Reply::HookDone) => if at + 1 < size {
                Phase::Readying { at: at + 1 }
            } else {
                Phase::Configuring
            },
            (Phase::Readying { .. }, Reply::HookFailed) => Phase::Stopped {
                cause: TreeError::DispatchFailure,
            },
            (Phase::Configuring, Reply::PacerConfigured) => Phase::Starting,
            (Phase::Starting, Reply::IterationStarted(delta)) => Phase::Polling { delta },
            (Phase::Polling { delta }, Reply::CancellationPolled(requested)) => if requested {
                Phase::Stopped { cause: TreeError::Cancelled }
            } else {
                Phase::Sensing { delta }
            },
            (Phase::Sensing { delta }, Reply::InputPolled(any_key)) => if any_key && size > 0 {
                Phase::Notifying { delta, at: 0 }
            } else if size > 0 {
                Phase::Updating { delta, at: 0 }
            } else {
                Phase::Pacing
            },
            (Phase::Notifying { delta, at }, Reply::HookDone) => if at + 1 < size {
                Phase::Notifying { delta, at: at + 1 }
            } else {
                Phase::Updating { delta, at: 0 }
            },
            (Phase::Notifying { .. }, Reply::HookFailed) => Phase::Stopped {
                cause: TreeError::DispatchFailure,
            },
            (Phase::Updating { delta, at }, Reply::HookDone) => if at + 1 < size {
                Phase::Updating { delta, at: at + 1 }
            } else {
                Phase::Pacing
            },
            (Phase::Updating { .. }, Reply::HookFailed) => Phase::Stopped {
                cause: TreeError::DispatchFailure,
            },
            (Phase::Pacing, Reply::IterationPaced) => Phase::Starting,
            (phase, _) => phase,
        };
        self.phase = phase;
        self.pending()
    }
}

impl Default for NodeTree {
    /// An empty tree whose loop is not active.
    fn default() -> (tree: NodeTree)
        ensures
            tree.wf(),
            tree@.chains == Seq::<Seq<LayerId>>::empty(),
            tree@.phase == Phase::Idle,
            tree@.target_rate == None::<u32>,
    {
        NodeTree::new()
    }
}

} // verus!
