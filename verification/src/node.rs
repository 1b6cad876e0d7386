use crate::chain::LayerId;
use vstd::prelude::*;

verus! {

/// The time that passed between the starts of two iterations, in nanoseconds.
#[derive(Clone, Copy, Debug, PartialEq, Eq, Structural, Hash)]
pub struct Delta {
    pub nanos: u128,
}

/// A lifecycle event, with what it carries.
#[derive(Clone, Copy, Debug, PartialEq, Eq, Structural, Hash)]
pub enum Hook {
    /// Fired once, before the first iteration.
    Ready,
    /// Fired on every iteration, with the elapsed time.
    Update(Delta),
    /// Fired on an iteration during which some key is held.
    KeyInput,
}

/// One call of one hook: the hook of behavior layer `layer`, with the node at
/// position `node` of its tree as the receiver.
#[derive(Clone, Copy, Debug, PartialEq, Eq, Structural, Hash)]
pub struct Invocation {
    pub hook: Hook,
    pub node: usize,
    pub layer: LayerId,
}

/// What a node is, to a contract.
pub struct NodeView {
    /// The behavior layers, from the most general to the most specific.
    pub chain: Seq<LayerId>,
    /// The node's position in its tree.
    pub index: usize,
}

/// A participant of the scene graph. It holds its resolved chain of behavior
/// layers, which nothing changes once the node exists.
#[derive(Clone, Debug)]
pub struct Node {
    chain: Vec<LayerId>,
    index: usize,
}

impl View for Node {
    type V = NodeView;

    closed spec fn view(&self) -> NodeView {
        NodeView { chain: self.chain@, index: self.index }
    }
}

/// The calls that dispatching `hook` to a node makes: one for each entry of
/// its chain, in the chain's order, each with the same hook and receiver.
pub open spec fn dispatch_plan(hook: Hook, node: usize, chain: Seq<LayerId>) -> Seq<Invocation> {
    Seq::new(chain.len(), |i: int| Invocation { hook, node, layer: chain[i] })
}

impl Node {
    /// A node that belongs to no tree yet: it has no behavior layers.
    pub fn new() -> (node: Node)
        ensures
            node@.chain == Seq::<LayerId>::empty(),
            node@.index == 0,
    {
        Node { chain: Vec::new(), index: 0 }
    }

    /// The node that a tree makes on registration.
    pub(crate) fn attached(chain: Vec<LayerId>, index: usize) -> (node: Node)
        ensures
            node@.chain == chain@,
            node@.index == index,
    {
        Node { chain, index }
    }

    /// The resolved chain of behavior layers, base first.
    pub fn behavior_chain(&self) -> (chain: &Vec<LayerId>)
        ensures
            chain@ == self@.chain,
    {
        &self.chain
    }

    /// The node's position in the tree that owns it.
    pub fn tree_index(&self) -> (index: usize)
        ensures
            index == self@.index,
    {
        self.index
    }

    /// What a layer does on `ready` unless it says otherwise: nothing.
    pub fn ready(&self) {
    }

    /// What a layer does on `update` unless it says otherwise: nothing.
    pub fn update(&self, _delta: Delta) {
    }

    /// What a layer does on `on_key_input` unless it says otherwise: nothing.
    pub fn on_key_input(&self) {
    }

    fn dispatch(&self, hook: Hook) -> (calls: Vec<Invocation>)
        ensures
            calls@ == dispatch_plan(hook, self@.index, self@.chain),
    {
        let mut calls: Vec<Invocation> = Vec::new();
        let mut at: usize = 0;
        while at < self.chain.len()
            invariant
                at <= self.chain@.len(),
                calls@.len() == at,
                forall|i: int|
                    0 <= i < at ==> #[trigger] calls@[i] == (Invocation {
                        hook,
                        node: self.index,
                        layer: self.chain@[i],
                    }),
            decreases self.chain@.len() - at,
        {
            calls.push(Invocation { hook, node: self.index, layer: self.chain[at] });
            at = at + 1;
        }
        assert(calls@ =~= dispatch_plan(hook, self@.index, self@.chain));
        calls
    }

    /// The `ready` calls of this node: one per behavior layer, base first.
    /// Whoever performs them stops at the first that fails.
    pub fn ready_recursive(&self) -> (calls: Vec<Invocation>)
        ensures
            calls@ == dispatch_plan(Hook::Ready, self@.index, self@.chain),
    {
        self.dispatch(Hook::Ready)
    }

    /// The `update` calls of this node for one iteration: one per behavior
    /// layer, base first, all with the same `delta`.
    /// Whoever performs them stops at the first that fails.
    pub fn update_recursive(&self, delta: Delta) -> (calls: Vec<Invocation>)
        ensures
            calls@ == dispatch_plan(Hook::Update(delta), self@.index, self@.chain),
    {
        self.dispatch(Hook::Update(delta))
    }

    /// The `on_key_input` calls of this node: one per behavior layer, base
    /// first. Whoever performs them stops at the first that fails.
    pub fn on_key_input_recursive(&self) -> (calls: Vec<Invocation>)
        ensures
            calls@ == dispatch_plan(Hook::KeyInput, self@.index, self@.chain),
    {
        self.dispatch(Hook::KeyInput)
    }
}

impl Default for Node {
    /// A node that belongs to no tree yet.
    fn default() -> (node: Node)
        ensures
            node@.chain == Seq::<LayerId>::empty(),
            node@.index == 0,
    {
        Node::new()
    }
}

} // verus!
