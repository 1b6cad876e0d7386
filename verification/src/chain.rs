use crate::error::TreeError;
use vstd::prelude::*;

verus! {

/// Names one behavior layer: one level of a node type's derivation chain.
#[derive(Clone, Copy, Debug, PartialEq, Eq, Structural, Hash)]
pub struct LayerId(pub u64);

/// An ancestor list, written from the most derived type up to the universal
/// root, belongs to a node type when something is left once the universal
/// root and the common node base are taken off its end.
pub open spec fn is_node_lineage(ancestors: Seq<LayerId>) -> bool {
    ancestors.len() >= 3
}

/// The dispatch chain of an ancestor list: its last two entries dropped, the
/// rest reversed, so that it runs from the most general user-defined layer to
/// the most specific one.
pub open spec fn dispatch_chain(ancestors: Seq<LayerId>) -> Seq<LayerId>
    recommends
        ancestors.len() >= 2,
{
    ancestors.drop_last().drop_last().reverse()
}

/// A lineage with `n` user-defined levels has a chain of exactly `n` entries,
/// and entry `i` of the chain is the `i`-th level counted from the base.
pub proof fn dispatch_chain_is_base_to_derived(ancestors: Seq<LayerId>)
    requires
        ancestors.len() >= 2,
    ensures
        dispatch_chain(ancestors).len() == ancestors.len() - 2,
        forall|i: int|
            0 <= i < ancestors.len() - 2 ==> #[trigger] dispatch_chain(ancestors)[i]
                == ancestors[ancestors.len() - 3 - i],
{
}

/// Resolves the dispatch chain of a node type from its full ancestor list.
/// An ancestor list that leaves no user-defined layer is refused.
pub fn resolve_chain(ancestors: &Vec<LayerId>) -> (resolved: Result<Vec<LayerId>, TreeError>)
    ensures
        resolved is Ok <==> is_node_lineage(ancestors@),
        resolved matches Err(e) ==> e == TreeError::InvalidNodeType,
        resolved matches Ok(chain) ==> chain@ == dispatch_chain(ancestors@),
        resolved matches Ok(chain) ==> chain@.len() == ancestors@.len() - 2 && forall|i: int|
            0 <= i < chain@.len() ==> #[trigger] chain@[i] == ancestors@[ancestors@.len() - 3 - i],
{
    if ancestors.len() < 3 {
        return Err(TreeError::InvalidNodeType);
    }
    let count: usize = ancestors.len() - 2;
    let mut chain: Vec<LayerId> = Vec::new();
    let mut taken: usize = 0;
    while taken < count
        invariant
            count == ancestors@.len() - 2,
            taken <= count,
            chain@.len() == taken,
            forall|i: int| 0 <= i < taken ==> #[trigger] chain@[i] == ancestors@[count - 1 - i],
        decreases count - taken,
    {
        chain.push(ancestors[count - 1 - taken]);
        taken = taken + 1;
    }
    proof {
        dispatch_chain_is_base_to_derived(ancestors@);
        assert(chain@ =~= dispatch_chain(ancestors@));
    }
    Ok(chain)
}

} // verus!
