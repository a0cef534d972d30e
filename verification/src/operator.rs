//! Runtime composition of filter predicates into boolean operator trees.

use vstd::prelude::*;
use crate::filters::{FilterPredicate, PredModel};

verus! {

broadcast use vstd::std_specs::vec::axiom_vec_index_decreases;

/// An error raised while composing a query, before anything reaches the
/// executor.
#[derive(Clone, Copy, Debug, PartialEq, Eq, Structural)]
pub enum ComposeError {
    /// An operator was applied to an empty list of children.
    EmptyOperatorList,
    /// The selection names a relation not declared on the entity.
    MalformedSelection,
}

/// A tagged tree node combining filter predicates: a leaf holds one
/// predicate, the other variants hold a non-empty ordered list of children.
/// A node is a tree by construction; it has no identity beyond its
/// structural value.
#[derive(Debug, PartialEq)]
pub enum OperatorNode {
    Leaf(FilterPredicate),
    AndNode(Vec<OperatorNode>),
    OrNode(Vec<OperatorNode>),
    NotNode(Vec<OperatorNode>),
}

/// Mathematical model of an operator tree.
pub enum NodeModel {
    MLeaf(PredModel),
    MAnd(Seq<NodeModel>),
    MOr(Seq<NodeModel>),
    MNot(Seq<NodeModel>),
}

/// Models of the children of an operator node, in order.
pub open spec fn node_models(cs: &Vec<OperatorNode>) -> Seq<NodeModel>
    decreases cs,
{
    Seq::new(
        cs@.len(),
        |i: int|
            if 0 <= i < cs.len() {
                cs[i]@
            } else {
                vstd::pervasive::arbitrary()
            },
    )
}

/// Length and elements of the model of an operator node list.
pub proof fn lemma_node_models_index(cs: &Vec<OperatorNode>)
    ensures
        node_models(cs).len() == cs@.len(),
        forall|j: int| 0 <= j < cs@.len() ==> node_models(cs)[j] == cs@[j]@,
{
}

impl View for OperatorNode {
    type V = NodeModel;

    open spec fn view(&self) -> NodeModel
        decreases self,
    {
        match self {
            OperatorNode::Leaf(p) => NodeModel::MLeaf(p@),
            OperatorNode::AndNode(cs) => NodeModel::MAnd(node_models(cs)),
            OperatorNode::OrNode(cs) => NodeModel::MOr(node_models(cs)),
            OperatorNode::NotNode(cs) => NodeModel::MNot(node_models(cs)),
        }
    }
}

/// Wraps the given predicates as leaves under a conjunction. The list must
/// be non-empty: an empty list is a caller error, and no node is built.
pub fn and(preds: Vec<FilterPredicate>) -> (r: Result<OperatorNode, ComposeError>)
    ensures
        preds@.len() == 0 <==> r == Result::<OperatorNode, ComposeError>::Err(
            ComposeError::EmptyOperatorList,
        ),
        preds@.len() > 0 ==> (r matches Ok(n) && n@ == NodeModel::MAnd(leaf_models(&preds))),
{
    if preds.len() == 0 {
        Err(ComposeError::EmptyOperatorList)
    } else {
        Ok(OperatorNode::AndNode(wrap_leaves(preds)))
    }
}

/// Wraps the given predicates as leaves under a disjunction. The list must
/// be non-empty: an empty list is a caller error, and no node is built.
pub fn or(preds: Vec<FilterPredicate>) -> (r: Result<OperatorNode, ComposeError>)
    ensures
        preds@.len() == 0 <==> r == Result::<OperatorNode, ComposeError>::Err(
            ComposeError::EmptyOperatorList,
        ),
        preds@.len() > 0 ==> (r matches Ok(n) && n@ == NodeModel::MOr(leaf_models(&preds))),
{
    if preds.len() == 0 {
        Err(ComposeError::EmptyOperatorList)
    } else {
        Ok(OperatorNode::OrNode(wrap_leaves(preds)))
    }
}

/// Wraps the given predicates as leaves under a negation. The list must be
/// non-empty: an empty list is a caller error, and no node is built.
pub fn not(preds: Vec<FilterPredicate>) -> (r: Result<OperatorNode, ComposeError>)
    ensures
        preds@.len() == 0 <==> r == Result::<OperatorNode, ComposeError>::Err(
            ComposeError::EmptyOperatorList,
        ),
        preds@.len() > 0 ==> (r matches Ok(n) && n@ == NodeModel::MNot(leaf_models(&preds))),
{
    if preds.len() == 0 {
        Err(ComposeError::EmptyOperatorList)
    } else {
        Ok(OperatorNode::NotNode(wrap_leaves(preds)))
    }
}

/// The models of the given predicates, each wrapped as a leaf node.
pub open spec fn leaf_models(preds: &Vec<FilterPredicate>) -> Seq<NodeModel> {
    Seq::new(preds@.len(), |i: int| NodeModel::MLeaf(preds@[i]@))
}

/// Wraps each predicate as a leaf node, keeping the order.
fn wrap_leaves(preds: Vec<FilterPredicate>) -> (r: Vec<OperatorNode>)
    ensures
        node_models(&r) == leaf_models(&preds),
{
    let ghost all = preds@;
    let mut rest = preds;
    let mut out: Vec<OperatorNode> = Vec::new();
    while rest.len() > 0
        invariant
            out@.len() + rest@.len() == all.len(),
            rest@ == all.subrange(out@.len() as int, all.len() as int),
            forall|j: int| 0 <= j < out@.len() ==> out@[j] == OperatorNode::Leaf(all[j]),
        decreases rest@.len(),
    {
        let ghost i = out@.len() as int;
        let p = rest.remove(0);
        proof {
            assert(p == all[i]);
            assert(rest@ =~= all.subrange(i + 1, all.len() as int));
        }
        out.push(OperatorNode::Leaf(p));
    }
    proof {
        assert(node_models(&out) =~= leaf_models(&preds)) by {
            assert forall|j: int| 0 <= j < all.len() implies node_models(&out)[j] == leaf_models(
                &preds,
            )[j] by {
                assert(out@[j] == OperatorNode::Leaf(all[j]));
            }
        }
    }
    out
}

} // verus!
