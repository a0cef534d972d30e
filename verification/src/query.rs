//! The executor boundary's wire representation of composed queries: operator
//! trees are serialized recursively, leaf predicates as field/operator/value
//! triples and the boolean combinators as tagged lists of children, and
//! deserialized back into operator trees.

use vstd::prelude::*;
use vstd::string::StrSliceExecFns;
use crate::filters::{
    FilterPredicate, PredModel, pred_models, lemma_pred_models_index, Value, ValueModel,
    value_models, spec_op_name, spec_parse_op, op_name, parse_op, lemma_op_name_parses,
    spec_quantifier_name, spec_parse_quantifier, quantifier_name, parse_quantifier,
    lemma_quantifier_name_parses,
};
use crate::operator::{OperatorNode, NodeModel, node_models, lemma_node_models_index};
use crate::text::str_eq;

verus! {

broadcast use vstd::std_specs::vec::axiom_vec_index_decreases, vstd::seq::axiom_seq_index_decreases;

/// One node of the wire representation the execution engine accepts: a
/// field/operator/value triple, a relation quantifier with nested children,
/// or a tagged list of children for the boolean combinators.
#[derive(Debug, PartialEq)]
pub enum WireNode {
    Triple { field: String, operator: String, value: Value },
    RelationTriple { field: String, quantifier: String, children: Vec<WireNode> },
    Tagged { tag: String, children: Vec<WireNode> },
}

/// Mathematical model of a wire node.
pub enum WireModel {
    WTriple { field: Seq<char>, operator: Seq<char>, value: ValueModel },
    WRelation { field: Seq<char>, quantifier: Seq<char>, children: Seq<WireModel> },
    WTagged { tag: Seq<char>, children: Seq<WireModel> },
}

/// Models of the wire nodes in a list, in order.
pub open spec fn wire_models(ws: &Vec<WireNode>) -> Seq<WireModel>
    decreases ws,
{
    Seq::new(
        ws@.len(),
        |i: int|
            if 0 <= i < ws.len() {
                ws[i]@
            } else {
                vstd::pervasive::arbitrary()
            },
    )
}

impl View for WireNode {
    type V = WireModel;

    open spec fn view(&self) -> WireModel
        decreases self,
    {
        match self {
            WireNode::Triple { field, operator, value } => WireModel::WTriple {
                field: field@,
                operator: operator@,
                value: value@,
            },
            WireNode::RelationTriple { field, quantifier, children } => WireModel::WRelation {
                field: field@,
                quantifier: quantifier@,
                children: wire_models(children),
            },
            WireNode::Tagged { tag, children } => WireModel::WTagged {
                tag: tag@,
                children: wire_models(children),
            },
        }
    }
}

/// Serialized form of a filter predicate: a comparison becomes a
/// field/operator/value triple, a relation quantifier becomes a quantifier
/// node over the serialized nested predicates.
pub open spec fn spec_ser_pred(p: PredModel) -> WireModel
    decreases p,
{
    match p {
        PredModel::MComparison { field, op, value } => WireModel::WTriple {
            field,
            operator: spec_op_name(op),
            value,
        },
        PredModel::MRelation { field, quantifier, nested } => WireModel::WRelation {
            field,
            quantifier: spec_quantifier_name(quantifier),
            children: ser_pred_children(nested),
        },
    }
}

/// Serialized forms of a list of predicates, in order.
pub open spec fn ser_pred_children(ps: Seq<PredModel>) -> Seq<WireModel>
    decreases ps,
{
    Seq::new(
        ps.len(),
        |i: int|
            if 0 <= i < ps.len() {
                spec_ser_pred(ps[i])
            } else {
                vstd::pervasive::arbitrary()
            },
    )
}

/// Length and elements of a serialized predicate list.
proof fn lemma_ser_pred_children_index(ps: Seq<PredModel>)
    ensures
        ser_pred_children(ps).len() == ps.len(),
        forall|j: int| 0 <= j < ps.len() ==> ser_pred_children(ps)[j] == spec_ser_pred(ps[j]),
{
}

/// A sequence that agrees pointwise with the serialized forms of a
/// predicate list is that list's serialization.
proof fn lemma_ser_pred_children_build(ps: Seq<PredModel>, ws: Seq<WireModel>)
    requires
        ps.len() == ws.len(),
        forall|j: int| 0 <= j < ps.len() ==> spec_ser_pred(ps[j]) == ws[j],
    ensures
        ser_pred_children(ps) == ws,
{
    lemma_ser_pred_children_index(ps);
    assert(ser_pred_children(ps) =~= ws);
}

/// Serialized form of an operator tree: a leaf is its predicate's serialized
/// form, the combinators become tagged lists of serialized children.
pub open spec fn spec_ser_node(n: NodeModel) -> WireModel
    decreases n,
{
    match n {
        NodeModel::MLeaf(p) => spec_ser_pred(p),
        NodeModel::MAnd(cs) => WireModel::WTagged { tag: "AND"@, children: ser_node_children(cs) },
        NodeModel::MOr(cs) => WireModel::WTagged { tag: "OR"@, children: ser_node_children(cs) },
        NodeModel::MNot(cs) => WireModel::WTagged { tag: "NOT"@, children: ser_node_children(cs) },
    }
}

/// Serialized forms of a list of operator trees, in order.
pub open spec fn ser_node_children(cs: Seq<NodeModel>) -> Seq<WireModel>
    decreases cs,
{
    Seq::new(
        cs.len(),
        |i: int|
            if 0 <= i < cs.len() {
                spec_ser_node(cs[i])
            } else {
                vstd::pervasive::arbitrary()
            },
    )
}

/// Length and elements of a serialized operator tree list.
proof fn lemma_ser_node_children_index(cs: Seq<NodeModel>)
    ensures
        ser_node_children(cs).len() == cs.len(),
        forall|j: int| 0 <= j < cs.len() ==> ser_node_children(cs)[j] == spec_ser_node(cs[j]),
{
}

/// A sequence that agrees pointwise with the serialized forms of an
/// operator tree list is that list's serialization.
proof fn lemma_ser_node_children_build(cs: Seq<NodeModel>, ws: Seq<WireModel>)
    requires
        cs.len() == ws.len(),
        forall|j: int| 0 <= j < cs.len() ==> spec_ser_node(cs[j]) == ws[j],
    ensures
        ser_node_children(cs) == ws,
{
    lemma_ser_node_children_index(cs);
    assert(ser_node_children(cs) =~= ws);
}

/// Length and elements of the model of a wire node list.
proof fn lemma_wire_models_index(ws: &Vec<WireNode>)
    ensures
        wire_models(ws).len() == ws@.len(),
        forall|j: int| 0 <= j < ws@.len() ==> wire_models(ws)[j] == ws@[j]@,
{
}

/// Copy of a byte vector.
fn clone_bytes(b: &Vec<u8>) -> (r: Vec<u8>)
    ensures
        r@ == b@,
{
    let mut out: Vec<u8> = Vec::new();
    let mut i: usize = 0;
    while i < b.len()
        invariant
            0 <= i <= b@.len(),
            out@ == b@.subrange(0, i as int),
        decreases b@.len() - i,
    {
        out.push(b[i]);
        proof {
            assert(out@ =~= b@.subrange(0, i + 1));
        }
        i += 1;
    }
    proof {
        assert(out@ =~= b@);
    }
    out
}

/// Structural copy of a runtime value.
#[verifier::loop_isolation(false)]
pub fn clone_value(v: &Value) -> (r: Value)
    ensures
        r@ == v@,
    decreases v,
{
    match v {
        Value::Text(s) => Value::Text(s.clone()),
        Value::IntValue(n) => Value::IntValue(*n),
        Value::BoolValue(b) => Value::BoolValue(*b),
        Value::DateTimeValue(s) => Value::DateTimeValue(s.clone()),
        Value::BytesValue(bs) => Value::BytesValue(clone_bytes(bs)),
        Value::JsonValue(s) => Value::JsonValue(s.clone()),
        Value::EnumValue(s) => Value::EnumValue(s.clone()),
        Value::DecimalValue(s) => Value::DecimalValue(s.clone()),
        Value::Null => Value::Null,
        Value::ValueList(vs) => {
            let mut out: Vec<Value> = Vec::new();
            let mut i: usize = 0;
            while i < vs.len()
                invariant
                    0 <= i <= vs@.len(),
                    out@.len() == i,
                    forall|j: int| 0 <= j < i ==> out@[j]@ == vs@[j]@,
                decreases vs@.len() - i,
            {
                proof {
                    assert(decreases_to!(*v => *vs));
                    assert(decreases_to!(*vs => vs[i as int]));
                }
                let c = clone_value(&vs[i]);
                out.push(c);
                i += 1;
            }
            proof {
                assert(value_models(&out) =~= value_models(vs));
            }
            Value::ValueList(out)
        },
    }
}

/// Serializes one filter predicate into the wire representation.
#[verifier::loop_isolation(false)]
pub fn serialize_pred(p: &FilterPredicate) -> (w: WireNode)
    ensures
        w@ == spec_ser_pred(p@),
    decreases p,
{
    match p {
        FilterPredicate::Comparison { field, op, value } => WireNode::Triple {
            field: field.clone(),
            operator: op_name(*op).to_owned(),
            value: clone_value(value),
        },
        FilterPredicate::RelationFilter { field, quantifier, nested } => {
            let mut children: Vec<WireNode> = Vec::new();
            let mut i: usize = 0;
            while i < nested.len()
                invariant
                    0 <= i <= nested@.len(),
                    children@.len() == i,
                    forall|j: int| 0 <= j < i ==> children@[j]@ == spec_ser_pred(nested@[j]@),
                decreases nested@.len() - i,
            {
                proof {
                    assert(decreases_to!(*p => *nested));
                    assert(decreases_to!(*nested => nested[i as int]));
                }
                let c = serialize_pred(&nested[i]);
                children.push(c);
                i += 1;
            }
            proof {
                lemma_pred_models_index(nested);
                lemma_wire_models_index(&children);
                lemma_ser_pred_children_build(pred_models(nested), wire_models(&children));
            }
            let w = WireNode::RelationTriple {
                field: field.clone(),
                quantifier: quantifier_name(*quantifier).to_owned(),
                children,
            };
            w
        },
    }
}

/// Serializes one operator tree into the wire representation.
pub fn serialize_node(n: &OperatorNode) -> (w: WireNode)
    ensures
        w@ == spec_ser_node(n@),
    decreases n,
{
    match n {
        OperatorNode::Leaf(p) => serialize_pred(p),
        OperatorNode::AndNode(cs) => {
            let children = serialize_children(cs);
            WireNode::Tagged { tag: "AND".to_owned(), children }
        },
        OperatorNode::OrNode(cs) => {
            let children = serialize_children(cs);
            WireNode::Tagged { tag: "OR".to_owned(), children }
        },
        OperatorNode::NotNode(cs) => {
            let children = serialize_children(cs);
            WireNode::Tagged { tag: "NOT".to_owned(), children }
        },
    }
}

/// Serializes the children of a combinator node, in order.
#[verifier::loop_isolation(false)]
fn serialize_children(cs: &Vec<OperatorNode>) -> (ws: Vec<WireNode>)
    ensures
        wire_models(&ws) == ser_node_children(node_models(cs)),
    decreases cs,
{
    let mut out: Vec<WireNode> = Vec::new();
    let mut i: usize = 0;
    while i < cs.len()
        invariant
            0 <= i <= cs@.len(),
            out@.len() == i,
            forall|j: int| 0 <= j < i ==> out@[j]@ == spec_ser_node(cs@[j]@),
        decreases cs@.len() - i,
    {
        proof {
            assert(decreases_to!(*cs => cs[i as int]));
        }
        let c = serialize_node(&cs[i]);
        out.push(c);
        i += 1;
    }
    proof {
        lemma_node_models_index(cs);
        lemma_wire_models_index(&out);
        lemma_ser_node_children_build(node_models(cs), wire_models(&out));
    }
    out
}

/// A recognized wire operator name is the name of the operator it parses to.
proof fn lemma_parse_op_sound(s: Seq<char>)
    requires
        spec_parse_op(s) is Some,
    ensures
        spec_op_name(spec_parse_op(s)->Some_0) == s,
{
}

/// A recognized wire quantifier name is the name of the quantifier it
/// parses to.
proof fn lemma_parse_quantifier_sound(s: Seq<char>)
    requires
        spec_parse_quantifier(s) is Some,
    ensures
        spec_quantifier_name(spec_parse_quantifier(s)->Some_0) == s,
{
}

/// A serialized predicate is never a tagged combinator node.
proof fn lemma_ser_pred_not_tagged(pm: PredModel)
    ensures
        !(spec_ser_pred(pm) is WTagged),
{
    match pm {
        PredModel::MComparison { .. } => {},
        PredModel::MRelation { .. } => {},
    }
}

/// The three combinator tags are pairwise distinct.
proof fn lemma_tag_facts()
    ensures
        "AND"@.len() == 3,
        "AND"@[0] == 'A',
        "OR"@.len() == 2,
        "NOT"@.len() == 3,
        "NOT"@[0] == 'N',
{
    reveal_strlit("AND");
    reveal_strlit("OR");
    reveal_strlit("NOT");
}

/// Reads one filter predicate back from its wire form. Exactly the wire
/// trees that predicate serialization produces are accepted.
#[verifier::loop_isolation(false)]
pub fn deserialize_pred(w: &WireNode) -> (r: Option<FilterPredicate>)
    ensures
        r matches Some(p) ==> spec_ser_pred(p@) == w@,
        (exists|pm: PredModel| spec_ser_pred(pm) == w@) ==> r is Some,
    decreases w,
{
    match w {
        WireNode::Triple { field, operator, value } => {
            match parse_op(operator.as_str()) {
                Some(op) => {
                    proof {
                        lemma_parse_op_sound(operator@);
                    }
                    Some(
                        FilterPredicate::Comparison {
                            field: field.clone(),
                            op,
                            value: clone_value(value),
                        },
                    )
                },
                None => {
                    proof {
                        if exists|pm: PredModel| spec_ser_pred(pm) == w@ {
                            let pm = choose|pm: PredModel| spec_ser_pred(pm) == w@;
                            match pm {
                                PredModel::MComparison { op: op2, .. } => {
                                    lemma_op_name_parses(op2);
                                },
                                PredModel::MRelation { .. } => {},
                            }
                            assert(false);
                        }
                    }
                    None
                },
            }
        },
        WireNode::RelationTriple { field, quantifier, children } => {
            let qopt = parse_quantifier(quantifier.as_str());
            if qopt.is_none() {
                proof {
                    if exists|pm: PredModel| spec_ser_pred(pm) == w@ {
                        let pm = choose|pm: PredModel| spec_ser_pred(pm) == w@;
                        match pm {
                            PredModel::MComparison { .. } => {},
                            PredModel::MRelation { quantifier: q2, .. } => {
                                lemma_quantifier_name_parses(q2);
                            },
                        }
                        assert(false);
                    }
                }
                return None;
            }
            let q = qopt.unwrap();
            let mut nested: Vec<FilterPredicate> = Vec::new();
            let mut i: usize = 0;
            while i < children.len()
                invariant
                    0 <= i <= children@.len(),
                    nested@.len() == i,
                    forall|j: int| 0 <= j < i ==> spec_ser_pred(nested@[j]@) == children@[j]@,
                decreases children@.len() - i,
            {
                proof {
                    assert(decreases_to!(*w => *children));
                    assert(decreases_to!(*children => children[i as int]));
                }
                match deserialize_pred(&children[i]) {
                    Some(p) => {
                        nested.push(p);
                    },
                    None => {
                        proof {
                            if exists|pm: PredModel| spec_ser_pred(pm) == w@ {
                                let pm = choose|pm: PredModel| spec_ser_pred(pm) == w@;
                                match pm {
                                    PredModel::MComparison { .. } => {},
                                    PredModel::MRelation { nested: n2, .. } => {
                                        lemma_wire_models_index(children);
                                        lemma_ser_pred_children_index(n2);
                                        assert(ser_pred_children(n2) == wire_models(children));
                                        assert(n2.len() == children@.len());
                                        assert(ser_pred_children(n2)[i as int] == wire_models(
                                            children,
                                        )[i as int]);
                                        assert(spec_ser_pred(n2[i as int]) == children@[
                                            i as int
                                        ]@);
                                    },
                                }
                                assert(false);
                            }
                        }
                        return None;
                    },
                }
                i += 1;
            }
            let p = FilterPredicate::RelationFilter {
                field: field.clone(),
                quantifier: q,
                nested,
            };
            proof {
                lemma_parse_quantifier_sound(quantifier@);
                lemma_wire_models_index(children);
                lemma_pred_models_index(&p->RelationFilter_nested);
                assert(p@->MRelation_nested.len() == wire_models(children).len());
                assert forall|j: int| 0 <= j < p@->MRelation_nested.len() implies spec_ser_pred(
                    p@->MRelation_nested[j],
                ) == wire_models(children)[j] by {
                    assert(p@->MRelation_nested[j] == nested@[j]@);
                }
                lemma_ser_pred_children_build(p@->MRelation_nested, wire_models(children));
            }
            Some(p)
        },
        WireNode::Tagged { .. } => {
            proof {
                if exists|pm: PredModel| spec_ser_pred(pm) == w@ {
                    let pm = choose|pm: PredModel| spec_ser_pred(pm) == w@;
                    lemma_ser_pred_not_tagged(pm);
                    assert(false);
                }
            }
            None
        },
    }
}

/// Reads one operator tree back from its wire form. Exactly the wire trees
/// that serialization produces are accepted.
#[verifier::loop_isolation(false)]
pub fn deserialize_node(w: &WireNode) -> (r: Option<OperatorNode>)
    ensures
        r matches Some(n) ==> spec_ser_node(n@) == w@,
        (exists|m: NodeModel| spec_ser_node(m) == w@) ==> r is Some,
    decreases w,
{
    match w {
        WireNode::Tagged { tag, children } => {
            let is_and = str_eq(tag.as_str(), "AND");
            let is_or = str_eq(tag.as_str(), "OR");
            let is_not = str_eq(tag.as_str(), "NOT");
            if !is_and && !is_or && !is_not {
                proof {
                    if exists|m: NodeModel| spec_ser_node(m) == w@ {
                        let m = choose|m: NodeModel| spec_ser_node(m) == w@;
                        match m {
                            NodeModel::MLeaf(pm) => {
                                lemma_ser_pred_not_tagged(pm);
                            },
                            NodeModel::MAnd(_) => {},
                            NodeModel::MOr(_) => {},
                            NodeModel::MNot(_) => {},
                        }
                        assert(false);
                    }
                }
                return None;
            }
            let mut out: Vec<OperatorNode> = Vec::new();
            let mut i: usize = 0;
            while i < children.len()
                invariant
                    0 <= i <= children@.len(),
                    out@.len() == i,
                    forall|j: int| 0 <= j < i ==> spec_ser_node(out@[j]@) == children@[j]@,
                decreases children@.len() - i,
            {
                proof {
                    assert(decreases_to!(*w => *children));
                    assert(decreases_to!(*children => children[i as int]));
                }
                match deserialize_node(&children[i]) {
                    Some(c) => {
                        out.push(c);
                    },
                    None => {
                        proof {
                            if exists|m: NodeModel| spec_ser_node(m) == w@ {
                                let m = choose|m: NodeModel| spec_ser_node(m) == w@;
                                match m {
                                    NodeModel::MLeaf(pm) => {
                                        lemma_ser_pred_not_tagged(pm);
                                    },
                                    NodeModel::MAnd(cs2) => {
                                        lemma_wire_models_index(children);
                                        lemma_ser_node_children_index(cs2);
                                        assert(ser_node_children(cs2) == wire_models(children));
                                        assert(cs2.len() == children@.len());
                                        assert(ser_node_children(cs2)[i as int] == wire_models(
                                            children,
                                        )[i as int]);
                                        assert(spec_ser_node(cs2[i as int]) == children@[
                                            i as int
                                        ]@);
                                    },
                                    NodeModel::MOr(cs2) => {
                                        lemma_wire_models_index(children);
                                        lemma_ser_node_children_index(cs2);
                                        assert(ser_node_children(cs2) == wire_models(children));
                                        assert(cs2.len() == children@.len());
                                        assert(ser_node_children(cs2)[i as int] == wire_models(
                                            children,
                                        )[i as int]);
                                        assert(spec_ser_node(cs2[i as int]) == children@[
                                            i as int
                                        ]@);
                                    },
                                    NodeModel::MNot(cs2) => {
                                        lemma_wire_models_index(children);
                                        lemma_ser_node_children_index(cs2);
                                        assert(ser_node_children(cs2) == wire_models(children));
                                        assert(cs2.len() == children@.len());
                                        assert(ser_node_children(cs2)[i as int] == wire_models(
                                            children,
                                        )[i as int]);
                                        assert(spec_ser_node(cs2[i as int]) == children@[
                                            i as int
                                        ]@);
                                    },
                                }
                                assert(false);
                            }
                        }
                        return None;
                    },
                }
                i += 1;
            }
            proof {
                lemma_node_models_index(&out);
                lemma_wire_models_index(children);
                lemma_ser_node_children_build(node_models(&out), wire_models(children));
            }
            if is_and {
                Some(OperatorNode::AndNode(out))
            } else if is_or {
                Some(OperatorNode::OrNode(out))
            } else {
                Some(OperatorNode::NotNode(out))
            }
        },
        WireNode::Triple { .. } => {
            match deserialize_pred(w) {
                Some(p) => Some(OperatorNode::Leaf(p)),
                None => {
                    proof {
                        if exists|m: NodeModel| spec_ser_node(m) == w@ {
                            let m = choose|m: NodeModel| spec_ser_node(m) == w@;
                            match m {
                                NodeModel::MLeaf(pm) => {
                                    assert(spec_ser_pred(pm) == w@);
                                },
                                NodeModel::MAnd(_) => {},
                                NodeModel::MOr(_) => {},
                                NodeModel::MNot(_) => {},
                            }
                            assert(false);
                        }
                    }
                    None
                },
            }
        },
        WireNode::RelationTriple { .. } => {
            match deserialize_pred(w) {
                Some(p) => Some(OperatorNode::Leaf(p)),
                None => {
                    proof {
                        if exists|m: NodeModel| spec_ser_node(m) == w@ {
                            let m = choose|m: NodeModel| spec_ser_node(m) == w@;
                            match m {
                                NodeModel::MLeaf(pm) => {
                                    assert(spec_ser_pred(pm) == w@);
                                },
                                NodeModel::MAnd(_) => {},
                                NodeModel::MOr(_) => {},
                                NodeModel::MNot(_) => {},
                            }
                            assert(false);
                        }
                    }
                    None
                },
            }
        },
    }
}

/// Predicate serialization is injective: equal wire forms come only from
/// equal predicates.
proof fn lemma_ser_pred_injective(a: PredModel, b: PredModel)
    requires
        spec_ser_pred(a) == spec_ser_pred(b),
    ensures
        a == b,
    decreases a,
{
    match (a, b) {
        (
            PredModel::MComparison { op: opa, .. },
            PredModel::MComparison { op: opb, .. },
        ) => {
            lemma_op_name_parses(opa);
            lemma_op_name_parses(opb);
        },
        (
            PredModel::MRelation { quantifier: qa, nested: na, .. },
            PredModel::MRelation { quantifier: qb, nested: nb, .. },
        ) => {
            lemma_quantifier_name_parses(qa);
            lemma_quantifier_name_parses(qb);
            lemma_ser_pred_children_index(na);
            lemma_ser_pred_children_index(nb);
            assert(ser_pred_children(na) == ser_pred_children(nb));
            assert(na.len() == nb.len());
            assert forall|i: int| 0 <= i < na.len() implies na[i] == nb[i] by {
                assert(ser_pred_children(na)[i] == ser_pred_children(nb)[i]);
                assert(spec_ser_pred(na[i]) == spec_ser_pred(nb[i]));
                lemma_ser_pred_injective(na[i], nb[i]);
            }
            assert(na =~= nb);
        },
        (PredModel::MComparison { .. }, PredModel::MRelation { .. }) => {},
        (PredModel::MRelation { .. }, PredModel::MComparison { .. }) => {},
    }
}

/// Tree serialization is injective: equal wire forms come only from equal
/// operator trees.
proof fn lemma_ser_node_injective(a: NodeModel, b: NodeModel)
    requires
        spec_ser_node(a) == spec_ser_node(b),
    ensures
        a == b,
    decreases a,
{
    lemma_tag_facts();
    match (a, b) {
        (NodeModel::MLeaf(pa), NodeModel::MLeaf(pb)) => {
            lemma_ser_pred_injective(pa, pb);
        },
        (NodeModel::MAnd(ca), NodeModel::MAnd(cb)) => {
            lemma_ser_node_children_index(ca);
            lemma_ser_node_children_index(cb);
            assert(ser_node_children(ca) == ser_node_children(cb));
            assert(ca.len() == cb.len());
            assert forall|i: int| 0 <= i < ca.len() implies ca[i] == cb[i] by {
                assert(ser_node_children(ca)[i] == ser_node_children(cb)[i]);
                assert(spec_ser_node(ca[i]) == spec_ser_node(cb[i]));
                lemma_ser_node_injective(ca[i], cb[i]);
            }
            assert(ca =~= cb);
        },
        (NodeModel::MOr(ca), NodeModel::MOr(cb)) => {
            lemma_ser_node_children_index(ca);
            lemma_ser_node_children_index(cb);
            assert(ser_node_children(ca) == ser_node_children(cb));
            assert(ca.len() == cb.len());
            assert forall|i: int| 0 <= i < ca.len() implies ca[i] == cb[i] by {
                assert(ser_node_children(ca)[i] == ser_node_children(cb)[i]);
                assert(spec_ser_node(ca[i]) == spec_ser_node(cb[i]));
                lemma_ser_node_injective(ca[i], cb[i]);
            }
            assert(ca =~= cb);
        },
        (NodeModel::MNot(ca), NodeModel::MNot(cb)) => {
            lemma_ser_node_children_index(ca);
            lemma_ser_node_children_index(cb);
            assert(ser_node_children(ca) == ser_node_children(cb));
            assert(ca.len() == cb.len());
            assert forall|i: int| 0 <= i < ca.len() implies ca[i] == cb[i] by {
                assert(ser_node_children(ca)[i] == ser_node_children(cb)[i]);
                assert(spec_ser_node(ca[i]) == spec_ser_node(cb[i]));
                lemma_ser_node_injective(ca[i], cb[i]);
            }
            assert(ca =~= cb);
        },
        (NodeModel::MLeaf(pa), _) => {
            lemma_ser_pred_not_tagged(pa);
        },
        (_, NodeModel::MLeaf(pb)) => {
            lemma_ser_pred_not_tagged(pb);
        },
        _ => {},
    }
}

/// The operator tree, if any, whose serialized wire form is the given tree.
pub open spec fn spec_parse_node(w: WireModel) -> Option<NodeModel> {
    if exists|m: NodeModel| spec_ser_node(m) == w {
        Some(choose|m: NodeModel| spec_ser_node(m) == w)
    } else {
        None
    }
}

/// Round trip through the executor boundary's wire representation:
/// serializing an operator tree and reading the wire form back always yields
/// a structurally equal tree. In particular the trees that `and`, `or` and
/// `not` build survive the trip unchanged.
pub proof fn lemma_node_round_trip(m: NodeModel)
    ensures
        spec_parse_node(spec_ser_node(m)) == Some(m),
{
    assert(spec_ser_node(m) == spec_ser_node(m));
    let m2 = choose|m2: NodeModel| spec_ser_node(m2) == spec_ser_node(m);
    lemma_ser_node_injective(m2, m);
}

} // verus!
