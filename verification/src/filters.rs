//! Filter predicates: the closed family of comparison operators that each
//! field shape admits, and the runtime predicate values built from them.

use vstd::prelude::*;
use crate::text::str_eq;

verus! {

broadcast use vstd::std_specs::vec::axiom_vec_index_decreases;

/// Scalar kind of a field, as recognized by the compiler.
#[derive(Clone, Copy, Debug, PartialEq, Eq, Structural)]
pub enum ScalarKind {
    Text,
    Integer,
    Float,
    Boolean,
    DateTime,
    Bytes,
    Json,
}

/// What a field's type name resolves to: a recognized scalar kind or a
/// reference to a schema-defined enumeration.
#[derive(Clone, Copy, Debug, PartialEq, Eq, Structural)]
pub enum FieldTypeClass {
    Scalar(ScalarKind),
    EnumRef,
}

/// One comparison operator usable inside a filter predicate.
#[derive(Clone, Copy, Debug, PartialEq, Eq, Structural)]
pub enum FilterOp {
    Equals,
    NotEquals,
    InSet,
    NotInSet,
    Lt,
    Lte,
    Gt,
    Gte,
    Contains,
    StartsWith,
    EndsWith,
    IsNull,
    IsNotNull,
    Has,
    HasEvery,
    HasSome,
    IsEmpty,
}

/// Quantifier over the rows of a related entity.
#[derive(Clone, Copy, Debug, PartialEq, Eq, Structural)]
pub enum RelationQuantifier {
    SomeRelated,
    EveryRelated,
    NoneRelated,
}

/// Pattern operators admitted by a single (non-list) field of the given type.
pub open spec fn spec_pattern_ops(t: FieldTypeClass) -> Seq<FilterOp> {
    if t == FieldTypeClass::Scalar(ScalarKind::Text) {
        seq![FilterOp::Contains, FilterOp::StartsWith, FilterOp::EndsWith]
    } else {
        Seq::empty()
    }
}

/// Range operators admitted by a single (non-list) field of the given type.
pub open spec fn spec_range_ops(t: FieldTypeClass) -> Seq<FilterOp> {
    if t == FieldTypeClass::Scalar(ScalarKind::Integer) || t == FieldTypeClass::Scalar(
        ScalarKind::Float,
    ) || t == FieldTypeClass::Scalar(ScalarKind::DateTime) {
        seq![FilterOp::Lt, FilterOp::Lte, FilterOp::Gt, FilterOp::Gte]
    } else {
        Seq::empty()
    }
}

/// The complete, closed set of filter operators valid for a field of the
/// given type class, cardinality and optionality. List fields admit only the
/// whole-list membership operators; single fields admit the equality family,
/// then type-appropriate pattern and range operators, and the null tests
/// exactly when the field is optional.
pub open spec fn spec_filter_ops(t: FieldTypeClass, is_list: bool, optional: bool) -> Seq<
    FilterOp,
> {
    if is_list {
        seq![FilterOp::Has, FilterOp::HasEvery, FilterOp::HasSome, FilterOp::IsEmpty]
    } else {
        seq![FilterOp::Equals, FilterOp::NotEquals, FilterOp::InSet, FilterOp::NotInSet]
            + spec_pattern_ops(t) + spec_range_ops(t) + if optional {
            seq![FilterOp::IsNull, FilterOp::IsNotNull]
        } else {
            Seq::empty()
        }
    }
}

/// The family of filter operators for one field shape.
pub fn filter_ops(t: FieldTypeClass, is_list: bool, optional: bool) -> (r: Vec<FilterOp>)
    ensures
        r@ == spec_filter_ops(t, is_list, optional),
{
    let mut out: Vec<FilterOp> = Vec::new();
    if is_list {
        out.push(FilterOp::Has);
        out.push(FilterOp::HasEvery);
        out.push(FilterOp::HasSome);
        out.push(FilterOp::IsEmpty);
        proof {
            assert(out@ =~= spec_filter_ops(t, is_list, optional));
        }
        return out;
    }
    out.push(FilterOp::Equals);
    out.push(FilterOp::NotEquals);
    out.push(FilterOp::InSet);
    out.push(FilterOp::NotInSet);
    if matches!(t, FieldTypeClass::Scalar(ScalarKind::Text)) {
        out.push(FilterOp::Contains);
        out.push(FilterOp::StartsWith);
        out.push(FilterOp::EndsWith);
    }
    if matches!(
        t,
        FieldTypeClass::Scalar(ScalarKind::Integer)
            | FieldTypeClass::Scalar(ScalarKind::Float)
            | FieldTypeClass::Scalar(ScalarKind::DateTime)
    ) {
        out.push(FilterOp::Lt);
        out.push(FilterOp::Lte);
        out.push(FilterOp::Gt);
        out.push(FilterOp::Gte);
    }
    if optional {
        out.push(FilterOp::IsNull);
        out.push(FilterOp::IsNotNull);
    }
    proof {
        assert(out@ =~= spec_filter_ops(t, is_list, optional));
    }
    out
}

/// Wire name of a filter operator.
pub open spec fn spec_op_name(op: FilterOp) -> Seq<char> {
    match op {
        FilterOp::Equals => "equals"@,
        FilterOp::NotEquals => "not"@,
        FilterOp::InSet => "in"@,
        FilterOp::NotInSet => "notIn"@,
        FilterOp::Lt => "lt"@,
        FilterOp::Lte => "lte"@,
        FilterOp::Gt => "gt"@,
        FilterOp::Gte => "gte"@,
        FilterOp::Contains => "contains"@,
        FilterOp::StartsWith => "startsWith"@,
        FilterOp::EndsWith => "endsWith"@,
        FilterOp::IsNull => "isNull"@,
        FilterOp::IsNotNull => "isNotNull"@,
        FilterOp::Has => "has"@,
        FilterOp::HasEvery => "hasEvery"@,
        FilterOp::HasSome => "hasSome"@,
        FilterOp::IsEmpty => "isEmpty"@,
    }
}

/// Wire name of a filter operator.
pub fn op_name(op: FilterOp) -> (r: &'static str)
    ensures
        r@ == spec_op_name(op),
{
    match op {
        FilterOp::Equals => "equals",
        FilterOp::NotEquals => "not",
        FilterOp::InSet => "in",
        FilterOp::NotInSet => "notIn",
        FilterOp::Lt => "lt",
        FilterOp::Lte => "lte",
        FilterOp::Gt => "gt",
        FilterOp::Gte => "gte",
        FilterOp::Contains => "contains",
        FilterOp::StartsWith => "startsWith",
        FilterOp::EndsWith => "endsWith",
        FilterOp::IsNull => "isNull",
        FilterOp::IsNotNull => "isNotNull",
        FilterOp::Has => "has",
        FilterOp::HasEvery => "hasEvery",
        FilterOp::HasSome => "hasSome",
        FilterOp::IsEmpty => "isEmpty",
    }
}

/// The filter operator whose wire name is the given string, if any.
pub open spec fn spec_parse_op(s: Seq<char>) -> Option<FilterOp> {
    if s == "equals"@ {
        Some(FilterOp::Equals)
    } else if s == "not"@ {
        Some(FilterOp::NotEquals)
    } else if s == "in"@ {
        Some(FilterOp::InSet)
    } else if s == "notIn"@ {
        Some(FilterOp::NotInSet)
    } else if s == "lt"@ {
        Some(FilterOp::Lt)
    } else if s == "lte"@ {
        Some(FilterOp::Lte)
    } else if s == "gt"@ {
        Some(FilterOp::Gt)
    } else if s == "gte"@ {
        Some(FilterOp::Gte)
    } else if s == "contains"@ {
        Some(FilterOp::Contains)
    } else if s == "startsWith"@ {
        Some(FilterOp::StartsWith)
    } else if s == "endsWith"@ {
        Some(FilterOp::EndsWith)
    } else if s == "isNull"@ {
        Some(FilterOp::IsNull)
    } else if s == "isNotNull"@ {
        Some(FilterOp::IsNotNull)
    } else if s == "has"@ {
        Some(FilterOp::Has)
    } else if s == "hasEvery"@ {
        Some(FilterOp::HasEvery)
    } else if s == "hasSome"@ {
        Some(FilterOp::HasSome)
    } else if s == "isEmpty"@ {
        Some(FilterOp::IsEmpty)
    } else {
        None
    }
}

/// Recognizes the wire name of a filter operator.
pub fn parse_op(s: &str) -> (r: Option<FilterOp>)
    ensures
        r == spec_parse_op(s@),
{
    if str_eq(s, "equals") {
        Some(FilterOp::Equals)
    } else if str_eq(s, "not") {
        Some(FilterOp::NotEquals)
    } else if str_eq(s, "in") {
        Some(FilterOp::InSet)
    } else if str_eq(s, "notIn") {
        Some(FilterOp::NotInSet)
    } else if str_eq(s, "lt") {
        Some(FilterOp::Lt)
    } else if str_eq(s, "lte") {
        Some(FilterOp::Lte)
    } else if str_eq(s, "gt") {
        Some(FilterOp::Gt)
    } else if str_eq(s, "gte") {
        Some(FilterOp::Gte)
    } else if str_eq(s, "contains") {
        Some(FilterOp::Contains)
    } else if str_eq(s, "startsWith") {
        Some(FilterOp::StartsWith)
    } else if str_eq(s, "endsWith") {
        Some(FilterOp::EndsWith)
    } else if str_eq(s, "isNull") {
        Some(FilterOp::IsNull)
    } else if str_eq(s, "isNotNull") {
        Some(FilterOp::IsNotNull)
    } else if str_eq(s, "has") {
        Some(FilterOp::Has)
    } else if str_eq(s, "hasEvery") {
        Some(FilterOp::HasEvery)
    } else if str_eq(s, "hasSome") {
        Some(FilterOp::HasSome)
    } else if str_eq(s, "isEmpty") {
        Some(FilterOp::IsEmpty)
    } else {
        None
    }
}

/// An operator's wire name parses back to that operator.
pub proof fn lemma_op_name_parses(op: FilterOp)
    ensures
        spec_parse_op(spec_op_name(op)) == Some(op),
{
    reveal_strlit("equals");
    reveal_strlit("not");
    reveal_strlit("in");
    reveal_strlit("notIn");
    reveal_strlit("lt");
    reveal_strlit("lte");
    reveal_strlit("gt");
    reveal_strlit("gte");
    reveal_strlit("contains");
    reveal_strlit("startsWith");
    reveal_strlit("endsWith");
    reveal_strlit("isNull");
    reveal_strlit("isNotNull");
    reveal_strlit("has");
    reveal_strlit("hasEvery");
    reveal_strlit("hasSome");
    reveal_strlit("isEmpty");
    assert("equals"@.len() == 6 && "equals"@[0] == 'e');
    assert("not"@.len() == 3 && "not"@[0] == 'n');
    assert("in"@.len() == 2 && "in"@[0] == 'i');
    assert("notIn"@.len() == 5 && "notIn"@[0] == 'n');
    assert("lt"@.len() == 2 && "lt"@[0] == 'l');
    assert("lte"@.len() == 3 && "lte"@[0] == 'l');
    assert("gt"@.len() == 2 && "gt"@[0] == 'g');
    assert("gte"@.len() == 3 && "gte"@[0] == 'g');
    assert("contains"@.len() == 8 && "contains"@[0] == 'c');
    assert("startsWith"@.len() == 10 && "startsWith"@[0] == 's');
    assert("endsWith"@.len() == 8 && "endsWith"@[0] == 'e');
    assert("isNull"@.len() == 6 && "isNull"@[0] == 'i');
    assert("isNotNull"@.len() == 9 && "isNotNull"@[0] == 'i');
    assert("has"@.len() == 3 && "has"@[0] == 'h');
    assert("hasEvery"@.len() == 8 && "hasEvery"@[0] == 'h');
    assert("hasSome"@.len() == 7 && "hasSome"@[0] == 'h');
    assert("isEmpty"@.len() == 7 && "isEmpty"@[0] == 'i');
    match op {
        FilterOp::Equals => assert(spec_parse_op(spec_op_name(op)) == Some(FilterOp::Equals)),
        FilterOp::NotEquals => assert(spec_parse_op(spec_op_name(op)) == Some(
            FilterOp::NotEquals,
        )),
        FilterOp::InSet => assert(spec_parse_op(spec_op_name(op)) == Some(FilterOp::InSet)),
        FilterOp::NotInSet => assert(spec_parse_op(spec_op_name(op)) == Some(FilterOp::NotInSet)),
        FilterOp::Lt => assert(spec_parse_op(spec_op_name(op)) == Some(FilterOp::Lt)),
        FilterOp::Lte => assert(spec_parse_op(spec_op_name(op)) == Some(FilterOp::Lte)),
        FilterOp::Gt => assert(spec_parse_op(spec_op_name(op)) == Some(FilterOp::Gt)),
        FilterOp::Gte => assert(spec_parse_op(spec_op_name(op)) == Some(FilterOp::Gte)),
        FilterOp::Contains => assert(spec_parse_op(spec_op_name(op)) == Some(FilterOp::Contains)),
        FilterOp::StartsWith => assert(spec_parse_op(spec_op_name(op)) == Some(
            FilterOp::StartsWith,
        )),
        FilterOp::EndsWith => assert(spec_parse_op(spec_op_name(op)) == Some(FilterOp::EndsWith)),
        FilterOp::IsNull => assert(spec_parse_op(spec_op_name(op)) == Some(FilterOp::IsNull)),
        FilterOp::IsNotNull => assert(spec_parse_op(spec_op_name(op)) == Some(
            FilterOp::IsNotNull,
        )),
        FilterOp::Has => assert(spec_parse_op(spec_op_name(op)) == Some(FilterOp::Has)),
        FilterOp::HasEvery => assert(spec_parse_op(spec_op_name(op)) == Some(FilterOp::HasEvery)),
        FilterOp::HasSome => assert(spec_parse_op(spec_op_name(op)) == Some(FilterOp::HasSome)),
        FilterOp::IsEmpty => assert(spec_parse_op(spec_op_name(op)) == Some(FilterOp::IsEmpty)),
    }
}

/// Wire name of a relation quantifier.
pub open spec fn spec_quantifier_name(q: RelationQuantifier) -> Seq<char> {
    match q {
        RelationQuantifier::SomeRelated => "some"@,
        RelationQuantifier::EveryRelated => "every"@,
        RelationQuantifier::NoneRelated => "none"@,
    }
}

/// Wire name of a relation quantifier.
pub fn quantifier_name(q: RelationQuantifier) -> (r: &'static str)
    ensures
        r@ == spec_quantifier_name(q),
{
    match q {
        RelationQuantifier::SomeRelated => "some",
        RelationQuantifier::EveryRelated => "every",
        RelationQuantifier::NoneRelated => "none",
    }
}

/// The relation quantifier whose wire name is the given string, if any.
pub open spec fn spec_parse_quantifier(s: Seq<char>) -> Option<RelationQuantifier> {
    if s == "some"@ {
        Some(RelationQuantifier::SomeRelated)
    } else if s == "every"@ {
        Some(RelationQuantifier::EveryRelated)
    } else if s == "none"@ {
        Some(RelationQuantifier::NoneRelated)
    } else {
        None
    }
}

/// Recognizes the wire name of a relation quantifier.
pub fn parse_quantifier(s: &str) -> (r: Option<RelationQuantifier>)
    ensures
        r == spec_parse_quantifier(s@),
{
    if str_eq(s, "some") {
        Some(RelationQuantifier::SomeRelated)
    } else if str_eq(s, "every") {
        Some(RelationQuantifier::EveryRelated)
    } else if str_eq(s, "none") {
        Some(RelationQuantifier::NoneRelated)
    } else {
        None
    }
}

/// A quantifier's wire name parses back to that quantifier.
pub proof fn lemma_quantifier_name_parses(q: RelationQuantifier)
    ensures
        spec_parse_quantifier(spec_quantifier_name(q)) == Some(q),
{
    reveal_strlit("some");
    reveal_strlit("every");
    reveal_strlit("none");
    assert("some"@.len() == 4 && "some"@[0] == 's');
    assert("every"@.len() == 5 && "every"@[0] == 'e');
    assert("none"@.len() == 4 && "none"@[0] == 'n');
    match q {
        RelationQuantifier::SomeRelated => assert(spec_parse_quantifier(spec_quantifier_name(q))
            == Some(RelationQuantifier::SomeRelated)),
        RelationQuantifier::EveryRelated => assert(spec_parse_quantifier(spec_quantifier_name(q))
            == Some(RelationQuantifier::EveryRelated)),
        RelationQuantifier::NoneRelated => assert(spec_parse_quantifier(spec_quantifier_name(q))
            == Some(RelationQuantifier::NoneRelated)),
    }
}

/// A runtime value compared against a field. Optional fields that are absent
/// carry the distinguished `Null` sentinel, never a default of the field's
/// type. Values of float-kinded fields are carried in decimal text form.
#[derive(Debug, PartialEq)]
pub enum Value {
    Text(String),
    IntValue(i64),
    BoolValue(bool),
    DateTimeValue(String),
    BytesValue(Vec<u8>),
    JsonValue(String),
    EnumValue(String),
    DecimalValue(String),
    Null,
    ValueList(Vec<Value>),
}

/// Mathematical model of a runtime value.
pub enum ValueModel {
    MText(Seq<char>),
    MInt(int),
    MBool(bool),
    MDateTime(Seq<char>),
    MBytes(Seq<u8>),
    MJson(Seq<char>),
    MEnum(Seq<char>),
    MDecimal(Seq<char>),
    MNull,
    MList(Seq<ValueModel>),
}

/// Models of the values in a list, in order.
pub open spec fn value_models(vs: &Vec<Value>) -> Seq<ValueModel>
    decreases vs,
{
    Seq::new(
        vs@.len(),
        |i: int|
            if 0 <= i < vs.len() {
                vs[i]@
            } else {
                vstd::pervasive::arbitrary()
            },
    )
}

impl View for Value {
    type V = ValueModel;

    open spec fn view(&self) -> ValueModel
        decreases self,
    {
        match self {
            Value::Text(s) => ValueModel::MText(s@),
            Value::IntValue(n) => ValueModel::MInt(*n as int),
            Value::BoolValue(b) => ValueModel::MBool(*b),
            Value::DateTimeValue(s) => ValueModel::MDateTime(s@),
            Value::BytesValue(bs) => ValueModel::MBytes(bs@),
            Value::JsonValue(s) => ValueModel::MJson(s@),
            Value::EnumValue(s) => ValueModel::MEnum(s@),
            Value::DecimalValue(s) => ValueModel::MDecimal(s@),
            Value::Null => ValueModel::MNull,
            Value::ValueList(vs) => ValueModel::MList(value_models(vs)),
        }
    }
}

/// A filter predicate: one field compared by an operator against a value, or
/// a quantifier over a related entity's rows constrained by nested
/// predicates. Each predicate is a finite tree fixed at construction, so
/// nesting through cyclic relation graphs terminates by construction.
#[derive(Debug, PartialEq)]
pub enum FilterPredicate {
    Comparison { field: String, op: FilterOp, value: Value },
    RelationFilter { field: String, quantifier: RelationQuantifier, nested: Vec<FilterPredicate> },
}

/// Mathematical model of a filter predicate.
pub enum PredModel {
    MComparison { field: Seq<char>, op: FilterOp, value: ValueModel },
    MRelation { field: Seq<char>, quantifier: RelationQuantifier, nested: Seq<PredModel> },
}

/// Models of the predicates in a list, in order.
pub open spec fn pred_models(ps: &Vec<FilterPredicate>) -> Seq<PredModel>
    decreases ps,
{
    Seq::new(
        ps@.len(),
        |i: int|
            if 0 <= i < ps.len() {
                ps[i]@
            } else {
                vstd::pervasive::arbitrary()
            },
    )
}

/// Length and elements of the model of a predicate list.
pub proof fn lemma_pred_models_index(ps: &Vec<FilterPredicate>)
    ensures
        pred_models(ps).len() == ps@.len(),
        forall|j: int| 0 <= j < ps@.len() ==> pred_models(ps)[j] == ps@[j]@,
{
}

impl View for FilterPredicate {
    type V = PredModel;

    open spec fn view(&self) -> PredModel
        decreases self,
    {
        match self {
            FilterPredicate::Comparison { field, op, value } => PredModel::MComparison {
                field: field@,
                op: *op,
                value: value@,
            },
            FilterPredicate::RelationFilter { field, quantifier, nested } => PredModel::MRelation {
                field: field@,
                quantifier: *quantifier,
                nested: pred_models(nested),
            },
        }
    }
}

} // verus!
