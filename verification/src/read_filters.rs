//! FilterCompiler output: for each recognized scalar kind, the typed filter
//! enumerations listing exactly the operators that a single field of that
//! kind admits, in its required and in its optional (nullable) form.

use vstd::prelude::*;
use crate::filters::{ScalarKind, FieldTypeClass, FilterOp, filter_ops, op_name, spec_op_name,
    spec_filter_ops};
use crate::text::{concat4, concat3, line_views, push_line};

verus! {

/// The schema-level label of a scalar kind, as it names the filter types.
pub open spec fn spec_kind_label(k: ScalarKind) -> Seq<char> {
    match k {
        ScalarKind::Text => "String"@,
        ScalarKind::Integer => "Int"@,
        ScalarKind::Float => "Float"@,
        ScalarKind::Boolean => "Boolean"@,
        ScalarKind::DateTime => "DateTime"@,
        ScalarKind::Bytes => "Bytes"@,
        ScalarKind::Json => "Json"@,
    }
}

/// The schema-level label of a scalar kind.
pub fn kind_label(k: ScalarKind) -> (r: &'static str)
    ensures
        r@ == spec_kind_label(k),
{
    match k {
        ScalarKind::Text => "String",
        ScalarKind::Integer => "Int",
        ScalarKind::Float => "Float",
        ScalarKind::Boolean => "Boolean",
        ScalarKind::DateTime => "DateTime",
        ScalarKind::Bytes => "Bytes",
        ScalarKind::Json => "Json",
    }
}

/// One indented, comma-closed line per operator, in order.
pub open spec fn op_lines(ops: Seq<FilterOp>) -> Seq<Seq<char>>
    decreases ops.len(),
{
    if ops.len() == 0 {
        Seq::empty()
    } else {
        op_lines(ops.drop_last()).push("    "@ + spec_op_name(ops.last()) + ","@)
    }
}

/// The declaration lines of one filter enumeration.
pub open spec fn filter_block_lines(label: Seq<char>, suffix: Seq<char>, ops: Seq<FilterOp>) -> Seq<
    Seq<char>,
> {
    seq!["pub enum "@ + label + suffix + " {"@] + op_lines(ops) + seq!["}"@]
}

/// The filter enumerations of one scalar kind: the closed operator family of
/// a required single field, then of an optional one, which alone admits the
/// null tests.
pub open spec fn kind_filter_lines(k: ScalarKind) -> Seq<Seq<char>> {
    filter_block_lines(
        spec_kind_label(k),
        "Filter"@,
        spec_filter_ops(FieldTypeClass::Scalar(k), false, false),
    ) + filter_block_lines(
        spec_kind_label(k),
        "NullableFilter"@,
        spec_filter_ops(FieldTypeClass::Scalar(k), false, true),
    )
}

/// The whole read-filters module: one pair of filter enumerations per
/// recognized scalar kind.
pub open spec fn spec_read_filters_lines() -> Seq<Seq<char>> {
    seq!["pub mod read_filters {"@] + kind_filter_lines(ScalarKind::Text) + kind_filter_lines(
        ScalarKind::Integer,
    ) + kind_filter_lines(ScalarKind::Float) + kind_filter_lines(ScalarKind::Boolean)
        + kind_filter_lines(ScalarKind::DateTime) + kind_filter_lines(ScalarKind::Bytes)
        + kind_filter_lines(ScalarKind::Json) + seq!["}"@]
}

/// Emits one filter enumeration.
#[verifier::loop_isolation(false)]
fn emit_filter_block(label: &'static str, suffix: &'static str, ops: &Vec<FilterOp>, out: &mut Vec<
    String,
>)
    ensures
        line_views(final(out)@) == line_views(old(out)@) + filter_block_lines(
            label@,
            suffix@,
            ops@,
        ),
{
    let ghost base = line_views(old(out)@);
    push_line(out, concat4("pub enum ", label, suffix, " {"));
    let ghost head = base.push("pub enum "@ + label@ + suffix@ + " {"@);
    let mut i: usize = 0;
    while i < ops.len()
        invariant
            0 <= i <= ops@.len(),
            line_views(out@) == head + op_lines(ops@.subrange(0, i as int)),
        decreases ops@.len() - i,
    {
        push_line(out, concat3("    ", op_name(ops[i]), ","));
        proof {
            assert(ops@.subrange(0, i + 1).drop_last() =~= ops@.subrange(0, i as int));
            assert(ops@.subrange(0, i + 1).last() == ops@[i as int]);
            assert(line_views(out@) =~= head + op_lines(ops@.subrange(0, i + 1)));
        }
        i += 1;
    }
    push_line(out, "}".to_owned());
    proof {
        assert(ops@.subrange(0, ops@.len() as int) =~= ops@);
        assert(line_views(out@) =~= base + filter_block_lines(label@, suffix@, ops@));
    }
}

/// Emits the two filter enumerations of one scalar kind.
fn emit_kind_filters(k: ScalarKind, out: &mut Vec<String>)
    ensures
        line_views(final(out)@) == line_views(old(out)@) + kind_filter_lines(k),
{
    let ghost base = line_views(old(out)@);
    let required_ops = filter_ops(FieldTypeClass::Scalar(k), false, false);
    emit_filter_block(kind_label(k), "Filter", &required_ops, out);
    let nullable_ops = filter_ops(FieldTypeClass::Scalar(k), false, true);
    emit_filter_block(kind_label(k), "NullableFilter", &nullable_ops, out);
    proof {
        assert(line_views(out@) =~= base + kind_filter_lines(k));
    }
}

/// Emits the read-filters module.
pub fn generate_module(out: &mut Vec<String>)
    ensures
        line_views(final(out)@) == line_views(old(out)@) + spec_read_filters_lines(),
{
    let ghost base = line_views(old(out)@);
    push_line(out, "pub mod read_filters {".to_owned());
    emit_kind_filters(ScalarKind::Text, out);
    emit_kind_filters(ScalarKind::Integer, out);
    emit_kind_filters(ScalarKind::Float, out);
    emit_kind_filters(ScalarKind::Boolean, out);
    emit_kind_filters(ScalarKind::DateTime, out);
    emit_kind_filters(ScalarKind::Bytes, out);
    emit_kind_filters(ScalarKind::Json, out);
    push_line(out, "}".to_owned());
    proof {
        assert(line_views(out@) =~= base + spec_read_filters_lines());
    }
}

} // verus!
