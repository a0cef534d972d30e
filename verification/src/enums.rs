//! EnumCompiler: one typed enumeration per schema-defined enumeration,
//! variant order preserved.

use vstd::prelude::*;
use crate::model::{EnumDef, EnumDefModel, DataModel};
use crate::text::{concat3, line_views, push_line};

verus! {

/// One indented, comma-closed line per variant, in order.
pub open spec fn variant_lines(vs: Seq<Seq<char>>) -> Seq<Seq<char>>
    decreases vs.len(),
{
    if vs.len() == 0 {
        Seq::empty()
    } else {
        variant_lines(vs.drop_last()).push("    "@ + vs.last() + ","@)
    }
}

/// The declaration lines of one enumeration, variant order preserved.
pub open spec fn enum_lines(e: EnumDefModel) -> Seq<Seq<char>> {
    seq!["pub enum "@ + e.name + " {"@] + variant_lines(e.variants) + seq!["}"@]
}

/// The declaration lines of a list of enumerations, in order.
pub open spec fn enums_lines(defs: Seq<EnumDefModel>) -> Seq<Seq<char>>
    decreases defs.len(),
{
    if defs.len() == 0 {
        Seq::empty()
    } else {
        enums_lines(defs.drop_last()) + enum_lines(defs.last())
    }
}

/// Emits the declaration of one enumeration.
#[verifier::loop_isolation(false)]
pub fn emit_enum(e: &EnumDef, out: &mut Vec<String>)
    ensures
        line_views(final(out)@) == line_views(old(out)@) + enum_lines(e@),
{
    let ghost base = line_views(old(out)@);
    push_line(out, concat3("pub enum ", e.name.as_str(), " {"));
    let ghost head = base.push("pub enum "@ + e@.name + " {"@);
    let mut i: usize = 0;
    while i < e.variants.len()
        invariant
            0 <= i <= e.variants@.len(),
            line_views(out@) == head + variant_lines(e@.variants.subrange(0, i as int)),
        decreases e.variants@.len() - i,
    {
        push_line(out, concat3("    ", e.variants[i].as_str(), ","));
        proof {
            let vs = e@.variants;
            assert(e@.variants[i as int] == e.variants@[i as int]@);
            assert(vs.subrange(0, i + 1).drop_last() =~= vs.subrange(0, i as int));
            assert(vs.subrange(0, i + 1).last() == vs[i as int]);
            assert(line_views(out@) =~= head + variant_lines(vs.subrange(0, i + 1)));
        }
        i += 1;
    }
    push_line(out, "}".to_owned());
    proof {
        assert(e@.variants.subrange(0, e.variants@.len() as int) =~= e@.variants);
        assert(line_views(out@) =~= base + enum_lines(e@));
    }
}

/// Emits the declarations of every schema-defined enumeration, in schema
/// order.
#[verifier::loop_isolation(false)]
pub fn generate(dm: &DataModel, out: &mut Vec<String>)
    ensures
        line_views(final(out)@) == line_views(old(out)@) + enums_lines(dm@.enums),
{
    let ghost base = line_views(old(out)@);
    let mut i: usize = 0;
    while i < dm.enums.len()
        invariant
            0 <= i <= dm.enums@.len(),
            line_views(out@) == base + enums_lines(dm@.enums.subrange(0, i as int)),
        decreases dm.enums@.len() - i,
    {
        emit_enum(&dm.enums[i], out);
        proof {
            let ds = dm@.enums;
            assert(ds[i as int] == dm.enums@[i as int]@);
            assert(ds.subrange(0, i + 1).drop_last() =~= ds.subrange(0, i as int));
            assert(ds.subrange(0, i + 1).last() == ds[i as int]);
            assert(line_views(out@) =~= base + enums_lines(ds.subrange(0, i + 1)));
        }
        i += 1;
    }
    proof {
        assert(dm@.enums.subrange(0, dm.enums@.len() as int) =~= dm@.enums);
    }
}

} // verus!
