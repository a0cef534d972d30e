//! Internal, schema-independent enumerations that every generated client
//! needs: the sort direction and the query-mode selector. They are emitted
//! once per compilation, whatever the schema's size.

use vstd::prelude::*;
use crate::model::{EnumDef, EnumDefModel};
use crate::enums::{enum_lines, emit_enum};
use crate::text::line_views;

verus! {

/// The sort-direction enumeration.
pub open spec fn sort_order_model() -> EnumDefModel {
    EnumDefModel { name: "SortOrder"@, variants: seq!["Asc"@, "Desc"@] }
}

/// The query-mode enumeration.
pub open spec fn query_mode_model() -> EnumDefModel {
    EnumDefModel { name: "QueryMode"@, variants: seq!["Default"@, "Insensitive"@] }
}

/// The declaration lines of the internal enumerations; they depend on no
/// schema.
pub open spec fn spec_internal_enum_lines() -> Seq<Seq<char>> {
    enum_lines(sort_order_model()) + enum_lines(query_mode_model())
}

/// Emits the internal enumerations, once.
pub fn generate(out: &mut Vec<String>)
    ensures
        line_views(final(out)@) == line_views(old(out)@) + spec_internal_enum_lines(),
{
    let ghost base = line_views(old(out)@);
    let sort_order = EnumDef {
        name: "SortOrder".to_owned(),
        variants: vec!["Asc".to_owned(), "Desc".to_owned()],
    };
    proof {
        assert(sort_order@.variants =~= sort_order_model().variants);
    }
    emit_enum(&sort_order, out);
    let query_mode = EnumDef {
        name: "QueryMode".to_owned(),
        variants: vec!["Default".to_owned(), "Insensitive".to_owned()],
    };
    proof {
        assert(query_mode@.variants =~= query_mode_model().variants);
    }
    emit_enum(&query_mode, out);
    proof {
        assert(line_views(out@) =~= base + spec_internal_enum_lines());
    }
}

} // verus!
