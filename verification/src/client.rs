//! ClientCompiler: the root client type holding shared ownership of the
//! executor boundary, with one accessor per entity, derived from the
//! entity's name.

use vstd::prelude::*;
use crate::model::{DataModel, EntityModel};
use crate::text::{concat5, line_views, push_line};

verus! {

/// The accessor lines, one per entity, in schema order.
pub open spec fn accessor_lines(entities: Seq<EntityModel>) -> Seq<Seq<char>>
    decreases entities.len(),
{
    if entities.len() == 0 {
        Seq::empty()
    } else {
        let e = entities.last();
        accessor_lines(entities.drop_last()).push(
            "pub fn "@ + e.name + "(client: &PrismaClient) -> "@ + e.name + "Actions;"@,
        )
    }
}

/// The generated lines of the root client: the client type owning the
/// executor handle, then one accessor per entity.
pub open spec fn client_lines(entities: Seq<EntityModel>) -> Seq<Seq<char>> {
    seq![
        "pub struct PrismaClient {"@,
        "    pub executor: Executor,"@,
        "}"@,
    ] + accessor_lines(entities)
}

/// Emits the root client type and its per-entity accessors.
#[verifier::loop_isolation(false)]
pub fn generate(dm: &DataModel, out: &mut Vec<String>)
    ensures
        line_views(final(out)@) == line_views(old(out)@) + client_lines(dm@.entities),
{
    let ghost base = line_views(old(out)@);
    push_line(out, "pub struct PrismaClient {".to_owned());
    push_line(out, "    pub executor: Executor,".to_owned());
    push_line(out, "}".to_owned());
    let ghost head = line_views(out@);
    let mut i: usize = 0;
    while i < dm.entities.len()
        invariant
            0 <= i <= dm.entities@.len(),
            line_views(out@) == head + accessor_lines(dm@.entities.subrange(0, i as int)),
        decreases dm.entities@.len() - i,
    {
        let e = &dm.entities[i];
        push_line(
            out,
            concat5("pub fn ", e.name.as_str(), "(client: &PrismaClient) -> ", e.name.as_str(), "Actions;"),
        );
        proof {
            let es = dm@.entities;
            assert(es.subrange(0, i + 1).drop_last() =~= es.subrange(0, i as int));
            assert(es.subrange(0, i + 1).last() == es[i as int]);
            assert(es[i as int] == dm.entities@[i as int]@);
            assert(line_views(out@) =~= head + accessor_lines(es.subrange(0, i + 1)));
        }
        i += 1;
    }
    proof {
        assert(dm@.entities.subrange(0, dm.entities@.len() as int) =~= dm@.entities);
        assert(line_views(out@) =~= base + client_lines(dm@.entities));
    }
}

} // verus!
