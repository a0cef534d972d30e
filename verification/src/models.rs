//! ModelCompiler: for each entity, the generated builder surface — its data
//! declaration, a create constructor taking exactly the required fields
//! without a default, the typed action builders, a scalar field-selection
//! type, and one accessor per relation. Unrecognized field kinds and
//! relations whose target entity is missing abort compilation with no
//! artifact emitted.

use vstd::prelude::*;
use vstd::string::{StrSliceExecFns, StringExecFns};
use crate::model::{
    DataModel, DataModelModel, Entity, EntityModel, Field, FieldModel, RelationModel,
    spec_type_class, spec_has_entity, type_class, has_entity,
};
use crate::text::{concat3, concat5, line_views, push_line};
use crate::Error;

verus! {

/// The fields a create constructor takes, in declaration order: exactly the
/// entity's required fields that carry no default.
pub open spec fn spec_create_inputs(fields: Seq<FieldModel>) -> Seq<FieldModel>
    decreases fields.len(),
{
    if fields.len() == 0 {
        Seq::empty()
    } else {
        let rest = spec_create_inputs(fields.drop_last());
        let f = fields.last();
        if f.required && !f.has_default {
            rest.push(f)
        } else {
            rest
        }
    }
}

/// How many of an entity's fields are required without a default.
pub open spec fn spec_required_count(fields: Seq<FieldModel>) -> int
    decreases fields.len(),
{
    if fields.len() == 0 {
        0int
    } else {
        spec_required_count(fields.drop_last()) + if fields.last().required
            && !fields.last().has_default {
            1int
        } else {
            0int
        }
    }
}

/// The create constructor takes exactly the required-without-default fields:
/// it has one positional input per such field, every input is such a field,
/// and every such field of the entity is an input.
pub proof fn lemma_create_inputs_exact(fields: Seq<FieldModel>)
    ensures
        spec_create_inputs(fields).len() == spec_required_count(fields),
        forall|i: int|
            0 <= i < spec_create_inputs(fields).len() ==> (#[trigger] spec_create_inputs(
                fields,
            )[i]).required && !spec_create_inputs(fields)[i].has_default,
        forall|j: int|
            0 <= j < fields.len() && (#[trigger] fields[j]).required && !fields[j].has_default
                ==> spec_create_inputs(fields).contains(fields[j]),
    decreases fields.len(),
{
    if fields.len() > 0 {
        lemma_create_inputs_exact(fields.drop_last());
        let rest = spec_create_inputs(fields.drop_last());
        assert forall|j: int|
            0 <= j < fields.len() && (#[trigger] fields[j]).required && !fields[j].has_default
                implies spec_create_inputs(fields).contains(fields[j]) by {
            if j < fields.len() - 1 {
                assert(fields.drop_last()[j] == fields[j]);
                assert(rest.contains(fields[j]));
                let k = choose|k: int| 0 <= k < rest.len() && rest[k] == fields[j];
                assert(spec_create_inputs(fields)[k] == fields[j]);
            } else {
                assert(spec_create_inputs(fields).last() == fields[j]);
            }
        }
    }
}

/// The declared type of a field: its schema-level kind name, wrapped for
/// list cardinality or optionality.
pub open spec fn spec_field_type_text(f: FieldModel) -> Seq<char> {
    if f.is_list {
        "Vec<"@ + f.kind_name + ">"@
    } else if !f.required {
        "Option<"@ + f.kind_name + ">"@
    } else {
        f.kind_name
    }
}

/// The declared type of a field.
pub fn field_type_text(f: &Field) -> (r: String)
    ensures
        r@ == spec_field_type_text(f@),
{
    if f.is_list {
        concat3("Vec<", f.kind_name.as_str(), ">")
    } else if !f.required {
        concat3("Option<", f.kind_name.as_str(), ">")
    } else {
        f.kind_name.as_str().to_owned()
    }
}

/// The positional parameter list of an entity's create constructor, in
/// field declaration order.
pub open spec fn spec_params_text(inputs: Seq<FieldModel>) -> Seq<char>
    decreases inputs.len(),
{
    if inputs.len() == 0 {
        Seq::empty()
    } else {
        spec_params_text(inputs.drop_last()) + (if inputs.len() == 1 {
            Seq::empty()
        } else {
            ", "@
        }) + inputs.last().name + ": "@ + spec_field_type_text(inputs.last())
    }
}

/// One field declaration line.
pub open spec fn field_decl_line(f: FieldModel) -> Seq<char> {
    "    pub "@ + f.name + ": "@ + spec_field_type_text(f) + ","@
}

/// The field declaration lines of an entity, in order.
pub open spec fn field_lines(fields: Seq<FieldModel>) -> Seq<Seq<char>>
    decreases fields.len(),
{
    if fields.len() == 0 {
        Seq::empty()
    } else {
        field_lines(fields.drop_last()).push(field_decl_line(fields.last()))
    }
}

/// The scalar field-selection variant lines of an entity, in order.
pub open spec fn selection_lines(fields: Seq<FieldModel>) -> Seq<Seq<char>>
    decreases fields.len(),
{
    if fields.len() == 0 {
        Seq::empty()
    } else {
        selection_lines(fields.drop_last()).push("    "@ + fields.last().name + ","@)
    }
}

/// The relation accessor lines of an entity, in order.
pub open spec fn relation_lines(rels: Seq<RelationModel>) -> Seq<Seq<char>>
    decreases rels.len(),
{
    if rels.len() == 0 {
        Seq::empty()
    } else {
        let r = rels.last();
        relation_lines(rels.drop_last()).push(
            "pub fn "@ + r.name + "() -> "@ + r.target + "Relation;"@,
        )
    }
}

/// The create line of an entity.
pub open spec fn create_line(e: EntityModel, path: Seq<char>) -> Seq<char> {
    "pub fn create("@ + spec_params_text(spec_create_inputs(e.fields)) + ") -> "@ + path + "::"@
        + e.name + "Create;"@
}

/// The typed action builder lines of an entity, each returning a builder
/// type rooted under the host-supplied module path.
pub open spec fn action_lines(e: EntityModel, path: Seq<char>) -> Seq<Seq<char>> {
    seq![
        create_line(e, path),
        "pub fn find_unique(filter: UniqueFilter) -> "@ + path + "::"@ + e.name + "FindUnique;"@,
        "pub fn find_many(filter: Filter) -> "@ + path + "::"@ + e.name + "FindMany;"@,
        "pub fn update(filter: UniqueFilter) -> "@ + path + "::"@ + e.name + "Update;"@,
        "pub fn delete(filter: UniqueFilter) -> "@ + path + "::"@ + e.name + "Delete;"@,
        "pub fn upsert(filter: UniqueFilter) -> "@ + path + "::"@ + e.name + "Upsert;"@,
    ]
}

/// Every generated line of one entity: the data declaration, the create
/// constructor and action builders, the field-selection type, and the
/// relation accessors.
pub open spec fn entity_lines(e: EntityModel, path: Seq<char>) -> Seq<Seq<char>> {
    seq!["pub struct "@ + e.name + " {"@] + field_lines(e.fields) + seq!["}"@] + action_lines(
        e,
        path,
    ) + seq!["pub enum "@ + e.name + "ScalarField {"@] + selection_lines(e.fields) + seq!["}"@]
        + relation_lines(e.relations)
}

/// The generated lines of all entities, in schema order.
pub open spec fn models_lines(entities: Seq<EntityModel>, path: Seq<char>) -> Seq<Seq<char>>
    decreases entities.len(),
{
    if entities.len() == 0 {
        Seq::empty()
    } else {
        models_lines(entities.drop_last(), path) + entity_lines(entities.last(), path)
    }
}

/// Whether some field of the schema has a kind that is neither a recognized
/// scalar nor a schema-defined enumeration.
pub open spec fn spec_has_unknown_field(dm: DataModelModel) -> bool {
    exists|i: int, j: int|
        0 <= i < dm.entities.len() && 0 <= j < dm.entities[i].fields.len() && spec_type_class(
            dm,
            dm.entities[i].fields[j].kind_name,
        ) is None
}

/// Whether some relation of the schema points at an entity the schema does
/// not define.
pub open spec fn spec_has_dangling_relation(dm: DataModelModel) -> bool {
    exists|i: int, j: int|
        0 <= i < dm.entities.len() && 0 <= j < dm.entities[i].relations.len() && !spec_has_entity(
            dm,
            dm.entities[i].relations[j].target,
        )
}

/// The create constructor's parameter text for one entity.
#[verifier::loop_isolation(false)]
fn create_params(e: &Entity) -> (r: String)
    ensures
        r@ == spec_params_text(spec_create_inputs(e@.fields)),
{
    let mut s = String::new();
    let mut first: bool = true;
    let mut i: usize = 0;
    while i < e.fields.len()
        invariant
            0 <= i <= e.fields@.len(),
            first <==> spec_create_inputs(e@.fields.subrange(0, i as int)).len() == 0,
            s@ == spec_params_text(spec_create_inputs(e@.fields.subrange(0, i as int))),
        decreases e.fields@.len() - i,
    {
        let f = &e.fields[i];
        proof {
            let fs = e@.fields;
            assert(fs.subrange(0, i + 1).drop_last() =~= fs.subrange(0, i as int));
            assert(fs.subrange(0, i + 1).last() == fs[i as int]);
            assert(fs[i as int] == e.fields@[i as int]@);
        }
        if f.required && !f.has_default {
            let ty = field_type_text(f);
            if !first {
                s.append(", ");
            }
            s.append(f.name.as_str());
            s.append(": ");
            s.append(ty.as_str());
            proof {
                let inputs = spec_create_inputs(e@.fields.subrange(0, i + 1));
                assert(inputs.drop_last() == spec_create_inputs(e@.fields.subrange(0, i as int)));
                assert(s@ =~= spec_params_text(inputs));
            }
            first = false;
        }
        i += 1;
    }
    proof {
        assert(e@.fields.subrange(0, e.fields@.len() as int) =~= e@.fields);
    }
    s
}

/// Emits every generated line of one entity.
#[verifier::loop_isolation(false)]
fn emit_entity(e: &Entity, path: &str, out: &mut Vec<String>)
    ensures
        line_views(final(out)@) == line_views(old(out)@) + entity_lines(e@, path@),
{
    let ghost base = line_views(old(out)@);
    push_line(out, concat3("pub struct ", e.name.as_str(), " {"));
    let ghost head = base.push("pub struct "@ + e@.name + " {"@);
    let mut i: usize = 0;
    while i < e.fields.len()
        invariant
            0 <= i <= e.fields@.len(),
            line_views(out@) == head + field_lines(e@.fields.subrange(0, i as int)),
        decreases e.fields@.len() - i,
    {
        let f = &e.fields[i];
        let ty = field_type_text(f);
        push_line(out, concat5("    pub ", f.name.as_str(), ": ", ty.as_str(), ","));
        proof {
            let fs = e@.fields;
            assert(fs.subrange(0, i + 1).drop_last() =~= fs.subrange(0, i as int));
            assert(fs.subrange(0, i + 1).last() == fs[i as int]);
            assert(fs[i as int] == e.fields@[i as int]@);
            assert(line_views(out@) =~= head + field_lines(fs.subrange(0, i + 1)));
        }
        i += 1;
    }
    proof {
        assert(e@.fields.subrange(0, e.fields@.len() as int) =~= e@.fields);
    }
    push_line(out, "}".to_owned());
    let params = create_params(e);
    let mut cl = "pub fn create(".to_owned();
    cl.append(params.as_str());
    cl.append(") -> ");
    cl.append(path);
    cl.append("::");
    cl.append(e.name.as_str());
    cl.append("Create;");
    proof {
        assert(cl@ == create_line(e@, path@));
    }
    push_line(out, cl);
    push_line(
        out,
        concat5(
            "pub fn find_unique(filter: UniqueFilter) -> ",
            path,
            "::",
            e.name.as_str(),
            "FindUnique;",
        ),
    );
    push_line(
        out,
        concat5("pub fn find_many(filter: Filter) -> ", path, "::", e.name.as_str(), "FindMany;"),
    );
    push_line(
        out,
        concat5("pub fn update(filter: UniqueFilter) -> ", path, "::", e.name.as_str(), "Update;"),
    );
    push_line(
        out,
        concat5("pub fn delete(filter: UniqueFilter) -> ", path, "::", e.name.as_str(), "Delete;"),
    );
    push_line(
        out,
        concat5("pub fn upsert(filter: UniqueFilter) -> ", path, "::", e.name.as_str(), "Upsert;"),
    );
    push_line(out, concat3("pub enum ", e.name.as_str(), "ScalarField {"));
    let ghost mid = line_views(out@);
    let mut j: usize = 0;
    while j < e.fields.len()
        invariant
            0 <= j <= e.fields@.len(),
            line_views(out@) == mid + selection_lines(e@.fields.subrange(0, j as int)),
        decreases e.fields@.len() - j,
    {
        push_line(out, concat3("    ", e.fields[j].name.as_str(), ","));
        proof {
            let fs = e@.fields;
            assert(fs.subrange(0, j + 1).drop_last() =~= fs.subrange(0, j as int));
            assert(fs.subrange(0, j + 1).last() == fs[j as int]);
            assert(fs[j as int] == e.fields@[j as int]@);
            assert(line_views(out@) =~= mid + selection_lines(fs.subrange(0, j + 1)));
        }
        j += 1;
    }
    push_line(out, "}".to_owned());
    let ghost tail = line_views(out@);
    let mut k: usize = 0;
    while k < e.relations.len()
        invariant
            0 <= k <= e.relations@.len(),
            line_views(out@) == tail + relation_lines(e@.relations.subrange(0, k as int)),
        decreases e.relations@.len() - k,
    {
        let r = &e.relations[k];
        push_line(out, concat5("pub fn ", r.name.as_str(), "() -> ", r.target.as_str(), "Relation;"));
        proof {
            let rs = e@.relations;
            assert(rs.subrange(0, k + 1).drop_last() =~= rs.subrange(0, k as int));
            assert(rs.subrange(0, k + 1).last() == rs[k as int]);
            assert(rs[k as int] == e.relations@[k as int]@);
            assert(line_views(out@) =~= tail + relation_lines(rs.subrange(0, k + 1)));
        }
        k += 1;
    }
    proof {
        assert(e@.fields.subrange(0, e.fields@.len() as int) =~= e@.fields);
        assert(e@.relations.subrange(0, e.relations@.len() as int) =~= e@.relations);
        assert(line_views(out@) =~= base + entity_lines(e@, path@));
    }
}

/// Checks every field kind and every relation target of the schema, then
/// emits the generated lines of every entity. On an unrecognized field kind
/// or a dangling relation, compilation aborts and nothing is emitted.
#[verifier::loop_isolation(false)]
pub fn generate(dm: &DataModel, path: &str, out: &mut Vec<String>) -> (r: Result<(), Error>)
    ensures
        r == Err::<(), Error>(Error::UnsupportedFieldKind) <==> spec_has_unknown_field(dm@),
        r == Err::<(), Error>(Error::DanglingRelation) <==> (!spec_has_unknown_field(dm@)
            && spec_has_dangling_relation(dm@)),
        r is Ok <==> (!spec_has_unknown_field(dm@) && !spec_has_dangling_relation(dm@)),
        r is Err ==> final(out)@ == old(out)@,
        r is Ok ==> line_views(final(out)@) == line_views(old(out)@) + models_lines(
            dm@.entities,
            path@,
        ),
{
    let mut i: usize = 0;
    while i < dm.entities.len()
        invariant
            0 <= i <= dm.entities@.len(),
            out@ == old(out)@,
            forall|a: int, b: int|
                0 <= a < i && 0 <= b < dm@.entities[a].fields.len() ==> !(spec_type_class(
                    dm@,
                    #[trigger] dm@.entities[a].fields[b].kind_name,
                ) is None),
        decreases dm.entities@.len() - i,
    {
        let e = &dm.entities[i];
        let mut j: usize = 0;
        while j < e.fields.len()
            invariant
                0 <= j <= e.fields@.len(),
                e == &dm.entities[i as int],
                0 <= i < dm.entities@.len(),
                out@ == old(out)@,
                forall|b: int|
                    0 <= b < j ==> !(spec_type_class(
                        dm@,
                        #[trigger] dm@.entities[i as int].fields[b].kind_name,
                    ) is None),
            decreases e.fields@.len() - j,
        {
            if type_class(dm, e.fields[j].kind_name.as_str()).is_none() {
                proof {
                    assert(dm@.entities[i as int].fields[j as int].kind_name
                        == e.fields@[j as int]@.kind_name);
                    assert(spec_has_unknown_field(dm@));
                }
                return Err(Error::UnsupportedFieldKind);
            }
            proof {
                assert(dm@.entities[i as int].fields[j as int].kind_name == e.fields@[
                    j as int
                ]@.kind_name);
            }
            j += 1;
        }
        i += 1;
    }
    proof {
        assert(!spec_has_unknown_field(dm@));
    }
    let mut i2: usize = 0;
    while i2 < dm.entities.len()
        invariant
            0 <= i2 <= dm.entities@.len(),
            out@ == old(out)@,
            forall|a: int, b: int|
                0 <= a < i2 && 0 <= b < dm@.entities[a].relations.len() ==> spec_has_entity(
                    dm@,
                    #[trigger] dm@.entities[a].relations[b].target,
                ),
        decreases dm.entities@.len() - i2,
    {
        let e = &dm.entities[i2];
        let mut j: usize = 0;
        while j < e.relations.len()
            invariant
                0 <= j <= e.relations@.len(),
                e == &dm.entities[i2 as int],
                0 <= i2 < dm.entities@.len(),
                out@ == old(out)@,
                forall|b: int|
                    0 <= b < j ==> spec_has_entity(
                        dm@,
                        #[trigger] dm@.entities[i2 as int].relations[b].target,
                    ),
            decreases e.relations@.len() - j,
        {
            if !has_entity(dm, e.relations[j].target.as_str()) {
                proof {
                    assert(dm@.entities[i2 as int].relations[j as int].target == e.relations@[
                        j as int
                    ]@.target);
                    assert(spec_has_dangling_relation(dm@));
                }
                return Err(Error::DanglingRelation);
            }
            proof {
                assert(dm@.entities[i2 as int].relations[j as int].target == e.relations@[
                    j as int
                ]@.target);
            }
            j += 1;
        }
        i2 += 1;
    }
    proof {
        assert(!spec_has_dangling_relation(dm@));
    }
    let ghost base = line_views(old(out)@);
    let mut k: usize = 0;
    while k < dm.entities.len()
        invariant
            0 <= k <= dm.entities@.len(),
            line_views(out@) == base + models_lines(dm@.entities.subrange(0, k as int), path@),
        decreases dm.entities@.len() - k,
    {
        emit_entity(&dm.entities[k], path, out);
        proof {
            let es = dm@.entities;
            assert(es.subrange(0, k + 1).drop_last() =~= es.subrange(0, k as int));
            assert(es.subrange(0, k + 1).last() == es[k as int]);
            assert(es[k as int] == dm.entities@[k as int]@);
            assert(line_views(out@) =~= base + models_lines(es.subrange(0, k + 1), path@));
        }
        k += 1;
    }
    proof {
        assert(dm@.entities.subrange(0, dm.entities@.len() as int) =~= dm@.entities);
    }
    Ok(())
}

} // verus!
