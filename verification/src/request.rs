//! The executor boundary's request side: one composed query — action kind,
//! target entity, serialized operator tree and field selection — as the
//! external engine must receive it.

use vstd::prelude::*;
use crate::model::{Entity, names_of};
use crate::operator::{OperatorNode, ComposeError};
use crate::query::{WireNode, serialize_node, spec_ser_node};
use crate::text::str_eq;

verus! {

/// The kind of action a query performs.
#[derive(Clone, Copy, Debug, PartialEq, Eq, Structural)]
pub enum Action {
    FindUnique,
    FindMany,
    Create,
    Update,
    Delete,
    Upsert,
}

/// Which columns and relations of a result are materialized. By default all
/// scalar fields are selected and no relations.
#[derive(Debug, PartialEq)]
pub struct Selection {
    pub fields: Vec<String>,
    pub relations: Vec<String>,
}

/// Mathematical model of a selection.
pub struct SelectionModel {
    pub fields: Seq<Seq<char>>,
    pub relations: Seq<Seq<char>>,
}

impl View for Selection {
    type V = SelectionModel;

    open spec fn view(&self) -> SelectionModel {
        SelectionModel { fields: names_of(self.fields@), relations: names_of(self.relations@) }
    }
}

/// One composed query, as handed to the execution engine.
#[derive(Debug, PartialEq)]
pub struct QueryRequest {
    pub entity: String,
    pub action: Action,
    pub filter: Option<WireNode>,
    pub selection: Selection,
}

/// The default selection of an entity: every field, no relations.
#[verifier::loop_isolation(false)]
pub fn default_selection(e: &Entity) -> (r: Selection)
    ensures
        r@.fields.len() == e@.fields.len(),
        forall|i: int| 0 <= i < e@.fields.len() ==> r@.fields[i] == e@.fields[i].name,
        r@.relations.len() == 0,
{
    let mut fields: Vec<String> = Vec::new();
    let mut i: usize = 0;
    while i < e.fields.len()
        invariant
            0 <= i <= e.fields@.len(),
            fields@.len() == i,
            forall|j: int| 0 <= j < i ==> fields@[j]@ == e@.fields[j].name,
        decreases e.fields@.len() - i,
    {
        fields.push(e.fields[i].name.as_str().to_owned());
        i += 1;
    }
    Selection { fields, relations: Vec::new() }
}

/// Whether the entity declares a relation of the given name.
pub open spec fn spec_entity_has_relation(e: crate::model::EntityModel, name: Seq<char>) -> bool {
    exists|i: int| 0 <= i < e.relations.len() && e.relations[i].name == name
}

/// Whether every relation the selection names is declared on the entity.
pub open spec fn spec_selection_ok(e: crate::model::EntityModel, s: SelectionModel) -> bool {
    forall|i: int|
        0 <= i < s.relations.len() ==> spec_entity_has_relation(e, #[trigger] s.relations[i])
}

/// Looks for a relation of the given name on the entity.
fn entity_has_relation(e: &Entity, name: &str) -> (r: bool)
    ensures
        r == spec_entity_has_relation(e@, name@),
{
    let mut i: usize = 0;
    while i < e.relations.len()
        invariant
            0 <= i <= e.relations@.len(),
            forall|j: int| 0 <= j < i ==> e@.relations[j].name != name@,
        decreases e.relations@.len() - i,
    {
        if str_eq(e.relations[i].name.as_str(), name) {
            proof {
                assert(e@.relations[i as int].name == name@);
            }
            return true;
        }
        i += 1;
    }
    false
}

/// Rejects a selection that names a relation the entity does not declare.
#[verifier::loop_isolation(false)]
pub fn validate_selection(e: &Entity, s: &Selection) -> (r: Result<(), ComposeError>)
    ensures
        r is Ok <==> spec_selection_ok(e@, s@),
        r is Err ==> r == Err::<(), ComposeError>(ComposeError::MalformedSelection),
{
    let mut i: usize = 0;
    while i < s.relations.len()
        invariant
            0 <= i <= s.relations@.len(),
            forall|j: int|
                0 <= j < i ==> spec_entity_has_relation(e@, #[trigger] s@.relations[j]),
        decreases s.relations@.len() - i,
    {
        if !entity_has_relation(e, s.relations[i].as_str()) {
            proof {
                assert(s@.relations[i as int] == s.relations@[i as int]@);
                assert(!spec_selection_ok(e@, s@));
            }
            return Err(ComposeError::MalformedSelection);
        }
        proof {
            assert(s@.relations[i as int] == s.relations@[i as int]@);
        }
        i += 1;
    }
    Ok(())
}

/// Composes one query for the executor boundary: the selection is checked
/// against the entity, the operator tree is serialized into the wire
/// representation, and the request carries the entity's name and the action
/// unchanged. A selection naming an undeclared relation is a composition
/// error, and no request is built.
pub fn build_request(e: &Entity, action: Action, filter: Option<&OperatorNode>, selection: Selection) -> (r:
    Result<QueryRequest, ComposeError>)
    ensures
        r is Ok <==> spec_selection_ok(e@, selection@),
        r is Err ==> r == Err::<QueryRequest, ComposeError>(ComposeError::MalformedSelection),
        r matches Ok(q) ==> {
            &&& q.entity@ == e@.name
            &&& q.action == action
            &&& q.selection@ == selection@
            &&& (match filter {
                Some(n) => q.filter matches Some(w) && w@ == spec_ser_node(n@),
                None => q.filter is None,
            })
        },
{
    match validate_selection(e, &selection) {
        Ok(()) => {},
        Err(err) => {
            return Err(err);
        },
    }
    let wire = match filter {
        Some(n) => Some(serialize_node(n)),
        None => None,
    };
    Ok(QueryRequest { entity: e.name.as_str().to_owned(), action, filter: wire, selection })
}

} // verus!
