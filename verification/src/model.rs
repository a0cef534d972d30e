//! The in-memory representation of a parsed schema: entities with typed
//! fields and relations, and schema-defined enumerations. Produced by an
//! external parser; read-only during compilation.

use vstd::prelude::*;
use crate::filters::{ScalarKind, FieldTypeClass};
use crate::text::str_eq;

verus! {

/// One field of an entity: its name, the schema-level name of its type, its
/// cardinality, optionality and role flags.
#[derive(Debug, PartialEq)]
pub struct Field {
    pub name: String,
    pub kind_name: String,
    pub is_list: bool,
    pub required: bool,
    pub is_id: bool,
    pub is_unique: bool,
    pub has_default: bool,
}

/// Mathematical model of a field.
pub struct FieldModel {
    pub name: Seq<char>,
    pub kind_name: Seq<char>,
    pub is_list: bool,
    pub required: bool,
    pub is_id: bool,
    pub is_unique: bool,
    pub has_default: bool,
}

impl View for Field {
    type V = FieldModel;

    open spec fn view(&self) -> FieldModel {
        FieldModel {
            name: self.name@,
            kind_name: self.kind_name@,
            is_list: self.is_list,
            required: self.required,
            is_id: self.is_id,
            is_unique: self.is_unique,
            has_default: self.has_default,
        }
    }
}

/// A reference from one entity to another (possibly itself), with the key
/// field names used to join the two sides.
#[derive(Debug, PartialEq)]
pub struct Relation {
    pub name: String,
    pub target: String,
    pub is_many: bool,
    pub required: bool,
    pub local_keys: Vec<String>,
    pub foreign_keys: Vec<String>,
}

/// Mathematical model of a relation.
pub struct RelationModel {
    pub name: Seq<char>,
    pub target: Seq<char>,
    pub is_many: bool,
    pub required: bool,
    pub local_keys: Seq<Seq<char>>,
    pub foreign_keys: Seq<Seq<char>>,
}

/// Views of a list of strings, in order.
pub open spec fn names_of(ns: Seq<String>) -> Seq<Seq<char>> {
    Seq::new(ns.len(), |i: int| ns[i]@)
}

impl View for Relation {
    type V = RelationModel;

    open spec fn view(&self) -> RelationModel {
        RelationModel {
            name: self.name@,
            target: self.target@,
            is_many: self.is_many,
            required: self.required,
            local_keys: names_of(self.local_keys@),
            foreign_keys: names_of(self.foreign_keys@),
        }
    }
}

/// One schema entity: its name and its ordered fields and relations.
#[derive(Debug, PartialEq)]
pub struct Entity {
    pub name: String,
    pub fields: Vec<Field>,
    pub relations: Vec<Relation>,
}

/// Mathematical model of an entity.
pub struct EntityModel {
    pub name: Seq<char>,
    pub fields: Seq<FieldModel>,
    pub relations: Seq<RelationModel>,
}

impl View for Entity {
    type V = EntityModel;

    open spec fn view(&self) -> EntityModel {
        EntityModel {
            name: self.name@,
            fields: Seq::new(self.fields@.len(), |i: int| self.fields@[i]@),
            relations: Seq::new(self.relations@.len(), |i: int| self.relations@[i]@),
        }
    }
}

/// One schema-defined enumeration: its name and its ordered, distinct
/// variant names.
#[derive(Debug, PartialEq)]
pub struct EnumDef {
    pub name: String,
    pub variants: Vec<String>,
}

/// Mathematical model of an enumeration.
pub struct EnumDefModel {
    pub name: Seq<char>,
    pub variants: Seq<Seq<char>>,
}

impl View for EnumDef {
    type V = EnumDefModel;

    open spec fn view(&self) -> EnumDefModel {
        EnumDefModel { name: self.name@, variants: names_of(self.variants@) }
    }
}

/// The full parsed schema: all entities and enumerations, keyed by name.
#[derive(Debug, PartialEq)]
pub struct DataModel {
    pub entities: Vec<Entity>,
    pub enums: Vec<EnumDef>,
}

/// Mathematical model of a schema.
pub struct DataModelModel {
    pub entities: Seq<EntityModel>,
    pub enums: Seq<EnumDefModel>,
}

impl View for DataModel {
    type V = DataModelModel;

    open spec fn view(&self) -> DataModelModel {
        DataModelModel {
            entities: Seq::new(self.entities@.len(), |i: int| self.entities@[i]@),
            enums: Seq::new(self.enums@.len(), |i: int| self.enums@[i]@),
        }
    }
}

/// The structural invariants this compiler trusts of parser output: names of
/// entities and enumerations are unique, field names are unique within an
/// entity, identifier fields are never optional, and enum variant names are
/// distinct.
pub open spec fn dm_wf(dm: DataModelModel) -> bool {
    &&& forall|i: int, j: int|
        0 <= i < j < dm.entities.len() ==> dm.entities[i].name != dm.entities[j].name
    &&& forall|i: int, j: int| 0 <= i < j < dm.enums.len() ==> dm.enums[i].name != dm.enums[j].name
    &&& forall|k: int| 0 <= k < dm.entities.len() ==> entity_wf(#[trigger] dm.entities[k])
    &&& forall|k: int, i: int, j: int|
        0 <= k < dm.enums.len() && 0 <= i < j < dm.enums[k].variants.len() ==> dm.enums[k].variants[i]
            != dm.enums[k].variants[j]
}

/// Structural invariants of one entity.
pub open spec fn entity_wf(e: EntityModel) -> bool {
    &&& forall|i: int, j: int| 0 <= i < j < e.fields.len() ==> e.fields[i].name != e.fields[j].name
    &&& forall|i: int| 0 <= i < e.fields.len() ==> ((#[trigger] e.fields[i]).is_id ==> e.fields[i].required)
}

/// The schema-level name of each recognized scalar kind.
pub open spec fn spec_scalar_of(s: Seq<char>) -> Option<ScalarKind> {
    if s == "String"@ {
        Some(ScalarKind::Text)
    } else if s == "Int"@ {
        Some(ScalarKind::Integer)
    } else if s == "Float"@ {
        Some(ScalarKind::Float)
    } else if s == "Boolean"@ {
        Some(ScalarKind::Boolean)
    } else if s == "DateTime"@ {
        Some(ScalarKind::DateTime)
    } else if s == "Bytes"@ {
        Some(ScalarKind::Bytes)
    } else if s == "Json"@ {
        Some(ScalarKind::Json)
    } else {
        None
    }
}

/// Recognizes the schema-level name of a scalar kind.
pub fn scalar_of(s: &str) -> (r: Option<ScalarKind>)
    ensures
        r == spec_scalar_of(s@),
{
    if str_eq(s, "String") {
        Some(ScalarKind::Text)
    } else if str_eq(s, "Int") {
        Some(ScalarKind::Integer)
    } else if str_eq(s, "Float") {
        Some(ScalarKind::Float)
    } else if str_eq(s, "Boolean") {
        Some(ScalarKind::Boolean)
    } else if str_eq(s, "DateTime") {
        Some(ScalarKind::DateTime)
    } else if str_eq(s, "Bytes") {
        Some(ScalarKind::Bytes)
    } else if str_eq(s, "Json") {
        Some(ScalarKind::Json)
    } else {
        None
    }
}

/// Whether the schema defines an enumeration of the given name.
pub open spec fn spec_has_enum(dm: DataModelModel, name: Seq<char>) -> bool {
    exists|i: int| 0 <= i < dm.enums.len() && dm.enums[i].name == name
}

/// Whether the schema defines an entity of the given name.
pub open spec fn spec_has_entity(dm: DataModelModel, name: Seq<char>) -> bool {
    exists|i: int| 0 <= i < dm.entities.len() && dm.entities[i].name == name
}

/// Looks for an enumeration of the given name.
pub fn has_enum(dm: &DataModel, name: &str) -> (r: bool)
    ensures
        r == spec_has_enum(dm@, name@),
{
    let mut i: usize = 0;
    while i < dm.enums.len()
        invariant
            0 <= i <= dm.enums@.len(),
            forall|j: int| 0 <= j < i ==> dm@.enums[j].name != name@,
        decreases dm.enums@.len() - i,
    {
        if str_eq(dm.enums[i].name.as_str(), name) {
            proof {
                assert(dm@.enums[i as int].name == name@);
            }
            return true;
        }
        i += 1;
    }
    false
}

/// Looks for an entity of the given name.
pub fn has_entity(dm: &DataModel, name: &str) -> (r: bool)
    ensures
        r == spec_has_entity(dm@, name@),
{
    let mut i: usize = 0;
    while i < dm.entities.len()
        invariant
            0 <= i <= dm.entities@.len(),
            forall|j: int| 0 <= j < i ==> dm@.entities[j].name != name@,
        decreases dm.entities@.len() - i,
    {
        if str_eq(dm.entities[i].name.as_str(), name) {
            proof {
                assert(dm@.entities[i as int].name == name@);
            }
            return true;
        }
        i += 1;
    }
    false
}

/// What a field's type name resolves to in the given schema: a recognized
/// scalar kind, a schema-defined enumeration, or nothing.
pub open spec fn spec_type_class(dm: DataModelModel, kind_name: Seq<char>) -> Option<
    FieldTypeClass,
> {
    match spec_scalar_of(kind_name) {
        Some(k) => Some(FieldTypeClass::Scalar(k)),
        None => if spec_has_enum(dm, kind_name) {
            Some(FieldTypeClass::EnumRef)
        } else {
            None
        },
    }
}

/// Resolves a field's type name against the schema.
pub fn type_class(dm: &DataModel, kind_name: &str) -> (r: Option<FieldTypeClass>)
    ensures
        r == spec_type_class(dm@, kind_name@),
{
    match scalar_of(kind_name) {
        Some(k) => Some(FieldTypeClass::Scalar(k)),
        None => if has_enum(dm, kind_name) {
            Some(FieldTypeClass::EnumRef)
        } else {
            None
        },
    }
}

} // verus!
