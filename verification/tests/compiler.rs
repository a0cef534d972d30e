use prisma_client_rust::model::{DataModel, Entity, EnumDef, Field, Relation};
use prisma_client_rust::filters::{filter_ops, FieldTypeClass, FilterOp, ScalarKind};
use prisma_client_rust::{Error, GenerateArgs, PrismaClientRustGenerator};

fn field(name: &str, kind: &str) -> Field {
    Field {
        name: name.to_string(),
        kind_name: kind.to_string(),
        is_list: false,
        required: true,
        is_id: false,
        is_unique: false,
        has_default: false,
    }
}

fn id_field(name: &str) -> Field {
    let mut f = field(name, "String");
    f.is_id = true;
    f.is_unique = true;
    f.has_default = true;
    f
}

fn optional_field(name: &str, kind: &str) -> Field {
    let mut f = field(name, kind);
    f.required = false;
    f
}

fn sample_schema() -> DataModel {
    DataModel {
        entities: vec![
            Entity {
                name: "User".to_string(),
                fields: vec![id_field("id"), field("name", "String")],
                relations: vec![Relation {
                    name: "posts".to_string(),
                    target: "Post".to_string(),
                    is_many: true,
                    required: false,
                    local_keys: vec!["id".to_string()],
                    foreign_keys: vec!["author_id".to_string()],
                }],
            },
            Entity {
                name: "Post".to_string(),
                fields: vec![
                    id_field("id"),
                    field("title", "String"),
                    field("published", "Boolean"),
                    optional_field("desc", "String"),
                ],
                relations: vec![Relation {
                    name: "author".to_string(),
                    target: "User".to_string(),
                    is_many: false,
                    required: true,
                    local_keys: vec!["author_id".to_string()],
                    foreign_keys: vec!["id".to_string()],
                }],
            },
        ],
        enums: vec![EnumDef {
            name: "Role".to_string(),
            variants: vec!["Admin".to_string(), "Member".to_string()],
        }],
    }
}

fn generate(dm: DataModel) -> Result<String, Error> {
    let generator = PrismaClientRustGenerator { mod_path: prisma_client_rust::default_module_path() };
    generator.generate(&GenerateArgs { dm })
}

#[test]
fn create_constructor_takes_exactly_required_fields_without_default() {
    let out = generate(sample_schema()).unwrap();
    assert!(out.contains("pub fn create(name: String) -> prisma::UserCreate;"));
    assert!(out.contains("pub fn create(title: String, published: Boolean) -> prisma::PostCreate;"));
}

#[test]
fn artifact_sections_come_in_contract_order() {
    let out = generate(sample_schema()).unwrap();
    let header = out.find("#![allow(warnings, unused)]").unwrap();
    let user = out.find("pub struct User {").unwrap();
    let namespace = out.find("pub mod _prisma {").unwrap();
    let client = out.find("pub struct PrismaClient {").unwrap();
    let internal = out.find("pub enum SortOrder {").unwrap();
    let read_filters = out.find("pub mod read_filters {").unwrap();
    let reexport = out.find("pub use _prisma::*;").unwrap();
    let enums = out.find("pub enum Role {").unwrap();
    assert!(header < user);
    assert!(user < namespace);
    assert!(namespace < client);
    assert!(client < internal);
    assert!(internal < read_filters);
    assert!(read_filters < reexport);
    assert!(reexport < enums);
}

#[test]
fn entity_declarations_carry_fields_and_relations() {
    let out = generate(sample_schema()).unwrap();
    assert!(out.contains("    pub desc: Option<String>,"));
    assert!(out.contains("    pub title: String,"));
    assert!(out.contains("pub fn posts() -> PostRelation;"));
    assert!(out.contains("pub fn author() -> UserRelation;"));
    assert!(out.contains("pub fn User(client: &PrismaClient) -> UserActions;"));
    assert!(out.contains("pub enum PostScalarField {"));
}

#[test]
fn internal_enums_are_emitted_once_regardless_of_schema_size() {
    let out = generate(sample_schema()).unwrap();
    assert_eq!(out.matches("pub enum SortOrder {").count(), 1);
    assert_eq!(out.matches("pub enum QueryMode {").count(), 1);
}

#[test]
fn schema_enum_variant_order_is_preserved() {
    let out = generate(sample_schema()).unwrap();
    let admin = out.find("    Admin,").unwrap();
    let member = out.find("    Member,").unwrap();
    assert!(admin < member);
}

#[test]
fn invalid_module_path_fails_before_anything_is_emitted() {
    let generator = PrismaClientRustGenerator { mod_path: "9bad".to_string() };
    let r = generator.generate(&GenerateArgs { dm: sample_schema() });
    assert_eq!(r, Err(Error::InvalidModulePath));
    let generator = PrismaClientRustGenerator { mod_path: "".to_string() };
    let r = generator.generate(&GenerateArgs { dm: sample_schema() });
    assert_eq!(r, Err(Error::InvalidModulePath));
}

#[test]
fn unrecognized_field_kind_is_a_compile_error() {
    let mut dm = sample_schema();
    dm.entities[1].fields.push(field("score", "Decimal128"));
    assert_eq!(generate(dm), Err(Error::UnsupportedFieldKind));
}

#[test]
fn enum_typed_fields_are_recognized() {
    let mut dm = sample_schema();
    dm.entities[0].fields.push(field("role", "Role"));
    assert!(generate(dm).is_ok());
}

#[test]
fn dangling_relation_is_a_compile_error() {
    let mut dm = sample_schema();
    dm.entities[0].relations.push(Relation {
        name: "ghost".to_string(),
        target: "Missing".to_string(),
        is_many: false,
        required: false,
        local_keys: vec![],
        foreign_keys: vec![],
    });
    assert_eq!(generate(dm), Err(Error::DanglingRelation));
}

#[test]
fn filter_ops_for_required_string_field() {
    let ops = filter_ops(FieldTypeClass::Scalar(ScalarKind::Text), false, false);
    assert_eq!(
        ops,
        vec![
            FilterOp::Equals,
            FilterOp::NotEquals,
            FilterOp::InSet,
            FilterOp::NotInSet,
            FilterOp::Contains,
            FilterOp::StartsWith,
            FilterOp::EndsWith,
        ]
    );
}

#[test]
fn filter_ops_for_optional_numeric_field() {
    let ops = filter_ops(FieldTypeClass::Scalar(ScalarKind::Integer), false, true);
    assert_eq!(
        ops,
        vec![
            FilterOp::Equals,
            FilterOp::NotEquals,
            FilterOp::InSet,
            FilterOp::NotInSet,
            FilterOp::Lt,
            FilterOp::Lte,
            FilterOp::Gt,
            FilterOp::Gte,
            FilterOp::IsNull,
            FilterOp::IsNotNull,
        ]
    );
}

#[test]
fn filter_ops_for_list_field_are_whole_list_operators() {
    let ops = filter_ops(FieldTypeClass::Scalar(ScalarKind::Text), true, false);
    assert_eq!(
        ops,
        vec![FilterOp::Has, FilterOp::HasEvery, FilterOp::HasSome, FilterOp::IsEmpty]
    );
}

#[test]
fn enum_fields_reuse_the_base_scalar_family() {
    let ops = filter_ops(FieldTypeClass::EnumRef, false, false);
    assert_eq!(
        ops,
        vec![FilterOp::Equals, FilterOp::NotEquals, FilterOp::InSet, FilterOp::NotInSet]
    );
}

#[test]
fn string_nullable_filter_lists_the_exact_operator_family() {
    let out = generate(sample_schema()).unwrap();
    let expected = "pub enum StringNullableFilter {\n    equals,\n    not,\n    in,\n    notIn,\n    contains,\n    startsWith,\n    endsWith,\n    isNull,\n    isNotNull,\n}\n";
    assert!(out.contains(expected));
}

#[test]
fn empty_schema_still_compiles_to_client_and_internal_sections() {
    let out = generate(DataModel { entities: vec![], enums: vec![] }).unwrap();
    assert!(out.contains("pub struct PrismaClient {"));
    assert!(out.contains("pub enum SortOrder {"));
    assert!(out.contains("pub use _prisma::*;"));
    assert!(!out.contains("pub fn create("));
}

#[test]
fn module_path_must_be_an_identifier() {
    for bad in ["", "9bad", "with space", "a-b"] {
        let generator = PrismaClientRustGenerator { mod_path: bad.to_string() };
        assert_eq!(
            generator.generate(&GenerateArgs { dm: sample_schema() }),
            Err(Error::InvalidModulePath)
        );
    }
    for good in ["prisma", "_p", "client2"] {
        let generator = PrismaClientRustGenerator { mod_path: good.to_string() };
        assert!(generator.generate(&GenerateArgs { dm: sample_schema() }).is_ok());
    }
}

#[test]
fn default_module_path_is_prisma() {
    assert_eq!(prisma_client_rust::default_module_path(), "prisma");
}
