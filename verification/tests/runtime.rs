use prisma_client_rust::filters::{
    op_name, parse_op, parse_quantifier, quantifier_name, FilterOp, FilterPredicate,
    RelationQuantifier, Value,
};
use prisma_client_rust::operator::{and, not, or, ComposeError, OperatorNode};
use prisma_client_rust::query::{deserialize_node, serialize_node, WireNode};
use prisma_client_rust::results::{
    delete_result, interpret_response, push_optional, read_optional, ExecError,
    QueryResponse, QueryResult, ResultRow, RowEntry,
};
use prisma_client_rust::request::{build_request, validate_selection, Action, Selection};
use prisma_client_rust::model::{Entity, Field, Relation};

fn title_equals(text: &str) -> FilterPredicate {
    FilterPredicate::Comparison {
        field: "title".to_string(),
        op: FilterOp::Equals,
        value: Value::Text(text.to_string()),
    }
}

#[test]
fn empty_operator_lists_are_rejected() {
    assert_eq!(and(vec![]), Err(ComposeError::EmptyOperatorList));
    assert_eq!(or(vec![]), Err(ComposeError::EmptyOperatorList));
    assert_eq!(not(vec![]), Err(ComposeError::EmptyOperatorList));
}

#[test]
fn single_predicate_combinators_round_trip_through_the_wire_tree() {
    let a = and(vec![title_equals("Hi from Prisma!")]).unwrap();
    let o = or(vec![title_equals("Hi from Prisma!")]).unwrap();
    let n = not(vec![title_equals("Hi from Prisma!")]).unwrap();
    for node in [a, o, n] {
        let wire = serialize_node(&node);
        let back = deserialize_node(&wire).unwrap();
        assert_eq!(back, node);
    }
}

#[test]
fn relation_quantifier_nested_three_levels_through_a_cycle_constructs_and_round_trips() {
    // A -> B -> A: each nesting level is bounded by this explicit tree, not
    // by a traversal of the (cyclic) schema graph.
    let innermost = title_equals("Hi from Prisma!");
    let level2 = FilterPredicate::RelationFilter {
        field: "author".to_string(),
        quantifier: RelationQuantifier::EveryRelated,
        nested: vec![innermost],
    };
    let level1 = FilterPredicate::RelationFilter {
        field: "posts".to_string(),
        quantifier: RelationQuantifier::NoneRelated,
        nested: vec![level2],
    };
    let level0 = FilterPredicate::RelationFilter {
        field: "author".to_string(),
        quantifier: RelationQuantifier::SomeRelated,
        nested: vec![level1],
    };
    let node = and(vec![level0]).unwrap();
    let wire = serialize_node(&node);
    let back = deserialize_node(&wire).unwrap();
    assert_eq!(back, node);
}

#[test]
fn nested_combinators_round_trip_through_the_wire_tree() {
    let inner_or = or(vec![title_equals("a"), title_equals("b")]).unwrap();
    let inner_not = not(vec![title_equals("c")]).unwrap();
    let tree = OperatorNode::AndNode(vec![inner_or, inner_not, OperatorNode::Leaf(title_equals("d"))]);
    let wire = serialize_node(&tree);
    let back = deserialize_node(&wire).unwrap();
    assert_eq!(back, tree);
}

#[test]
fn operator_names_parse_back() {
    for op in [
        FilterOp::Equals,
        FilterOp::NotEquals,
        FilterOp::InSet,
        FilterOp::NotInSet,
        FilterOp::Lt,
        FilterOp::Contains,
        FilterOp::IsNull,
        FilterOp::HasEvery,
    ] {
        assert_eq!(parse_op(op_name(op)), Some(op));
    }
    assert_eq!(parse_op("shouts"), None);
    for q in [
        RelationQuantifier::SomeRelated,
        RelationQuantifier::EveryRelated,
        RelationQuantifier::NoneRelated,
    ] {
        assert_eq!(parse_quantifier(quantifier_name(q)), Some(q));
    }
}

#[test]
fn unknown_wire_operators_are_rejected() {
    let wire = WireNode::Triple {
        field: "title".to_string(),
        operator: "shouts".to_string(),
        value: Value::Null,
    };
    assert_eq!(deserialize_node(&wire), None);
    let wire = WireNode::Tagged { tag: "XOR".to_string(), children: vec![] };
    assert_eq!(deserialize_node(&wire), None);
}

fn entry(field: &str, value: Value) -> RowEntry {
    RowEntry { field: field.to_string(), value }
}

#[test]
fn create() {
    // Build the outgoing values of a create, as the generated builder would.
    let mut values: Vec<RowEntry> = vec![
        entry("title", Value::Text("Hi from Prisma!".to_string())),
        entry("published", Value::BoolValue(true)),
    ];
    push_optional(
        &mut values,
        "desc",
        Some(Value::Text(
            "Prisma is a database toolkit that makes databases easy.".to_string(),
        )),
    );
    // The engine echoes the created row back; map it to typed values.
    let response = QueryResponse::OneRow(ResultRow { entries: values });
    let row = match interpret_response(response).unwrap() {
        QueryResult::Single(row) => row,
        other => panic!("expected a single row, got {:?}", other),
    };
    assert_eq!(
        read_optional(&row, "title"),
        Some(&Value::Text("Hi from Prisma!".to_string()))
    );
    assert_eq!(read_optional(&row, "published"), Some(&Value::BoolValue(true)));
    assert_eq!(
        read_optional(&row, "desc"),
        Some(&Value::Text(
            "Prisma is a database toolkit that makes databases easy.".to_string()
        ))
    );
    assert_eq!(read_optional(&row, "missing"), None);
}

#[test]
fn unique_violation() {
    // Creating the first user with an explicit unique id succeeds.
    let first = QueryResponse::OneRow(ResultRow {
        entries: vec![
            entry("id", Value::Text("user-1".to_string())),
            entry("name", Value::Text("Brendan".to_string())),
        ],
    });
    let row = match interpret_response(first).unwrap() {
        QueryResult::Single(row) => row,
        other => panic!("expected a single row, got {:?}", other),
    };
    assert_eq!(read_optional(&row, "id"), Some(&Value::Text("user-1".to_string())));
    assert_eq!(read_optional(&row, "name"), Some(&Value::Text("Brendan".to_string())));
    // The second create collides on the unique key; the engine reports a
    // constraint violation, which is propagated typed and unmodified.
    let second = QueryResponse::Failure(ExecError::UniqueConstraintViolation);
    assert_eq!(interpret_response(second), Err(ExecError::UniqueConstraintViolation));
}

#[test]
fn setting_field_to_null() {
    // Omitting the optional field stores the sentinel, and the mapper reads
    // it back as absent — never as an empty string.
    let mut values: Vec<RowEntry> = vec![entry("title", Value::Text("Post".to_string()))];
    push_optional(&mut values, "desc", None);
    let row = ResultRow { entries: values };
    assert_eq!(read_optional(&row, "desc"), None);
    assert_eq!(read_optional(&row, "title"), Some(&Value::Text("Post".to_string())));
}

#[test]
fn optional_set_value_reads_back_unchanged() {
    let mut values: Vec<RowEntry> = Vec::new();
    push_optional(&mut values, "desc", Some(Value::Text("x".to_string())));
    let row = ResultRow { entries: values };
    assert_eq!(read_optional(&row, "desc"), Some(&Value::Text("x".to_string())));
}

#[test]
fn delete_count_is_reported() {
    let r = delete_result(QueryResponse::CountResult(3)).unwrap();
    assert_eq!(r.count, 3);
    assert_eq!(
        delete_result(QueryResponse::Failure(ExecError::RecordNotFound)),
        Err(ExecError::RecordNotFound)
    );
}

#[test]
fn backend_failures_pass_through_unmodified() {
    let resp = QueryResponse::Failure(ExecError::Backend("connection refused".to_string()));
    assert_eq!(
        interpret_response(resp),
        Err(ExecError::Backend("connection refused".to_string()))
    );
}

fn post_entity() -> Entity {
    Entity {
        name: "Post".to_string(),
        fields: vec![Field {
            name: "title".to_string(),
            kind_name: "String".to_string(),
            is_list: false,
            required: true,
            is_id: false,
            is_unique: false,
            has_default: false,
        }],
        relations: vec![Relation {
            name: "author".to_string(),
            target: "User".to_string(),
            is_many: false,
            required: true,
            local_keys: vec![],
            foreign_keys: vec![],
        }],
    }
}

#[test]
fn default_selection_takes_all_fields_and_no_relations() {
    let e = post_entity();
    let s = prisma_client_rust::request::default_selection(&e);
    assert_eq!(s.fields, vec!["title".to_string()]);
    assert!(s.relations.is_empty());
}

#[test]
fn selecting_an_undeclared_relation_is_malformed() {
    let e = post_entity();
    let bad = Selection { fields: vec!["title".to_string()], relations: vec!["reviews".to_string()] };
    assert_eq!(validate_selection(&e, &bad), Err(ComposeError::MalformedSelection));
    let good = Selection { fields: vec!["title".to_string()], relations: vec!["author".to_string()] };
    assert_eq!(validate_selection(&e, &good), Ok(()));
}

#[test]
fn build_request_serializes_the_filter_and_keeps_entity_and_action() {
    let e = post_entity();
    let node = and(vec![title_equals("Hi from Prisma!")]).unwrap();
    let selection = Selection { fields: vec!["title".to_string()], relations: vec![] };
    let q = build_request(&e, Action::FindMany, Some(&node), selection).unwrap();
    assert_eq!(q.entity, "Post");
    assert_eq!(q.action, Action::FindMany);
    match q.filter {
        Some(WireNode::Tagged { ref tag, ref children }) => {
            assert_eq!(tag, "AND");
            assert_eq!(children.len(), 1);
            match &children[0] {
                WireNode::Triple { field, operator, value } => {
                    assert_eq!(field, "title");
                    assert_eq!(operator, "equals");
                    assert_eq!(value, &Value::Text("Hi from Prisma!".to_string()));
                }
                other => panic!("expected a triple, got {:?}", other),
            }
        }
        ref other => panic!("expected a tagged node, got {:?}", other),
    }
    let bad_sel = Selection { fields: vec![], relations: vec!["reviews".to_string()] };
    let node2 = or(vec![title_equals("x")]).unwrap();
    assert_eq!(
        build_request(&e, Action::FindMany, Some(&node2), bad_sel),
        Err(ComposeError::MalformedSelection)
    );
}
