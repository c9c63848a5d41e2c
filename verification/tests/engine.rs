use schema_core::errors::ErrorKind;
use schema_core::errors::LocItem;
use schema_core::schema::CoreConfig;
use schema_core::schema::SchemaNode;
use schema_core::schema::SchemaSpec;
use schema_core::schema::build_schema;
use schema_core::state::Exactness;
use schema_core::state::Extra;
use schema_core::state::InputType;
use schema_core::state::RecursionGuard;
use schema_core::state::StringCacheMode;
use schema_core::state::ValidationState;
use schema_core::generator::InternalValidator;
use schema_core::validator::Validated;
use schema_core::validator::share_defs;
use schema_core::value::Value;
use std::sync::Arc;

fn plain_extra() -> Extra {
    Extra {
        input_type: InputType::Python,
        data: None,
        strict: None,
        from_attributes: None,
        field_name: None,
        context: None,
        self_instance: None,
        cache_str: StringCacheMode::CacheAll,
        by_alias: None,
        by_name: None,
    }
}

fn fresh_state() -> ValidationState {
    ValidationState::new(plain_extra(), RecursionGuard::new(), false)
}

fn config() -> CoreConfig {
    CoreConfig { hide_input_in_errors: false, validation_error_cause: false }
}

#[test]
fn self_referential_schema_fails_with_recursion_error() {
    let spec = SchemaSpec {
        definitions: vec![(
            String::from("loop"),
            SchemaNode::Nullable {
                schema: Box::new(SchemaNode::Ref { name: String::from("loop") }),
            },
        )],
        root: SchemaNode::Ref { name: String::from("loop") },
    };
    let (root, defs) = build_schema(&spec, &config()).unwrap();
    let mut state = fresh_state();
    // the null sentinel is absorbed by the nullable wrapper
    assert!(root.validate(&defs, &Value::Null, &mut state).is_ok());
    // anything else cycles and is stopped at a bounded depth
    let err = root.validate(&defs, &Value::Bool(true), &mut state).unwrap_err();
    assert_eq!(err.lines[0].kind, ErrorKind::Recursion);
    // the guard unwinds fully: the same state validates again
    let err2 = root.validate(&defs, &Value::Int(3), &mut state).unwrap_err();
    assert_eq!(err2.lines[0].kind, ErrorKind::Recursion);
}

#[test]
fn forward_reference_resolves() {
    let spec = SchemaSpec {
        definitions: vec![
            (
                String::from("a"),
                SchemaNode::Nullable {
                    schema: Box::new(SchemaNode::Ref { name: String::from("b") }),
                },
            ),
            (String::from("b"), SchemaNode::Int),
        ],
        root: SchemaNode::Ref { name: String::from("a") },
    };
    let (root, defs) = build_schema(&spec, &config()).unwrap();
    let mut state = fresh_state();
    match root.validate(&defs, &Value::Int(9), &mut state).unwrap() {
        Validated::Value(Value::Int(9)) => (),
        _ => panic!("expected 9"),
    }
}

#[test]
fn undefined_reference_is_a_definition_error() {
    let spec = SchemaSpec {
        definitions: Vec::new(),
        root: SchemaNode::Ref { name: String::from("missing") },
    };
    let err = build_schema(&spec, &config()).unwrap_err();
    assert_eq!(err.name, String::from("missing"));
}

#[test]
fn union_prefers_exact_match_over_lax() {
    // Int would only accept the boolean laxly; Any accepts it exactly:
    // the exact alternative wins regardless of order
    let spec = SchemaSpec {
        definitions: Vec::new(),
        root: SchemaNode::Union { choices: vec![SchemaNode::Int, SchemaNode::Any] },
    };
    let (root, defs) = build_schema(&spec, &config()).unwrap();
    let mut state = fresh_state();
    match root.validate(&defs, &Value::Bool(true), &mut state).unwrap() {
        Validated::Value(Value::Bool(true)) => (),
        _ => panic!("expected the exact alternative's result"),
    }
    assert_eq!(state.exactness, Some(Exactness::Exact));
}

#[test]
fn union_first_declared_wins_on_exact_tie() {
    // both alternatives match an integer exactly; the first returns
    let spec = SchemaSpec {
        definitions: Vec::new(),
        root: SchemaNode::Union { choices: vec![SchemaNode::Any, SchemaNode::Int] },
    };
    let (root, defs) = build_schema(&spec, &config()).unwrap();
    let mut state = fresh_state();
    match root.validate(&defs, &Value::Int(5), &mut state).unwrap() {
        Validated::Value(Value::Int(5)) => (),
        _ => panic!("expected 5"),
    }
    assert_eq!(state.exactness, Some(Exactness::Exact));
}

#[test]
fn union_collects_all_failures() {
    let spec = SchemaSpec {
        definitions: Vec::new(),
        root: SchemaNode::Union { choices: vec![SchemaNode::Int, SchemaNode::Str] },
    };
    let (root, defs) = build_schema(&spec, &config()).unwrap();
    let mut state = ValidationState::new(
        Extra { strict: Some(true), ..plain_extra() },
        RecursionGuard::new(),
        false,
    );
    let err = root.validate(&defs, &Value::Bool(false), &mut state).unwrap_err();
    assert_eq!(err.lines.len(), 2);
    assert_eq!(err.lines[0].kind, ErrorKind::IntType);
    assert_eq!(err.lines[1].kind, ErrorKind::StrType);
}

#[test]
fn generator_names_are_synthesized() {
    let spec = SchemaSpec {
        definitions: Vec::new(),
        root: SchemaNode::Generator {
            items_schema: Some(Box::new(SchemaNode::Int)),
            min_length: None,
            max_length: None,
        },
    };
    let (root, _) = build_schema(&spec, &config()).unwrap();
    assert_eq!(root.get_name(), "generator[int]");

    let spec2 = SchemaSpec {
        definitions: Vec::new(),
        root: SchemaNode::Generator { items_schema: None, min_length: None, max_length: None },
    };
    let (root2, _) = build_schema(&spec2, &config()).unwrap();
    assert_eq!(root2.get_name(), "generator[any]");
}

fn compile_arc(node: SchemaNode) -> (Arc<schema_core::validator::CombinedValidator>, Arc<schema_core::validator::Definitions>) {
    let spec = SchemaSpec { definitions: Vec::new(), root: node };
    let (root, defs) = build_schema(&spec, &config()).unwrap();
    (Arc::new(root), defs)
}

#[test]
fn internal_validator_resumes_outside_the_original_call() {
    let (node, defs) = compile_arc(SchemaNode::Int);
    let state = fresh_state();
    let mut iv = InternalValidator::new("ValidatorIterator", node, share_defs(&defs), &state, false, false);
    drop(state);
    // the original call frame is gone; validation still runs
    match iv.validate(&Value::Int(1), None).unwrap() {
        Validated::Value(Value::Int(1)) => (),
        _ => panic!("expected 1"),
    }
    // exactness folds back into the context across invocations
    assert_eq!(iv.exactness, Some(Exactness::Exact));
    let _ = iv.validate(&Value::Bool(true), None).unwrap();
    assert_eq!(iv.exactness, Some(Exactness::Lax));
}

#[test]
fn internal_validator_reports_under_its_own_name() {
    let (node, defs) = compile_arc(SchemaNode::Int);
    let state = fresh_state();
    let mut iv = InternalValidator::new("ValidatorIterator", node, share_defs(&defs), &state, false, false);
    let err = iv.validate(&Value::Str(String::from("x")), Some(LocItem::Index(3))).unwrap_err();
    assert_eq!(err.title, String::from("ValidatorIterator"));
    assert!(matches!(err.items[0].path[0], LocItem::Index(3)));
    assert_eq!(err.items[0].kind, ErrorKind::IntType);
}

#[test]
fn assignment_revalidation_locates_the_field() {
    let (node, defs) = compile_arc(SchemaNode::Int);
    let state = fresh_state();
    let mut iv = InternalValidator::new("ValidatorIterator", node, share_defs(&defs), &state, false, false);
    match iv.validate_assignment("age", &Value::Int(30), None).unwrap() {
        Validated::Value(Value::Int(30)) => (),
        _ => panic!("expected 30"),
    }
    let err = iv
        .validate_assignment("age", &Value::Str(String::from("old")), None)
        .unwrap_err();
    match &err.items[0].path[0] {
        LocItem::Key(k) => assert_eq!(k, &String::from("age")),
        _ => panic!("expected field key first"),
    }
}

#[test]
fn error_paths_read_root_to_leaf() {
    // a generator of unions: an inner failure carries the item index
    // first, then the leaf details, in root-to-leaf order
    let spec = SchemaSpec {
        definitions: Vec::new(),
        root: SchemaNode::Generator {
            items_schema: Some(Box::new(SchemaNode::Union {
                choices: vec![SchemaNode::Int],
            })),
            min_length: None,
            max_length: None,
        },
    };
    let (root, defs) = build_schema(&spec, &config()).unwrap();
    let mut state = fresh_state();
    let mut it = match root
        .validate(&defs, &Value::List(vec![Value::Str(String::from("x"))]), &mut state)
        .unwrap()
    {
        Validated::Stream(it) => it,
        _ => panic!("expected stream"),
    };
    let err = it.next().unwrap_err();
    assert!(matches!(err.items[0].path[0], LocItem::Index(0)));
    assert_eq!(err.items[0].kind, ErrorKind::IntType);
}

#[test]
fn undefined_reference_inside_generator_items() {
    let spec = SchemaSpec {
        definitions: Vec::new(),
        root: SchemaNode::Generator {
            items_schema: Some(Box::new(SchemaNode::Ref { name: String::from("nope") })),
            min_length: None,
            max_length: None,
        },
    };
    let err = build_schema(&spec, &config()).unwrap_err();
    assert_eq!(err.name, String::from("nope"));
}

#[test]
fn undefined_reference_inside_union_member() {
    let spec = SchemaSpec {
        definitions: Vec::new(),
        root: SchemaNode::Union {
            choices: vec![SchemaNode::Int, SchemaNode::Ref { name: String::from("gone") }],
        },
    };
    let err = build_schema(&spec, &config()).unwrap_err();
    assert_eq!(err.name, String::from("gone"));
}

#[test]
fn mutually_recursive_definitions_compile() {
    let spec = SchemaSpec {
        definitions: vec![
            (
                String::from("a"),
                SchemaNode::Union {
                    choices: vec![SchemaNode::Int, SchemaNode::Ref { name: String::from("b") }],
                },
            ),
            (
                String::from("b"),
                SchemaNode::Union {
                    choices: vec![SchemaNode::Str, SchemaNode::Ref { name: String::from("a") }],
                },
            ),
        ],
        root: SchemaNode::Ref { name: String::from("a") },
    };
    let (root, defs) = build_schema(&spec, &config()).unwrap();
    let mut state = fresh_state();
    // a value neither side accepts cycles between the two definitions
    // until the guard stops it
    let err = root.validate(&defs, &Value::List(Vec::new()), &mut state).unwrap_err();
    assert!(err
        .lines
        .iter()
        .any(|l| l.kind == ErrorKind::Recursion));
    // a value the first definition accepts validates straight through
    match root.validate(&defs, &Value::Int(1), &mut state).unwrap() {
        Validated::Value(Value::Int(1)) => (),
        _ => panic!("expected 1"),
    }
}
