use schema_core::errors::ErrorKind;
use schema_core::errors::LocItem;
use schema_core::schema::CoreConfig;
use schema_core::schema::SchemaNode;
use schema_core::schema::SchemaSpec;
use schema_core::schema::build_schema;
use schema_core::state::Extra;
use schema_core::state::InputType;
use schema_core::state::RecursionGuard;
use schema_core::state::StringCacheMode;
use schema_core::state::ValidationState;
use schema_core::validator::Validated;
use schema_core::generator::ValidatorIterator;
use schema_core::value::Value;

fn plain_extra() -> Extra {
    Extra {
        input_type: InputType::Python,
        data: None,
        strict: None,
        from_attributes: None,
        field_name: None,
        context: None,
        self_instance: None,
        cache_str: StringCacheMode::CacheAll,
        by_alias: None,
        by_name: None,
    }
}

fn fresh_state() -> ValidationState {
    ValidationState::new(plain_extra(), RecursionGuard::new(), false)
}

fn config() -> CoreConfig {
    CoreConfig { hide_input_in_errors: false, validation_error_cause: false }
}

fn bounded_stream_schema() -> SchemaNode {
    SchemaNode::Generator { items_schema: None, min_length: Some(2), max_length: Some(4) }
}

fn make_iterator(schema: SchemaNode, items: Vec<Value>) -> ValidatorIterator {
    let spec = SchemaSpec { definitions: Vec::new(), root: schema };
    let (root, defs) = build_schema(&spec, &config()).unwrap();
    let mut state = fresh_state();
    match root.validate(&defs, &Value::List(items), &mut state).unwrap() {
        Validated::Stream(it) => it,
        _ => panic!("expected a stream"),
    }
}

fn int_items(n: usize) -> Vec<Value> {
    let mut v = Vec::new();
    let mut i: usize = 0;
    while i < n {
        v.push(Value::Int(i as i64));
        i += 1;
    }
    v
}

fn classify(n: usize) -> Result<usize, ErrorKind> {
    let mut it = make_iterator(bounded_stream_schema(), int_items(n));
    match it.collect_all() {
        Ok(vs) => Ok(vs.len()),
        Err(rep) => Err(rep.items[0].kind),
    }
}

#[test]
fn too_few_items_fail_too_short() {
    assert_eq!(classify(0), Err(ErrorKind::TooShort { min_length: 2, actual_length: 0 }));
    assert_eq!(classify(1), Err(ErrorKind::TooShort { min_length: 2, actual_length: 1 }));
}

#[test]
fn in_bound_counts_succeed_unchanged() {
    for n in [2usize, 3, 4] {
        let mut it = make_iterator(bounded_stream_schema(), int_items(n));
        let vs = it.collect_all().unwrap();
        assert_eq!(vs.len(), n);
        for (i, v) in vs.iter().enumerate() {
            match v {
                Value::Int(x) => assert_eq!(*x, i as i64),
                _ => panic!("item changed"),
            }
        }
    }
}

#[test]
fn fifth_item_fails_too_long_without_sixth_pull() {
    let mut it = make_iterator(bounded_stream_schema(), int_items(6));
    for _ in 0..4 {
        assert!(matches!(it.next(), Ok(Some(_))));
    }
    let err = it.next().unwrap_err();
    assert_eq!(err.items[0].kind, ErrorKind::TooLong { max_length: 4 });
    // the offending fifth item was consumed; the sixth never was
    assert_eq!(it.producer.index, 5);
}

#[test]
fn rerunning_fresh_producers_classifies_identically() {
    for n in 0..7usize {
        assert_eq!(classify(n), classify(n));
    }
}

#[test]
fn position_counter_tracks_yields() {
    let mut it = make_iterator(bounded_stream_schema(), int_items(3));
    assert_eq!(it.index(), 0);
    assert!(matches!(it.next(), Ok(Some(_))));
    assert_eq!(it.index(), 1);
    assert!(matches!(it.next(), Ok(Some(_))));
    assert_eq!(it.index(), 2);
    assert!(matches!(it.next(), Ok(Some(_))));
    assert_eq!(it.index(), 3);
    assert!(matches!(it.next(), Ok(None)));
    assert_eq!(it.index(), 3);
}

#[test]
fn items_validated_through_suspended_context() {
    let schema = SchemaNode::Generator {
        items_schema: Some(Box::new(SchemaNode::Int)),
        min_length: None,
        max_length: None,
    };
    let mut it = make_iterator(schema, vec![Value::Int(7), Value::Bool(true)]);
    match it.next().unwrap().unwrap() {
        Validated::Value(Value::Int(7)) => (),
        _ => panic!("expected 7"),
    }
    // lax coercion through the suspended context
    match it.next().unwrap().unwrap() {
        Validated::Value(Value::Int(1)) => (),
        _ => panic!("expected coerced 1"),
    }
    assert!(matches!(it.next(), Ok(None)));
}

#[test]
fn item_failure_is_located_at_its_position() {
    let schema = SchemaNode::Generator {
        items_schema: Some(Box::new(SchemaNode::Int)),
        min_length: None,
        max_length: None,
    };
    let mut it = make_iterator(schema, vec![Value::Int(0), Value::Str(String::from("bad"))]);
    assert!(matches!(it.next(), Ok(Some(_))));
    let err = it.next().unwrap_err();
    assert_eq!(err.title, String::from("ValidatorIterator"));
    assert_eq!(err.items[0].kind, ErrorKind::IntType);
    assert!(matches!(err.items[0].path[0], LocItem::Index(1)));
    // a failed item is not counted as yielded
    assert_eq!(it.index(), 1);
}

#[test]
fn generator_rejects_non_iterable_input() {
    let spec = SchemaSpec { definitions: Vec::new(), root: bounded_stream_schema() };
    let (root, defs) = build_schema(&spec, &config()).unwrap();
    let mut state = fresh_state();
    let err = root.validate(&defs, &Value::Int(1), &mut state).unwrap_err();
    assert_eq!(err.lines[0].kind, ErrorKind::IterableType);
}

#[test]
fn generator_forces_partial_mode_off() {
    let spec = SchemaSpec { definitions: Vec::new(), root: bounded_stream_schema() };
    let (root, defs) = build_schema(&spec, &config()).unwrap();
    let mut state = ValidationState::new(plain_extra(), RecursionGuard::new(), true);
    assert!(state.allow_partial);
    let _ = root.validate(&defs, &Value::List(int_items(2)), &mut state).unwrap();
    assert!(!state.allow_partial);
}

#[test]
fn hidden_input_is_redacted_in_reports() {
    let spec = SchemaSpec { definitions: Vec::new(), root: bounded_stream_schema() };
    let cfg = CoreConfig { hide_input_in_errors: true, validation_error_cause: false };
    let (root, defs) = build_schema(&spec, &cfg).unwrap();
    let mut state = fresh_state();
    let mut it = match root.validate(&defs, &Value::List(int_items(0)), &mut state).unwrap() {
        Validated::Stream(it) => it,
        _ => panic!("expected stream"),
    };
    let err = it.next().unwrap_err();
    assert!(err.items[0].input.is_none());
    assert!(err.cause.is_none());
}

#[test]
fn cause_is_attached_when_asked() {
    let spec = SchemaSpec { definitions: Vec::new(), root: bounded_stream_schema() };
    let cfg = CoreConfig { hide_input_in_errors: false, validation_error_cause: true };
    let (root, defs) = build_schema(&spec, &cfg).unwrap();
    let mut state = fresh_state();
    let mut it = match root.validate(&defs, &Value::List(int_items(0)), &mut state).unwrap() {
        Validated::Stream(it) => it,
        _ => panic!("expected stream"),
    };
    let err = it.next().unwrap_err();
    assert!(err.items[0].input.is_some());
    let cause = err.cause.unwrap();
    assert_eq!(cause.lines[0].kind, ErrorKind::TooShort { min_length: 2, actual_length: 0 });
}

#[test]
fn iterator_repr_shows_position_and_schema() {
    let schema = SchemaNode::Generator {
        items_schema: Some(Box::new(SchemaNode::Int)),
        min_length: None,
        max_length: None,
    };
    let mut it = make_iterator(schema, int_items(2));
    assert_eq!(it.repr(), String::from("ValidatorIterator(index=0, schema=int)"));
    assert!(matches!(it.next(), Ok(Some(_))));
    assert_eq!(it.repr(), String::from("ValidatorIterator(index=1, schema=int)"));
    let raw = make_iterator(bounded_stream_schema(), int_items(2));
    assert_eq!(raw.repr(), String::from("ValidatorIterator(index=0, schema=any)"));
}
