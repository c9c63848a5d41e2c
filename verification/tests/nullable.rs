use schema_core::errors::ErrorKind;
use schema_core::schema::CoreConfig;
use schema_core::schema::DefinitionsBuilder;
use schema_core::schema::SchemaNode;
use schema_core::schema::build_serializer;
use schema_core::schema::compile_node;
use schema_core::serializer::CombinedSerializer;
use schema_core::serializer::NullableSerializer;
use schema_core::serializer::SerEvent;
use schema_core::state::Exactness;
use schema_core::state::Extra;
use schema_core::state::InputType;
use schema_core::state::RecursionGuard;
use schema_core::state::StringCacheMode;
use schema_core::state::ValidationState;
use schema_core::validator::Validated;
use schema_core::value::Value;
use std::sync::Arc;

fn plain_extra() -> Extra {
    Extra {
        input_type: InputType::Python,
        data: None,
        strict: None,
        from_attributes: None,
        field_name: None,
        context: None,
        self_instance: None,
        cache_str: StringCacheMode::CacheAll,
        by_alias: None,
        by_name: None,
    }
}

fn fresh_state() -> ValidationState {
    ValidationState::new(plain_extra(), RecursionGuard::new(), false)
}

fn config() -> CoreConfig {
    CoreConfig { hide_input_in_errors: false, validation_error_cause: false }
}

fn no_defs() -> Arc<schema_core::validator::Definitions> {
    Arc::new(schema_core::validator::Definitions { nodes: Vec::new() })
}

fn compile(node: &SchemaNode) -> schema_core::validator::CombinedValidator {
    let builder = DefinitionsBuilder { names: Vec::new() };
    compile_node(node, &config(), &builder).unwrap()
}

#[test]
fn nullable_short_circuits_null() {
    let v = compile(&SchemaNode::Nullable { schema: Box::new(SchemaNode::Int) });
    let mut state = fresh_state();
    let r = v.validate(&no_defs(), &Value::Null, &mut state).unwrap();
    match r {
        Validated::Value(Value::Null) => (),
        _ => panic!("expected null"),
    }
}

#[test]
fn nullable_delegates_non_null() {
    let v = compile(&SchemaNode::Nullable { schema: Box::new(SchemaNode::Int) });
    let mut state = fresh_state();
    let r = v.validate(&no_defs(), &Value::Int(42), &mut state).unwrap();
    match r {
        Validated::Value(Value::Int(42)) => (),
        _ => panic!("expected 42"),
    }
    assert_eq!(state.exactness, Some(Exactness::Exact));
}

#[test]
fn nullable_delegates_lax_coercion() {
    let v = compile(&SchemaNode::Nullable { schema: Box::new(SchemaNode::Int) });
    let mut state = fresh_state();
    let r = v.validate(&no_defs(), &Value::Bool(true), &mut state).unwrap();
    match r {
        Validated::Value(Value::Int(1)) => (),
        _ => panic!("expected coerced 1"),
    }
    assert_eq!(state.exactness, Some(Exactness::Lax));
}

#[test]
fn nullable_does_not_treat_lookalikes_as_null() {
    let v = compile(&SchemaNode::Nullable { schema: Box::new(SchemaNode::Int) });
    let mut state = fresh_state();
    let err = v
        .validate(&no_defs(), &Value::Str(String::from("None")), &mut state)
        .unwrap_err();
    assert_eq!(err.lines[0].kind, ErrorKind::IntType);
}

#[test]
fn int_rejects_bool_in_strict_mode() {
    let v = compile(&SchemaNode::Int);
    let mut extra = plain_extra();
    extra.strict = Some(true);
    let mut state = ValidationState::new(extra, RecursionGuard::new(), false);
    let err = v.validate(&no_defs(), &Value::Bool(true), &mut state).unwrap_err();
    assert_eq!(err.lines[0].kind, ErrorKind::IntType);
}

#[test]
fn str_type_error() {
    let v = compile(&SchemaNode::Str);
    let mut state = fresh_state();
    let err = v.validate(&no_defs(), &Value::Int(3), &mut state).unwrap_err();
    assert_eq!(err.lines[0].kind, ErrorKind::StrType);
}

#[test]
fn nullable_serializer_null_key_is_fixed_literal() {
    let s = NullableSerializer::build(&SchemaNode::Str);
    assert_eq!(s.json_key(&Value::Null).unwrap(), String::from("null"));
    let s2 = NullableSerializer::build(&SchemaNode::Int);
    assert_eq!(s2.json_key(&Value::Null).unwrap(), String::from("null"));
}

#[test]
fn nullable_serializer_delegates_keys() {
    let s = NullableSerializer::build(&SchemaNode::Str);
    assert_eq!(s.json_key(&Value::Str(String::from("k"))).unwrap(), String::from("k"));
    assert_eq!(s.json_key(&Value::Bool(true)).unwrap(), String::from("true"));
    assert_eq!(s.json_key(&Value::Bool(false)).unwrap(), String::from("false"));
    assert!(s.json_key(&Value::List(Vec::new())).is_err());
}

#[test]
fn nullable_serializer_to_python() {
    let s = NullableSerializer::build(&SchemaNode::Str);
    match s.to_python(&Value::Null, None, None) {
        Value::Null => (),
        _ => panic!("expected null"),
    }
    match s.to_python(&Value::Str(String::from("x")), None, None) {
        Value::Str(t) => assert_eq!(t, String::from("x")),
        _ => panic!("expected str"),
    }
}

#[test]
fn nullable_serializer_events() {
    let s = NullableSerializer::build(&SchemaNode::Str);
    let mut sink: Vec<SerEvent> = Vec::new();
    s.serialize_events(&Value::Null, None, None, &mut sink);
    assert!(matches!(sink[0], SerEvent::Null));
    assert_eq!(sink.len(), 1);

    let mut sink2: Vec<SerEvent> = Vec::new();
    let items = vec![Value::Int(1), Value::Bool(true)];
    s.serialize_events(&Value::List(items), None, None, &mut sink2);
    assert!(matches!(sink2[0], SerEvent::SeqStart(2)));
    assert!(matches!(sink2[1], SerEvent::Int(1)));
    assert!(matches!(sink2[2], SerEvent::Bool(true)));
    assert!(matches!(sink2[3], SerEvent::SeqEnd));
    assert_eq!(sink2.len(), 4);
}

#[test]
fn serializer_names_and_retry() {
    let s = build_serializer(&SchemaNode::Nullable { schema: Box::new(SchemaNode::Str) });
    assert_eq!(s.get_name(), "nullable");
    assert!(!s.retry_with_lax_check());
    match &s {
        CombinedSerializer::Nullable(n) => assert_eq!(n.serializer.get_name(), "str"),
        _ => panic!("expected nullable"),
    }
}
