use builder::AttrShape;
use builder::BuilderState;
use builder::ClassifiedField;
use builder::FieldDecl;
use builder::FieldValue;
use builder::TypeRef;
use builder::Value;
use builder::classify_fields;
use builder::has_distinct_method_names;

fn ty(name: &str) -> TypeRef {
    TypeRef { name: name.to_owned(), args: vec![] }
}

fn ty1(name: &str, arg: TypeRef) -> TypeRef {
    TypeRef { name: name.to_owned(), args: vec![arg] }
}

/// The classified fields of the worked scenario: `name` required, `age`
/// optional, `tags` accumulating under the setter name `tag`.
fn scenario_schema() -> Vec<ClassifiedField> {
    let fields = vec![
        FieldDecl { name: "name".to_owned(), ty: ty("String"), attrs: vec![] },
        FieldDecl { name: "age".to_owned(), ty: ty1("Option", ty("u32")), attrs: vec![] },
        FieldDecl {
            name: "tags".to_owned(),
            ty: ty1("Vec", ty("String")),
            attrs: vec![AttrShape::NameValueStr {
                key: "each".to_owned(),
                setter: "tag".to_owned(),
            }],
        },
    ];
    classify_fields(&fields, true).unwrap()
}

fn str_value(s: &str) -> Value {
    Value::Str(s.to_owned())
}

#[test]
fn scenario_all_setters_then_finalize_succeeds() {
    let schema = scenario_schema();
    assert!(has_distinct_method_names(&schema));
    let mut b = BuilderState::new(schema);
    assert!(b.call("name", str_value("a")));
    assert!(b.call("tag", str_value("x")));
    assert!(b.call("tag", str_value("y")));
    let record = b.finalize().unwrap();
    assert_eq!(
        record,
        vec![
            FieldValue { name: "name".to_owned(), value: Some(str_value("a")) },
            FieldValue { name: "age".to_owned(), value: None },
            FieldValue {
                name: "tags".to_owned(),
                value: Some(Value::List(vec![str_value("x"), str_value("y")])),
            },
        ]
    );
}

#[test]
fn scenario_missing_required_field_is_cited() {
    let mut b = BuilderState::new(scenario_schema());
    assert!(b.call("tag", str_value("x")));
    let err = b.finalize().unwrap_err();
    assert_eq!(err.field, "name");
    assert_eq!(err.message(), "name is not set");
}

#[test]
fn scenario_untouched_accumulator_defaults_to_absent_and_is_demanded() {
    let mut b = BuilderState::new(scenario_schema());
    assert!(b.call("name", str_value("a")));
    assert!(b.call("age", Value::Nat(5)));
    // The accumulating field was never touched: its slot stays absent, and
    // since the field is not optional-wrapped, finalize demands it.
    let err = b.finalize().unwrap_err();
    assert_eq!(err.field, "tags");
}

#[test]
fn optional_field_set_materializes_present() {
    let mut b = BuilderState::new(scenario_schema());
    b.call("name", str_value("a"));
    b.call("age", Value::Nat(5));
    b.call("tag", str_value("x"));
    let record = b.finalize().unwrap();
    assert_eq!(record[1], FieldValue { name: "age".to_owned(), value: Some(Value::Nat(5)) });
}

#[test]
fn plain_setters_are_last_write_wins() {
    let mut twice = BuilderState::new(scenario_schema());
    twice.call("name", str_value("first"));
    twice.call("name", str_value("second"));
    twice.call("tag", str_value("x"));
    let mut once = BuilderState::new(scenario_schema());
    once.call("name", str_value("second"));
    once.call("tag", str_value("x"));
    assert_eq!(twice.finalize().unwrap(), once.finalize().unwrap());
}

#[test]
fn setter_order_does_not_matter_across_fields() {
    let mut one_way = BuilderState::new(scenario_schema());
    one_way.call("name", str_value("a"));
    one_way.call("age", Value::Nat(5));
    one_way.call("tag", str_value("x"));
    let mut other_way = BuilderState::new(scenario_schema());
    other_way.call("tag", str_value("x"));
    other_way.call("age", Value::Nat(5));
    other_way.call("name", str_value("a"));
    assert_eq!(one_way.finalize().unwrap(), other_way.finalize().unwrap());
}

#[test]
fn accumulation_keeps_order_and_duplicates() {
    let mut b = BuilderState::new(scenario_schema());
    b.call("name", str_value("a"));
    b.call("tag", str_value("x"));
    b.call("tag", str_value("y"));
    b.call("tag", str_value("x"));
    let record = b.finalize().unwrap();
    assert_eq!(
        record[2].value,
        Some(Value::List(vec![str_value("x"), str_value("y"), str_value("x")]))
    );
}

#[test]
fn unknown_method_is_rejected_and_changes_nothing() {
    let mut b = BuilderState::new(scenario_schema());
    b.call("name", str_value("a"));
    b.call("tag", str_value("x"));
    let before = b.finalize();
    assert!(!b.call("nickname", str_value("n")));
    assert_eq!(b.finalize(), before);
}

#[test]
fn the_builder_remains_usable_after_finalize() {
    let mut b = BuilderState::new(scenario_schema());
    b.call("tag", str_value("x"));
    // A failed finalize leaves the builder intact.
    assert_eq!(b.finalize().unwrap_err().field, "name");
    b.call("name", str_value("a"));
    let first = b.finalize().unwrap();
    // A successful finalize duplicates the values: finalizing again gives
    // the same record, and further accumulation goes on from the old state.
    assert_eq!(b.finalize().unwrap(), first);
    b.call("tag", str_value("y"));
    let second = b.finalize().unwrap();
    assert_eq!(second[2].value, Some(Value::List(vec![str_value("x"), str_value("y")])));
}

#[test]
fn all_optional_record_finalizes_untouched() {
    let fields = vec![
        FieldDecl { name: "age".to_owned(), ty: ty1("Option", ty("u32")), attrs: vec![] },
        FieldDecl { name: "nick".to_owned(), ty: ty1("Option", ty("String")), attrs: vec![] },
    ];
    let schema = classify_fields(&fields, true).unwrap();
    let b = BuilderState::new(schema);
    let record = b.finalize().unwrap();
    assert_eq!(
        record,
        vec![
            FieldValue { name: "age".to_owned(), value: None },
            FieldValue { name: "nick".to_owned(), value: None },
        ]
    );
}

#[test]
fn colliding_method_names_are_detected() {
    let fields = vec![
        FieldDecl { name: "tag".to_owned(), ty: ty("String"), attrs: vec![] },
        FieldDecl {
            name: "tags".to_owned(),
            ty: ty1("Vec", ty("String")),
            attrs: vec![AttrShape::NameValueStr {
                key: "each".to_owned(),
                setter: "tag".to_owned(),
            }],
        },
    ];
    let schema = classify_fields(&fields, true).unwrap();
    assert!(!has_distinct_method_names(&schema));
    assert!(has_distinct_method_names(&scenario_schema()));
}

#[test]
fn overwriting_then_accumulating_touch_different_slots() {
    let mut b = BuilderState::new(scenario_schema());
    b.call("name", str_value("a"));
    b.call("name", str_value("b"));
    b.call("tag", str_value("x"));
    let record = b.finalize().unwrap();
    assert_eq!(record[0].value, Some(str_value("b")));
    assert_eq!(record[2].value, Some(Value::List(vec![str_value("x")])));
}
