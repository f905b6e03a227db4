use builder::AttrShape;
use builder::EntryPoint;
use builder::FieldDecl;
use builder::GenError;
use builder::RecordDecl;
use builder::Tier;
use builder::TypeRef;
use builder::generate;

fn ty(name: &str) -> TypeRef {
    TypeRef { name: name.to_owned(), args: vec![] }
}

fn ty1(name: &str, arg: TypeRef) -> TypeRef {
    TypeRef { name: name.to_owned(), args: vec![arg] }
}

fn field(name: &str, t: TypeRef) -> FieldDecl {
    FieldDecl { name: name.to_owned(), ty: t, attrs: vec![] }
}

fn each_field(name: &str, t: TypeRef, setter: &str) -> FieldDecl {
    FieldDecl {
        name: name.to_owned(),
        ty: t,
        attrs: vec![AttrShape::NameValueStr { key: "each".to_owned(), setter: setter.to_owned() }],
    }
}

/// The record of the worked scenario: a required string, an optional
/// number, and an accumulating container.
fn scenario_record() -> RecordDecl {
    RecordDecl {
        name: "Command".to_owned(),
        fields: vec![
            field("name", ty("String")),
            field("age", ty1("Option", ty("u32"))),
            each_field("tags", ty1("Vec", ty("String")), "tag"),
        ],
    }
}

#[test]
fn builder_shape_wraps_every_member_once() {
    let unit = generate(&scenario_record(), Tier::Attributes).unwrap();
    assert_eq!(unit.record_name, "Command");
    assert_eq!(unit.builder_name, "CommandBuilder");
    assert_eq!(unit.members.len(), 3);
    // A required field's member holds its declared type.
    assert_eq!(unit.members[0].name, "name");
    assert_eq!(unit.members[0].inner, ty("String"));
    // An optional field is not wrapped a second time: the member holds the
    // unwrapped inner type.
    assert_eq!(unit.members[1].name, "age");
    assert_eq!(unit.members[1].inner, ty("u32"));
    assert_eq!(unit.members[2].name, "tags");
    assert_eq!(unit.members[2].inner, ty1("Vec", ty("String")));
}

#[test]
fn shape_tier_emits_stub_entry_and_nothing_else() {
    let unit = generate(&scenario_record(), Tier::Shape).unwrap();
    assert_eq!(unit.entry, EntryPoint::Stub);
    assert!(unit.methods.is_empty());
    assert!(unit.finalize.is_none());
    assert_eq!(unit.members.len(), 3);
}

#[test]
fn setters_tier_emits_methods_but_no_finalize() {
    let unit = generate(&scenario_record(), Tier::Setters).unwrap();
    assert_eq!(unit.entry, EntryPoint::EmptyBuilder);
    assert_eq!(unit.methods.len(), 3);
    assert!(unit.finalize.is_none());
}

#[test]
fn validation_tier_ignores_accumulator_annotations() {
    let unit = generate(&scenario_record(), Tier::Validation).unwrap();
    // The annotated field still gets the plain overwriting setter.
    assert_eq!(unit.methods[2].name, "tags");
    assert_eq!(unit.methods[2].field, "tags");
    assert_eq!(unit.methods[2].arg, ty1("Vec", ty("String")));
    assert!(!unit.methods[2].accumulating);
    assert!(unit.finalize.is_some());
}

#[test]
fn attributes_tier_redirects_the_annotated_setter() {
    let unit = generate(&scenario_record(), Tier::Attributes).unwrap();
    // Plain setters take the field's inner type and go by the field name.
    assert_eq!(unit.methods[0].name, "name");
    assert_eq!(unit.methods[0].arg, ty("String"));
    assert!(!unit.methods[0].accumulating);
    assert_eq!(unit.methods[1].name, "age");
    assert_eq!(unit.methods[1].arg, ty("u32"));
    assert!(!unit.methods[1].accumulating);
    // The accumulating setter goes by the annotation's name and takes the
    // container's element type.
    assert_eq!(unit.methods[2].name, "tag");
    assert_eq!(unit.methods[2].field, "tags");
    assert_eq!(unit.methods[2].arg, ty("String"));
    assert!(unit.methods[2].accumulating);
}

#[test]
fn finalize_checks_exactly_the_required_fields_in_order() {
    let unit = generate(&scenario_record(), Tier::Attributes).unwrap();
    let fin = unit.finalize.unwrap();
    assert_eq!(fin.checks, vec!["name".to_owned(), "tags".to_owned()]);
    assert_eq!(fin.fields.len(), 3);
    assert_eq!(fin.fields[0].name, "name");
    assert!(fin.fields[0].unwrap);
    assert_eq!(fin.fields[1].name, "age");
    assert!(!fin.fields[1].unwrap);
    assert_eq!(fin.fields[2].name, "tags");
    assert!(fin.fields[2].unwrap);
}

#[test]
fn generation_is_deterministic() {
    let once = generate(&scenario_record(), Tier::Attributes).unwrap();
    let twice = generate(&scenario_record(), Tier::Attributes).unwrap();
    assert_eq!(once, twice);
    let shape_once = generate(&scenario_record(), Tier::Shape).unwrap();
    let shape_twice = generate(&scenario_record(), Tier::Shape).unwrap();
    assert_eq!(shape_once, shape_twice);
}

#[test]
fn optional_wrapper_with_no_argument_is_refused() {
    let record = RecordDecl {
        name: "Broken".to_owned(),
        fields: vec![field("x", TypeRef { name: "Option".to_owned(), args: vec![] })],
    };
    let err = generate(&record, Tier::Attributes).unwrap_err();
    assert_eq!(err, GenError::UnsupportedOptionalShape { field: "x".to_owned() });
    assert_eq!(err.describe(), "x: unsupported optional-wrapper shape");
}

#[test]
fn optional_wrapper_with_two_arguments_is_refused() {
    let record = RecordDecl {
        name: "Broken".to_owned(),
        fields: vec![field(
            "pair",
            TypeRef { name: "Option".to_owned(), args: vec![ty("u32"), ty("u64")] },
        )],
    };
    let err = generate(&record, Tier::Attributes).unwrap_err();
    assert_eq!(err, GenError::UnsupportedOptionalShape { field: "pair".to_owned() });
}

#[test]
fn accumulator_on_a_plain_type_is_refused() {
    let record = RecordDecl {
        name: "Broken".to_owned(),
        fields: vec![each_field("count", ty("u32"), "bump")],
    };
    let err = generate(&record, Tier::Attributes).unwrap_err();
    assert_eq!(err, GenError::UnsupportedContainerShape { field: "count".to_owned() });
    assert_eq!(err.describe(), "count: accumulator requires a single-argument container type");
}

#[test]
fn malformed_annotation_is_refused() {
    let record = RecordDecl {
        name: "Broken".to_owned(),
        fields: vec![FieldDecl {
            name: "tags".to_owned(),
            ty: ty1("Vec", ty("String")),
            attrs: vec![AttrShape::OtherShape],
        }],
    };
    let err = generate(&record, Tier::Attributes).unwrap_err();
    assert_eq!(err, GenError::MalformedAttribute { field: "tags".to_owned() });
    assert_eq!(err.describe(), "tags: malformed accumulator annotation");

    let record = RecordDecl {
        name: "Broken".to_owned(),
        fields: vec![FieldDecl {
            name: "tags".to_owned(),
            ty: ty1("Vec", ty("String")),
            attrs: vec![AttrShape::NameValueOther { key: "each".to_owned() }],
        }],
    };
    let err = generate(&record, Tier::Attributes).unwrap_err();
    assert_eq!(err, GenError::MalformedAttribute { field: "tags".to_owned() });
}

#[test]
fn malformed_annotation_is_ignored_below_the_attributes_tier() {
    let record = RecordDecl {
        name: "Tolerant".to_owned(),
        fields: vec![FieldDecl {
            name: "tags".to_owned(),
            ty: ty1("Vec", ty("String")),
            attrs: vec![AttrShape::OtherShape],
        }],
    };
    let unit = generate(&record, Tier::Validation).unwrap();
    assert_eq!(unit.methods[0].name, "tags");
    assert!(!unit.methods[0].accumulating);
}

#[test]
fn the_first_offending_field_is_reported() {
    let record = RecordDecl {
        name: "Broken".to_owned(),
        fields: vec![
            field("fine", ty("u32")),
            field("bad1", TypeRef { name: "Option".to_owned(), args: vec![] }),
            each_field("bad2", ty("u32"), "bump"),
        ],
    };
    let err = generate(&record, Tier::Attributes).unwrap_err();
    assert_eq!(err, GenError::UnsupportedOptionalShape { field: "bad1".to_owned() });
}

#[test]
fn empty_record_generates_an_empty_unit() {
    let record = RecordDecl { name: "Unit".to_owned(), fields: vec![] };
    let unit = generate(&record, Tier::Attributes).unwrap();
    assert!(unit.members.is_empty());
    assert!(unit.methods.is_empty());
    let fin = unit.finalize.unwrap();
    assert!(fin.checks.is_empty());
    assert!(fin.fields.is_empty());
}

#[test]
fn a_multi_argument_generic_that_is_not_the_wrapper_stays_plain() {
    let record = RecordDecl {
        name: "Wide".to_owned(),
        fields: vec![field(
            "map",
            TypeRef { name: "HashMap".to_owned(), args: vec![ty("String"), ty("u32")] },
        )],
    };
    let unit = generate(&record, Tier::Attributes).unwrap();
    assert_eq!(
        unit.members[0].inner,
        TypeRef { name: "HashMap".to_owned(), args: vec![ty("String"), ty("u32")] }
    );
    let fin = unit.finalize.unwrap();
    assert_eq!(fin.checks, vec!["map".to_owned()]);
}
