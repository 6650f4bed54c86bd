use variation::{
    as_accessor, as_mut_accessor, describe, generate_ident_list_pattern, generate_ignore_pattern,
    has_name_collision, impl_variation, into_accessor, is_check, payload_shape, synthesize,
    synthesize_described, Definition, Fallback, FieldPattern, GenerationError, MatchBody,
    MethodBundle, MethodDef, MethodKind, PayloadShape, Receiver, ReturnShape, TaggedUnionDef,
    VariantDef, VariantDescription,
};

fn variant(name: &str, fields: &[&str]) -> VariantDef {
    VariantDef {
        name: name.to_string(),
        fields: fields.iter().map(|f| f.to_string()).collect(),
    }
}

fn union(name: &str, variants: Vec<VariantDef>) -> TaggedUnionDef {
    TaggedUnionDef { name: name.to_string(), variants }
}

fn described(name: &str, stem: &str, fields: &[&str]) -> VariantDescription {
    VariantDescription {
        name: name.to_string(),
        name_stem: stem.to_string(),
        arity: fields.len(),
        field_types: fields.iter().map(|f| f.to_string()).collect(),
    }
}

fn bind(slot: usize, by_ref: bool, mutable: bool) -> FieldPattern {
    FieldPattern::Bind { slot, by_ref, mutable }
}

fn names(bundle: &MethodBundle) -> Vec<String> {
    bundle.methods.iter().map(|m| m.name.clone()).collect()
}

#[test]
fn ident_list_pattern_of_no_field_is_empty() {
    assert_eq!(generate_ident_list_pattern(0, false, false), vec![]);
    assert_eq!(generate_ident_list_pattern(0, true, true), vec![]);
}

#[test]
fn ident_list_pattern_numbers_the_fields() {
    assert_eq!(
        generate_ident_list_pattern(3, false, false),
        vec![bind(0, false, false), bind(1, false, false), bind(2, false, false)]
    );
    assert_eq!(
        generate_ident_list_pattern(2, true, false),
        vec![bind(0, true, false), bind(1, true, false)]
    );
    assert_eq!(generate_ident_list_pattern(1, true, true), vec![bind(0, true, true)]);
}

#[test]
fn ignore_pattern_has_one_entry_for_each_field() {
    assert_eq!(generate_ignore_pattern(0), vec![]);
    assert_eq!(generate_ignore_pattern(2), vec![FieldPattern::Ignore, FieldPattern::Ignore]);
}

#[test]
fn one_type_stands_alone_and_more_make_a_tuple() {
    assert_eq!(
        payload_shape(&vec!["f64".to_string()]),
        PayloadShape::Single("f64".to_string())
    );
    assert_eq!(
        payload_shape(&vec!["f64".to_string(), "u8".to_string()]),
        PayloadShape::Tuple(vec!["f64".to_string(), "u8".to_string()])
    );
}

#[test]
fn the_test_of_a_variant() {
    assert_eq!(
        is_check(&described("Rect", "rect", &["f64", "f64"])),
        MethodDef {
            name: "is_rect".to_string(),
            kind: MethodKind::Is,
            receiver: Receiver::Shared,
            returns: ReturnShape::Bool,
            body: MatchBody {
                variant: "Rect".to_string(),
                pattern: vec![FieldPattern::Ignore, FieldPattern::Ignore],
                fallback: Fallback::False,
            },
        }
    );
}

#[test]
fn the_shared_accessor_of_a_variant() {
    assert_eq!(
        as_accessor(&described("Rect", "rect", &["f64", "f64"])),
        MethodDef {
            name: "as_rect".to_string(),
            kind: MethodKind::As,
            receiver: Receiver::Shared,
            returns: ReturnShape::OptionalRef(PayloadShape::Tuple(vec![
                "f64".to_string(),
                "f64".to_string()
            ])),
            body: MatchBody {
                variant: "Rect".to_string(),
                pattern: vec![bind(0, true, false), bind(1, true, false)],
                fallback: Fallback::Absent,
            },
        }
    );
}

#[test]
fn the_exclusive_accessor_of_a_variant() {
    assert_eq!(
        as_mut_accessor(&described("Number", "number", &["usize"])),
        MethodDef {
            name: "as_number_mut".to_string(),
            kind: MethodKind::AsMut,
            receiver: Receiver::Exclusive,
            returns: ReturnShape::OptionalMut(PayloadShape::Single("usize".to_string())),
            body: MatchBody {
                variant: "Number".to_string(),
                pattern: vec![bind(0, true, true)],
                fallback: Fallback::Absent,
            },
        }
    );
}

#[test]
fn the_consuming_accessor_of_a_variant() {
    assert_eq!(
        into_accessor(&described("Pair", "pair", &["String", "bool"])),
        MethodDef {
            name: "into_pair".to_string(),
            kind: MethodKind::Into,
            receiver: Receiver::Owned,
            returns: ReturnShape::Owned(PayloadShape::Tuple(vec![
                "String".to_string(),
                "bool".to_string()
            ])),
            body: MatchBody {
                variant: "Pair".to_string(),
                pattern: vec![bind(0, false, false), bind(1, false, false)],
                fallback: Fallback::Abort,
            },
        }
    );
}

#[test]
fn a_variant_without_payload_gets_its_test_alone() {
    let bundle = synthesize(&union("Foo", vec![variant("Bar", &[]), variant("Baz", &[])])).unwrap();
    assert_eq!(bundle.owner, "Foo");
    assert_eq!(names(&bundle), vec!["is_bar", "is_baz"]);
    assert!(bundle.methods.iter().all(|m| m.kind == MethodKind::Is));
    assert!(bundle.find("as_bar").is_none());
    assert!(bundle.find("as_bar_mut").is_none());
    assert!(bundle.find("into_bar").is_none());
}

#[test]
fn methods_follow_the_order_of_the_variants() {
    let bundle = synthesize(&union(
        "Shape",
        vec![variant("Circle", &[]), variant("Rect", &["f64", "f64"]), variant("Dot", &["u8"])],
    ))
    .unwrap();
    assert_eq!(
        names(&bundle),
        vec![
            "is_circle",
            "is_rect",
            "as_rect",
            "as_rect_mut",
            "into_rect",
            "is_dot",
            "as_dot",
            "as_dot_mut",
            "into_dot"
        ]
    );
    let rect = described("Rect", "rect", &["f64", "f64"]);
    assert_eq!(bundle.methods[1], is_check(&rect));
    assert_eq!(bundle.methods[2], as_accessor(&rect));
    assert_eq!(bundle.methods[3], as_mut_accessor(&rect));
    assert_eq!(bundle.methods[4], into_accessor(&rect));
    assert_eq!(
        bundle.methods[6].returns,
        ReturnShape::OptionalRef(PayloadShape::Single("u8".to_string()))
    );
}

#[test]
fn field_types_are_neither_reordered_nor_deduplicated() {
    let bundle =
        synthesize(&union("T", vec![variant("Triple", &["B", "A", "B"])])).unwrap();
    let payload = PayloadShape::Tuple(vec!["B".to_string(), "A".to_string(), "B".to_string()]);
    assert_eq!(bundle.find("into_triple").unwrap().returns, ReturnShape::Owned(payload));
}

#[test]
fn a_union_without_variants_has_an_empty_bundle() {
    assert_eq!(
        synthesize(&union("Never", vec![])),
        Ok(MethodBundle { owner: "Never".to_string(), methods: vec![] })
    );
}

#[test]
fn synthesis_describes_each_variant() {
    let def = union("Type", vec![variant("SomeString", &["String"]), variant("Unit", &[])]);
    let descriptions: Vec<VariantDescription> = def.variants.iter().map(describe).collect();
    assert_eq!(synthesize(&def), synthesize_described("Type", &descriptions));
    assert_eq!(
        names(&synthesize(&def).unwrap()),
        vec![
            "is_some_string",
            "as_some_string",
            "as_some_string_mut",
            "into_some_string",
            "is_unit"
        ]
    );
}

#[test]
fn synthesis_from_descriptions_takes_the_stems_as_given() {
    let bundle = synthesize_described(
        "T",
        &vec![described("Alpha", "first", &[]), described("Beta", "second", &["u8"])],
    )
    .unwrap();
    assert_eq!(
        names(&bundle),
        vec!["is_first", "is_second", "as_second", "as_second_mut", "into_second"]
    );
    assert_eq!(bundle.methods[0].body.variant, "Alpha");
    assert_eq!(bundle.methods[4].body.variant, "Beta");
}

#[test]
fn two_variants_with_one_stem_collide() {
    let def = union("U", vec![variant("FooBar", &[]), variant("Foo_Bar", &[])]);
    assert_eq!(describe(&def.variants[0]).name_stem, "foo_bar");
    assert_eq!(describe(&def.variants[1]).name_stem, "foo_bar");
    assert_eq!(synthesize(&def), Err(GenerationError::NameCollision));
    assert_eq!(
        impl_variation(&Definition::TaggedUnion(def)),
        Err(GenerationError::NameCollision)
    );
}

#[test]
fn a_repeated_variant_name_collides() {
    let def = union("U", vec![variant("A", &["u8"]), variant("B", &[]), variant("A", &[])]);
    assert_eq!(synthesize(&def), Err(GenerationError::NameCollision));
}

#[test]
fn an_exclusive_accessor_collides_with_the_shared_one_of_a_mut_variant() {
    let def = union("U", vec![variant("Foo", &["u8"]), variant("FooMut", &["u8"])]);
    assert_eq!(synthesize(&def), Err(GenerationError::NameCollision));
}

#[test]
fn a_mut_variant_without_payload_collides_with_nothing() {
    let def = union("U", vec![variant("Foo", &["u8"]), variant("FooMut", &[])]);
    assert_eq!(
        names(&synthesize(&def).unwrap()),
        vec!["is_foo", "as_foo", "as_foo_mut", "into_foo", "is_foo_mut"]
    );
}

#[test]
fn an_empty_variant_name_is_invalid() {
    let def = union("U", vec![variant("A", &[]), variant("", &["u8"])]);
    assert_eq!(synthesize(&def), Err(GenerationError::InvalidVariantName));
}

#[test]
fn an_empty_variant_name_is_reported_before_a_collision() {
    let def = union("U", vec![variant("A", &[]), variant("A", &[]), variant("", &[])]);
    assert_eq!(synthesize(&def), Err(GenerationError::InvalidVariantName));
}

#[test]
fn only_a_tagged_union_has_methods() {
    assert_eq!(
        impl_variation(&Definition::Record("Point".to_string())),
        Err(GenerationError::UnsupportedDefinitionKind)
    );
    assert_eq!(
        impl_variation(&Definition::UntaggedUnion("Bits".to_string())),
        Err(GenerationError::UnsupportedDefinitionKind)
    );
}

#[test]
fn a_tagged_union_is_synthesized() {
    let bundle = impl_variation(&Definition::TaggedUnion(union(
        "Foo",
        vec![variant("Bar", &[]), variant("Point", &["i32", "i32"])],
    )))
    .unwrap();
    assert_eq!(
        Ok(bundle),
        synthesize(&union("Foo", vec![variant("Bar", &[]), variant("Point", &["i32", "i32"])]))
    );
}

#[test]
fn collisions_are_found_anywhere_in_the_list() {
    let a = is_check(&described("A", "x", &[]));
    let b = is_check(&described("B", "y", &[]));
    let c = is_check(&described("C", "x", &[]));
    assert!(!has_name_collision(&vec![]));
    assert!(!has_name_collision(&vec![is_check(&described("A", "x", &[]))]));
    assert!(!has_name_collision(&vec![a, b]));
    let a = is_check(&described("A", "x", &[]));
    let b = is_check(&described("B", "y", &[]));
    assert!(has_name_collision(&vec![a, b, c]));
}

#[test]
fn find_gives_the_method_of_that_name() {
    let bundle = synthesize(&union("Foo", vec![variant("Point", &["i32", "i32"])])).unwrap();
    assert_eq!(bundle.find("as_point_mut"), Some(&bundle.methods[2]));
    assert_eq!(bundle.find("as_point_mu"), None);
    assert_eq!(bundle.find(""), None);
    assert_eq!(bundle.find("Point"), None);
}

#[test]
fn a_variant_name_that_gives_no_identifiers_is_invalid() {
    let def = union("U", vec![variant("A", &[]), variant("can't", &["u8"])]);
    assert_eq!(synthesize(&def), Err(GenerationError::InvalidVariantName));
    assert_eq!(
        impl_variation(&Definition::TaggedUnion(def)),
        Err(GenerationError::InvalidVariantName)
    );
}

#[test]
fn synthesis_from_descriptions_does_not_look_into_the_stems() {
    let bundle = synthesize_described("T", &vec![described("A", "not a stem", &[])]).unwrap();
    assert_eq!(names(&bundle), vec!["is_not a stem"]);
}
