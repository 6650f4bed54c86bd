use variation::{synthesize, MethodBundle, Outcome, TaggedUnionDef, UnionValue, VariantDef};

/// A payload field of one of the types that the unions below name.
#[derive(Debug, Clone, PartialEq, Eq)]
enum Val {
    Int(i32),
    Str(String),
    Num(usize),
    Bool(bool),
}

fn variant(name: &str, fields: &[&str]) -> VariantDef {
    VariantDef {
        name: name.to_string(),
        fields: fields.iter().map(|f| f.to_string()).collect(),
    }
}

fn value(variant: &str, fields: Vec<Val>) -> UnionValue<Val> {
    UnionValue { variant: variant.to_string(), fields }
}

/// `enum Foo { Bar, Baz, Point(i32, i32) }`
fn foo() -> MethodBundle {
    let def = TaggedUnionDef {
        name: "Foo".to_string(),
        variants: vec![
            variant("Bar", &[]),
            variant("Baz", &[]),
            variant("Point", &["i32", "i32"]),
        ],
    };
    synthesize(&def).unwrap()
}

/// `enum Type { String(String), Number(usize), Bool(bool), Tuple(String, bool) }`
fn ty() -> MethodBundle {
    let def = TaggedUnionDef {
        name: "Type".to_string(),
        variants: vec![
            variant("String", &["String"]),
            variant("Number", &["usize"]),
            variant("Bool", &["bool"]),
            variant("Tuple", &["String", "bool"]),
        ],
    };
    synthesize(&def).unwrap()
}

#[test]
fn is_implementation() {
    let foo = foo();
    let is_bar = foo.find("is_bar").unwrap();
    let is_baz = foo.find("is_baz").unwrap();
    let is_point = foo.find("is_point").unwrap();

    assert_eq!(is_bar.call_shared(&value("Bar", vec![])), Some(Outcome::Flag(true)));
    assert_eq!(is_baz.call_shared(&value("Baz", vec![])), Some(Outcome::Flag(true)));
    assert_eq!(
        is_point.call_shared(&value("Point", vec![Val::Int(0), Val::Int(0)])),
        Some(Outcome::Flag(true))
    );
}

#[test]
fn as_implementation() {
    let ty = ty();
    let as_bool = ty.find("as_bool").unwrap();
    let as_number = ty.find("as_number").unwrap();
    let as_tuple = ty.find("as_tuple").unwrap();

    assert_eq!(
        as_bool.call_shared(&value("Bool", vec![Val::Bool(true)])),
        Some(Outcome::Present(&[Val::Bool(true)][..]))
    );
    assert_eq!(
        Some(Outcome::Present(&[Val::Num(5)][..])),
        as_number.call_shared(&value("Number", vec![Val::Num(5)]))
    );
    assert_eq!(
        Some(Outcome::Absent),
        as_number.call_shared(&value("String", vec![Val::Str(String::new())]))
    );
    assert_eq!(
        Some(Outcome::Present(&[Val::Str(String::new()), Val::Bool(true)][..])),
        as_tuple.call_shared(&value("Tuple", vec![Val::Str(String::new()), Val::Bool(true)]))
    );
}

#[test]
fn as_mut_implementation() {
    let ty = ty();
    let as_bool_mut = ty.find("as_bool_mut").unwrap();
    let mut b = value("Bool", vec![Val::Bool(false)]);

    {
        match as_bool_mut.call_exclusive(&mut b) {
            Some(Outcome::Present(ref_b)) => ref_b[0] = Val::Bool(true),
            other => panic!("no view of the payload: {:?}", other),
        }
    }

    assert_eq!(
        as_bool_mut.call_exclusive(&mut b),
        Some(Outcome::Present(&mut [Val::Bool(true)][..]))
    );
}

#[test]
fn into_implementation() {
    let ty = ty();
    let b = value("Bool", vec![Val::Bool(true)]);
    let num = value("Number", vec![Val::Num(5)]);

    assert_eq!(
        ty.find("into_bool").unwrap().call_owned(b),
        Some(Outcome::Payload(vec![Val::Bool(true)]))
    );
    assert_eq!(
        Some(Outcome::Payload(vec![Val::Num(5)])),
        ty.find("into_number").unwrap().call_owned(num)
    );
}
