use variation::{describe, VariantDef, VariantDescription};

fn variant(name: &str, fields: &[&str]) -> VariantDef {
    VariantDef {
        name: name.to_string(),
        fields: fields.iter().map(|f| f.to_string()).collect(),
    }
}

#[test]
fn a_unit_variant_has_arity_zero() {
    let v = variant("Circle", &[]);
    assert_eq!(v.arity(), 0);
    assert_eq!(
        describe(&v),
        VariantDescription {
            name: "Circle".to_string(),
            name_stem: "circle".to_string(),
            arity: 0,
            field_types: vec![],
        }
    );
}

#[test]
fn field_types_are_kept_in_declaration_order() {
    let v = variant("KeyValue", &["String", "Vec<u8>", "String"]);
    assert_eq!(v.arity(), 3);
    assert_eq!(
        describe(&v),
        VariantDescription {
            name: "KeyValue".to_string(),
            name_stem: "key_value".to_string(),
            arity: 3,
            field_types: vec!["String".to_string(), "Vec<u8>".to_string(), "String".to_string()],
        }
    );
}

#[test]
fn type_tokens_are_not_looked_at() {
    let v = variant("Odd", &["&'a mut [T; 4]", ""]);
    let d = describe(&v);
    assert_eq!(d.arity, 2);
    assert_eq!(d.field_types, vec!["&'a mut [T; 4]".to_string(), String::new()]);
}

#[test]
fn the_empty_name_is_described_too() {
    let d = describe(&variant("", &["u8"]));
    assert_eq!(d.name, "");
    assert_eq!(d.name_stem, "");
    assert_eq!(d.arity, 1);
}
