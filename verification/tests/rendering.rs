//! Tests of the rendering model: what the emitted routine prints for
//! concrete field values.

use short_debug::FieldDescriptor;
use short_debug::FieldStyle;
use short_debug::FieldValue;
use short_debug::TypeShape;
use short_debug::VariantDescriptor;
use short_debug::render_entry;
use short_debug::render_variant;

fn field(name: Option<&str>, binding: &str, outer: &str) -> FieldDescriptor {
    FieldDescriptor {
        name: name.map(|n| n.to_string()),
        binding: binding.to_string(),
        shape: TypeShape::Path { outer: outer.to_string() },
    }
}

fn config_variant() -> VariantDescriptor {
    VariantDescriptor {
        name: "Config".to_string(),
        style: FieldStyle::Named,
        fields: vec![
            field(Some("name"), "__binding_0", "Option"),
            field(Some("tags"), "__binding_1", "Vec"),
        ],
    }
}

#[test]
fn point_renders_both_plain_fields() {
    let variant = VariantDescriptor {
        name: "Point".to_string(),
        style: FieldStyle::Named,
        fields: vec![
            field(Some("x"), "__binding_0", "i32"),
            field(Some("y"), "__binding_1", "i32"),
        ],
    };
    let values = vec![
        FieldValue::Plain("3".to_string()),
        FieldValue::Plain("4".to_string()),
    ];
    assert_eq!(render_variant(&variant, &values), "Point { x: 3, y: 4 }");
}

#[test]
fn absent_option_and_empty_vec_are_omitted() {
    let values = vec![FieldValue::Absent, FieldValue::Items(vec![])];
    assert_eq!(render_variant(&config_variant(), &values), "Config");
}

#[test]
fn present_option_is_unwrapped_and_vec_shown_in_full() {
    let values = vec![
        FieldValue::Present("\"abc\"".to_string()),
        FieldValue::Items(vec!["\"t1\"".to_string()]),
    ];
    assert_eq!(
        render_variant(&config_variant(), &values),
        "Config { name: \"abc\", tags: [\"t1\"] }"
    );
}

#[test]
fn union_cases_render_independently() {
    let empty = VariantDescriptor {
        name: "Empty".to_string(),
        style: FieldStyle::NoFields,
        fields: vec![],
    };
    assert_eq!(render_variant(&empty, &vec![]), "Empty");
    let pair = VariantDescriptor {
        name: "Pair".to_string(),
        style: FieldStyle::Positional,
        fields: vec![
            field(None, "__binding_0", "u8"),
            field(None, "__binding_1", "u8"),
        ],
    };
    let values = vec![
        FieldValue::Plain("1".to_string()),
        FieldValue::Plain("2".to_string()),
    ];
    assert_eq!(render_variant(&pair, &values), "Pair(1, 2)");
}

#[test]
fn zero_field_variants_render_as_bare_name_in_both_forms() {
    let keyed = VariantDescriptor {
        name: "Nothing".to_string(),
        style: FieldStyle::NoFields,
        fields: vec![],
    };
    assert_eq!(render_variant(&keyed, &vec![]), "Nothing");
    let sequential = VariantDescriptor {
        name: "Nothing2".to_string(),
        style: FieldStyle::Positional,
        fields: vec![],
    };
    assert_eq!(render_variant(&sequential, &vec![]), "Nothing2");
}

#[test]
fn optional_entry_is_none_when_absent_and_inner_when_present() {
    let f = field(Some("name"), "__binding_0", "Option");
    assert_eq!(render_entry(&f, &FieldValue::Absent), None);
    let present = render_entry(&f, &FieldValue::Present("7".to_string()));
    assert_eq!(present, Some("name: 7".to_string()));
}

#[test]
fn sequence_entry_is_none_when_empty_and_full_otherwise() {
    let f = field(Some("tags"), "__binding_0", "Vec");
    assert_eq!(render_entry(&f, &FieldValue::Items(vec![])), None);
    let items = vec!["1".to_string(), "2".to_string(), "3".to_string()];
    assert_eq!(
        render_entry(&f, &FieldValue::Items(items)),
        Some("tags: [1, 2, 3]".to_string())
    );
}

#[test]
fn plain_entry_is_always_rendered() {
    let f = field(Some("x"), "__binding_0", "i32");
    assert_eq!(
        render_entry(&f, &FieldValue::Plain("0".to_string())),
        Some("x: 0".to_string())
    );
    assert_eq!(
        render_entry(&f, &FieldValue::Plain("".to_string())),
        Some("x: ".to_string())
    );
}

#[test]
fn positional_entries_have_no_name_prefix() {
    let f = field(None, "__binding_0", "Option");
    assert_eq!(
        render_entry(&f, &FieldValue::Present("9".to_string())),
        Some("9".to_string())
    );
    assert_eq!(render_entry(&f, &FieldValue::Absent), None);
}

#[test]
fn rendered_entries_keep_declaration_order() {
    let variant = VariantDescriptor {
        name: "Rec".to_string(),
        style: FieldStyle::Named,
        fields: vec![
            field(Some("b"), "__binding_0", "i32"),
            field(Some("middle"), "__binding_1", "Option"),
            field(Some("a"), "__binding_2", "i32"),
        ],
    };
    let values = vec![
        FieldValue::Plain("1".to_string()),
        FieldValue::Absent,
        FieldValue::Plain("3".to_string()),
    ];
    // The omitted middle field leaves the declared order b, a intact.
    assert_eq!(render_variant(&variant, &values), "Rec { b: 1, a: 3 }");
}

#[test]
fn same_named_wrapper_is_suppressed_lexically() {
    // A field whose declared type merely reads `Option`, from
    // whatever module, follows the optional rule.
    let f = field(Some("maybe"), "__binding_0", "Option");
    assert_eq!(render_entry(&f, &FieldValue::Absent), None);
    // A renamed alias of an optional type does not match and is
    // treated as plain.
    let aliased = field(Some("maybe"), "__binding_0", "MyOption");
    assert_eq!(
        render_entry(&aliased, &FieldValue::Plain("None".to_string())),
        Some("maybe: None".to_string())
    );
}
