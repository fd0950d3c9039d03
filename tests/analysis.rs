use tagged_union::conversion::{Conversion, RawKind, SumValue, TaggedValue};
use tagged_union::expand::{expand, Expansion};
use tagged_union::layout::{field_ident, field_name, generate_tagged, union_codegen};
use tagged_union::names::{constant_name, format_tagged_name, format_union_name};
use tagged_union::shape::{
    is_copy_attr, is_generic, validate, AnalysisError, Attribute, Body, DeriveInput, Generics,
    MetaItem, NestedMetaItem, Variant, VariantData, VariantSpec,
};
use tagged_union::tags::{generate_tags, tags_distinct, Tag};
use tagged_union::typemap::{typemap_for, TypeMap, TypeMapEntry};
use tagged_union::InvalidTag;

fn unit(name: &str) -> Variant {
    Variant { ident: name.to_string(), data: VariantData::Unit }
}

fn tuple(name: &str, tys: &[&str]) -> Variant {
    Variant {
        ident: name.to_string(),
        data: VariantData::Tuple(tys.iter().map(|t| t.to_string()).collect()),
    }
}

fn derive(words: &[&str]) -> Attribute {
    Attribute {
        value: MetaItem::List(
            "derive".to_string(),
            words.iter().map(|w| NestedMetaItem::Word(w.to_string())).collect(),
        ),
    }
}

fn no_generics() -> Generics {
    Generics { lifetimes: 0, ty_params: 0, where_predicates: 0 }
}

fn copy_enum(name: &str, variants: Vec<Variant>) -> DeriveInput {
    DeriveInput {
        ident: name.to_string(),
        attrs: vec![derive(&["Debug", "Copy", "Clone"])],
        generics: no_generics(),
        body: Body::Enum(variants),
    }
}

fn spec(name: &str, payload: Option<&str>) -> VariantSpec {
    VariantSpec { name: name.to_string(), payload: payload.map(|p| p.to_string()) }
}

fn entry(ty: &str, names: &[&str]) -> TypeMapEntry {
    TypeMapEntry { ty: ty.to_string(), variants: names.iter().map(|n| n.to_string()).collect() }
}

fn message() -> Expansion {
    let input = copy_enum(
        "Message",
        vec![unit("Halt"), tuple("Move", &["Point"]), tuple("Wait", &["u32"])],
    );
    expand(&input).unwrap()
}

#[test]
fn tag_for_variant() {
    // enum Foo { Halt, Move(usize), Wait { secs: i64 }, }
    let variants = vec![
        unit("Halt"),
        tuple("Move", &["usize"]),
        Variant { ident: "Wait".to_string(), data: VariantData::Struct(vec!["i64".to_string()]) },
    ];
    let should_be = vec![Tag::new("FOO", "Halt", 0), Tag::new("FOO", "Move", 1), Tag::new("FOO", "Wait", 2)];

    let got = generate_tags("Foo", &variants);

    assert_eq!(got, should_be);
}

#[test]
fn generate_typemap() {
    // enum Foo { Halt, Move(usize), Wait(Bar), }
    let variants = vec![spec("Halt", None), spec("Move", Some("usize")), spec("Wait", Some("Bar"))];
    let should_be =
        TypeMap { entries: vec![entry("()", &["Halt"]), entry("usize", &["Move"]), entry("Bar", &["Wait"])] };

    let got = typemap_for(&variants);

    assert_eq!(got, should_be);
}

#[test]
fn smoke_test() {
    // #[derive(Copy)] enum Foo { Halt, Count(usize), Wait(Bar), }
    let input = copy_enum("Foo", vec![unit("Halt"), tuple("Count", &["usize"]), tuple("Wait", &["Bar"])]);

    let got = expand(&input);

    assert!(got.is_ok());
}

#[test]
fn find_copy_types() {
    let inputs = vec![
        (derive(&["Copy"]), true),
        (derive(&["Debug", "Clone", "PartialEq"]), false),
        (Attribute { value: MetaItem::Word("macro_use".to_string()) }, false),
        (Attribute { value: MetaItem::NameValue("rename".to_string()) }, false),
    ];

    for (attr, should_be) in inputs {
        let got = is_copy_attr(&attr);

        assert_eq!(got, should_be, "{:?}", attr);
    }
}

#[test]
fn copy_inside_other_list_is_not_copy() {
    let attr = Attribute {
        value: MetaItem::List("allow".to_string(), vec![NestedMetaItem::Word("Copy".to_string())]),
    };
    assert!(!is_copy_attr(&attr));
    assert!(is_copy_attr(&Attribute {
        value: MetaItem::List(
            "derive".to_string(),
            vec![NestedMetaItem::Other, NestedMetaItem::Word("Copy".to_string())],
        ),
    }));
}

#[test]
fn message_tags() {
    let x = message();
    let names: Vec<(String, u32)> = x.tags.iter().map(|t| (t.constant_tag.clone(), t.number)).collect();
    assert_eq!(
        names,
        vec![("MESSAGE_HALT".to_string(), 0), ("MESSAGE_MOVE".to_string(), 1), ("MESSAGE_WAIT".to_string(), 2)]
    );
}

#[test]
fn message_union_fields() {
    let x = message();
    let fields: Vec<(String, String)> =
        x.the_union.fields.iter().map(|f| (f.name.clone(), f.ty.clone())).collect();
    assert_eq!(
        fields,
        vec![
            ("halt".to_string(), "()".to_string()),
            ("move_".to_string(), "Point".to_string()),
            ("wait".to_string(), "u32".to_string()),
        ]
    );
    assert_eq!(x.the_union.name, "MessageKind");
    assert_eq!(x.the_struct.name, "TaggedMessage");
    assert_eq!(x.the_struct.union_name, "MessageKind");
}

#[test]
fn shared_payload_type_shares_one_field() {
    let x = expand(&copy_enum("Foo", vec![tuple("A", &["u32"]), tuple("B", &["u32"])])).unwrap();
    assert_eq!(x.typemap, TypeMap { entries: vec![entry("u32", &["A", "B"])] });
    assert_eq!(x.the_union.fields.len(), 1);
    assert_eq!(x.the_union.fields[0].name, "a");
    assert_eq!(x.the_union.fields[0].ty, "u32");
    assert_eq!(x.conversion.arms[0].field, 0);
    assert_eq!(x.conversion.arms[1].field, 0);
}

#[test]
fn unit_payload_joins_unit_variants() {
    let x = expand(&copy_enum("Foo", vec![unit("A"), tuple("B", &["()"]), tuple("C", &["u8"])])).unwrap();
    assert_eq!(x.typemap, TypeMap { entries: vec![entry("()", &["A", "B"]), entry("u8", &["C"])] });
    assert!(!x.conversion.arms[0].has_payload);
    assert!(x.conversion.arms[1].has_payload);
    assert_eq!(x.conversion.arms[1].field, 0);
    assert_eq!(x.conversion.arms[2].field, 1);
}

#[test]
fn struct_is_not_an_enum() {
    let input = DeriveInput {
        ident: "Foo".to_string(),
        attrs: vec![derive(&["Copy"])],
        generics: no_generics(),
        body: Body::Struct,
    };
    assert_eq!(expand(&input).unwrap_err(), AnalysisError::NotAnEnum);
}

#[test]
fn generic_enum_is_refused() {
    let mut input = copy_enum("Foo", vec![tuple("A", &["T"])]);
    input.generics.ty_params = 1;
    assert_eq!(expand(&input).unwrap_err(), AnalysisError::GenericNotSupported);
    let mut input = copy_enum("Foo", vec![tuple("A", &["&'a u8"])]);
    input.generics.lifetimes = 1;
    assert_eq!(expand(&input).unwrap_err(), AnalysisError::GenericNotSupported);
    assert!(is_generic(&Generics { lifetimes: 0, ty_params: 0, where_predicates: 2 }));
    assert!(!is_generic(&no_generics()));
}

#[test]
fn two_field_variant_is_refused() {
    let input = copy_enum("Foo", vec![tuple("A", &["u32", "u32"])]);
    assert_eq!(expand(&input).unwrap_err(), AnalysisError::UnsupportedVariantShape);
}

#[test]
fn named_field_variant_is_refused() {
    let input = copy_enum(
        "Foo",
        vec![unit("A"), Variant { ident: "B".to_string(), data: VariantData::Struct(vec!["u32".to_string()]) }],
    );
    assert_eq!(validate(&input).unwrap_err(), AnalysisError::UnsupportedVariantShape);
}

#[test]
fn enum_without_copy_is_refused() {
    let mut input = copy_enum("Foo", vec![unit("A")]);
    input.attrs = vec![derive(&["Debug", "Clone"])];
    assert_eq!(expand(&input).unwrap_err(), AnalysisError::NotTriviallyCopyable);
}

#[test]
fn colliding_tag_names_are_refused() {
    let input = copy_enum("Foo", vec![unit("Ab"), unit("AB")]);
    assert_eq!(expand(&input).unwrap_err(), AnalysisError::DuplicateTagName);
    let tags = generate_tags("Foo", &vec![unit("Ab"), unit("aB")]);
    assert!(!tags_distinct(&tags));
    assert!(tags_distinct(&generate_tags("Foo", &vec![unit("A"), unit("B")])));
}

#[test]
fn validate_keeps_declaration_order() {
    let input = copy_enum("Foo", vec![tuple("B", &["u8"]), unit("A")]);
    assert_eq!(validate(&input).unwrap(), vec![spec("B", Some("u8")), spec("A", None)]);
}

#[test]
fn empty_enum_expands_to_nothing() {
    let x = expand(&copy_enum("Never", vec![])).unwrap();
    assert!(x.tags.is_empty());
    assert!(x.the_union.fields.is_empty());
    assert!(x.conversion.arms.is_empty());
}

#[test]
fn round_trip_each_variant() {
    let x = message();
    let values = vec![
        SumValue { variant: 0, payload: None },
        SumValue { variant: 1, payload: Some(17u64) },
        SumValue { variant: 2, payload: Some(250u64) },
    ];
    for v in values {
        let tagged = x.conversion.as_tagged(v.clone());
        assert_eq!(tagged.tag as usize, v.variant);
        assert_eq!(x.conversion.tag(&v) as usize, v.variant);
        assert_eq!(x.conversion.from_tagged(tagged), Ok(v));
    }
}

#[test]
fn move_is_stored_in_its_field() {
    let x = message();
    let tagged = x.conversion.as_tagged(SumValue { variant: 1, payload: Some(5u8) });
    assert_eq!(tagged, TaggedValue { tag: 1, kind: RawKind { field: 1, payload: Some(5u8) } });
}

#[test]
fn unknown_tag_is_invalid() {
    let x = message();
    let got = x.conversion.from_tagged(TaggedValue { tag: 99, kind: RawKind { field: 0, payload: Some(1u8) } });
    assert_eq!(got, Err(InvalidTag { got: 99, possible_tags: 0..3 }));
    let got = x.conversion.from_tagged(TaggedValue { tag: 3, kind: RawKind { field: 7, payload: None::<u8> } });
    assert_eq!(got, Err(InvalidTag { got: 3, possible_tags: 0..3 }));
}

#[test]
fn hand_written_conversion_checks_tags() {
    let c = Conversion { arms: Vec::new() };
    let got = c.from_tagged(TaggedValue { tag: 0, kind: RawKind { field: 0, payload: None::<u8> } });
    assert_eq!(got, Err(InvalidTag { got: 0, possible_tags: 0..0 }));
}

#[test]
fn expansion_is_deterministic() {
    assert_eq!(message(), message());
}

#[test]
fn names_are_derived_from_the_type() {
    assert_eq!(format_union_name("Foo"), "FooKind");
    assert_eq!(format_tagged_name("Foo"), "TaggedFoo");
    assert_eq!(constant_name("FOO", "BAR"), "FOO_BAR");
    assert_eq!(Tag::new("FOO", "waitLong", 4).constant_tag, "FOO_WAITLONG");
    assert_eq!(Tag::new("FOO", "waitLong", 4).original_name, "waitLong");
    let d = generate_tagged("Foo");
    assert_eq!((d.name.as_str(), d.union_name.as_str()), ("TaggedFoo", "FooKind"));
}

#[test]
fn field_names_are_lower_case() {
    assert_eq!(field_name("WaitLong"), "waitlong");
    assert_eq!(field_name("Match"), "match_");
    assert_eq!(field_name("Type"), "type_");
    assert_eq!(field_name("Unsafe"), "unsafe_");
    assert_eq!(field_name("Moved"), "moved");
    assert_eq!(field_ident("halt"), "halt");
    let u = union_codegen("Foo", &TypeMap { entries: vec![entry("u16", &["Big", "Small"])] });
    assert_eq!(u.name, "FooKind");
    assert_eq!(u.fields[0].name, "big");
}
