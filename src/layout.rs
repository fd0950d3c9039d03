//! The raw union and the record that pairs it with a tag.
use vstd::prelude::*;
use vstd::string::*;
use crate::names::{
    format_tagged_name, format_union_name, lower_of, tagged_name_spec, to_lower, union_name_spec,
};
use crate::typemap::{TypeMap, entries_nonempty};

verus! {

/// One field of the raw union: its name and the payload type it stores.
#[derive(Debug, Clone, PartialEq)]
pub struct UnionField {
    pub name: String,
    pub ty: String,
}

/// The raw union `<Name>Kind`, one field per distinct payload type, all
/// fields sharing one storage.
#[derive(Debug, Clone, PartialEq)]
pub struct UnionDecl {
    pub name: String,
    pub fields: Vec<UnionField>,
}

/// The record `Tagged<Name>`: a `u32` field `tag`, then a field `kind` of the
/// raw union, laid out in that order as a C struct.
#[derive(Debug, Clone, PartialEq)]
pub struct TaggedDecl {
    pub name: String,
    pub union_name: String,
}

/// The words that cannot name a field.
pub open spec fn keywords() -> Seq<Seq<char>> {
    seq![
        "as"@, "async"@, "await"@, "break"@, "const"@, "continue"@, "crate"@, "dyn"@,
        "else"@, "enum"@, "false"@, "fn"@, "for"@, "if"@, "impl"@, "in"@, "let"@, "loop"@,
        "match"@, "mod"@, "move"@, "mut"@, "pub"@, "ref"@, "return"@, "self"@, "static"@,
        "struct"@, "super"@, "trait"@, "true"@, "type"@, "use"@, "where"@, "while"@,
        "abstract"@, "become"@, "box"@, "do"@, "macro"@, "override"@, "priv"@, "try"@,
        "typeof"@, "unsized"@, "virtual"@, "yield"@, "unsafe"@, "final"@, "extern"@,
    ]
}

/// A lower-cased name as a field name: a keyword gets a trailing `_`.
pub open spec fn field_ident_spec(lower: Seq<char>) -> Seq<char> {
    if keywords().contains(lower) {
        lower + seq!['_']
    } else {
        lower
    }
}

/// The union field named after a variant: its name lower-cased.
pub open spec fn field_name_spec(variant: Seq<char>) -> Seq<char> {
    field_ident_spec(lower_of(variant))
}

/// Turns an already lower-cased name into a field name.
pub fn field_ident(lower: &str) -> (r: String)
    ensures
        r@ == field_ident_spec(lower@),
{
    let words: Vec<&str> = vec![
        "as", "async", "await", "break", "const", "continue", "crate", "dyn",
        "else", "enum", "false", "fn", "for", "if", "impl", "in", "let", "loop",
        "match", "mod", "move", "mut", "pub", "ref", "return", "self", "static",
        "struct", "super", "trait", "true", "type", "use", "where", "while",
        "abstract", "become", "box", "do", "macro", "override", "priv", "try",
        "typeof", "unsized", "virtual", "yield", "unsafe", "final", "extern",
    ];
    assert(words@.map_values(|w: &str| w@) =~= keywords());
    let name = String::from_str(lower);
    let mut i: usize = 0;
    while i < words.len()
        invariant
            0 <= i <= words@.len(),
            words@.map_values(|w: &str| w@) == keywords(),
            name@ == lower@,
            forall|k: int| 0 <= k < i ==> words@[k]@ != lower@,
        decreases words@.len() - i,
    {
        let w = String::from_str(words[i]);
        if name.eq(&w) {
            assert(keywords()[i as int] == lower@);
            let mut r = name;
            proof {
                reveal_strlit("_");
            }
            r.append("_");
            return r;
        }
        i += 1;
    }
    assert(!keywords().contains(lower@)) by {
        if keywords().contains(lower@) {
            let k = choose|k: int| 0 <= k < keywords().len() && keywords()[k] == lower@;
            assert(words@[k]@ == lower@);
        }
    }
    name
}

/// The field name for the payload type whose first variant is `variant`.
pub fn field_name(variant: &str) -> (r: String)
    ensures
        r@ == field_name_spec(variant@),
{
    let lower = to_lower(variant);
    field_ident(lower.as_str())
}

/// The union field of type-map entry `e`.
pub open spec fn is_field_of(f: UnionField, e: (Seq<char>, Seq<Seq<char>>)) -> bool {
    &&& f.name@ == field_name_spec(e.1[0])
    &&& f.ty@ == e.0
}

/// The raw union for `typemap`: one field per entry, in the map's order.
pub fn union_codegen(base_name: &str, typemap: &TypeMap) -> (r: UnionDecl)
    requires
        entries_nonempty(typemap@),
    ensures
        r.name@ == union_name_spec(base_name@),
        r.fields@.len() == typemap@.len(),
        forall|k: int| 0 <= k < typemap@.len() ==> is_field_of(#[trigger] r.fields@[k], typemap@[k]),
{
    let mut fields: Vec<UnionField> = Vec::new();
    let mut k: usize = 0;
    while k < typemap.entries.len()
        invariant
            0 <= k <= typemap@.len(),
            typemap@.len() == typemap.entries@.len(),
            entries_nonempty(typemap@),
            fields@.len() == k,
            forall|j: int| 0 <= j < k ==> is_field_of(#[trigger] fields@[j], typemap@[j]),
        decreases typemap@.len() - k,
    {
        let entry = &typemap.entries[k];
        assert(typemap@[k as int].1.len() > 0);
        let name = field_name(entry.variants[0].as_str());
        fields.push(UnionField { name, ty: entry.ty.clone() });
        k += 1;
    }
    UnionDecl { name: format_union_name(base_name), fields }
}

/// The record that pairs a tag with the raw union.
pub fn generate_tagged(base_name: &str) -> (r: TaggedDecl)
    ensures
        r.name@ == tagged_name_spec(base_name@),
        r.union_name@ == union_name_spec(base_name@),
{
    TaggedDecl { name: format_tagged_name(base_name), union_name: format_union_name(base_name) }
}

} // verus!
