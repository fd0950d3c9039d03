//! The parsed description of a type, and the checks that decide whether it
//! can be lowered to a tagged union.
use vstd::prelude::*;
use vstd::string::*;

verus! {

/// An item nested inside a list attribute such as `#[derive(A, B)]`.
#[derive(Debug, Clone)]
pub enum NestedMetaItem {
    /// A bare word, e.g. `Copy` in `#[derive(Copy)]`.
    Word(String),
    /// A literal or a nested list or name-value item.
    Other,
}

/// The content of an attribute.
#[derive(Debug, Clone)]
pub enum MetaItem {
    /// `#[name]`
    Word(String),
    /// `#[name(item, ...)]`
    List(String, Vec<NestedMetaItem>),
    /// `#[name = value]`
    NameValue(String),
}

/// An outer attribute of the type.
#[derive(Debug, Clone)]
pub struct Attribute {
    pub value: MetaItem,
}

/// How many generic parameters and constraints the type declares.
#[derive(Debug, Clone, Copy, PartialEq, Eq)]
pub struct Generics {
    pub lifetimes: usize,
    pub ty_params: usize,
    pub where_predicates: usize,
}

/// The fields of one variant. A payload type is given by its canonical
/// spelling, so that two spellings of one type compare equal.
#[derive(Debug, Clone)]
pub enum VariantData {
    /// `Name { field: Ty, ... }`, with the field types.
    Struct(Vec<String>),
    /// `Name(Ty, ...)`
    Tuple(Vec<String>),
    /// `Name`
    Unit,
}

#[derive(Debug, Clone)]
pub struct Variant {
    pub ident: String,
    pub data: VariantData,
}

#[derive(Debug, Clone)]
pub enum Body {
    Enum(Vec<Variant>),
    Struct,
}

/// A type declaration as handed over by the host.
#[derive(Debug, Clone)]
pub struct DeriveInput {
    pub ident: String,
    pub attrs: Vec<Attribute>,
    pub generics: Generics,
    pub body: Body,
}

/// Why a type description cannot be lowered.
#[derive(Debug, Clone, Copy, PartialEq, Eq, Structural)]
pub enum AnalysisError {
    NotAnEnum,
    UnsupportedVariantShape,
    GenericNotSupported,
    NotTriviallyCopyable,
    DuplicateTagName,
}

/// A validated variant: its name and, if it carries one, its payload type.
#[derive(Debug, Clone, PartialEq)]
pub struct VariantSpec {
    pub name: String,
    pub payload: Option<String>,
}

/// The canonical spelling of the unit type, the payload of variants without one.
pub open spec fn unit_type() -> Seq<char> {
    seq!['(', ')']
}

pub open spec fn is_copy_word(item: NestedMetaItem) -> bool {
    match item {
        NestedMetaItem::Word(w) => w@ == "Copy"@,
        NestedMetaItem::Other => false,
    }
}

/// The attribute is a `derive` list that names `Copy`.
pub open spec fn is_copy_attr_spec(attr: Attribute) -> bool {
    &&& attr.value is List
    &&& attr.value->List_0@ == "derive"@
    &&& exists|i: int|
        0 <= i < attr.value->List_1@.len() && is_copy_word(#[trigger] attr.value->List_1@[i])
}

pub open spec fn is_generic_spec(g: Generics) -> bool {
    g.lifetimes != 0 || g.ty_params != 0 || g.where_predicates != 0
}

/// A variant that carries nothing or exactly one positional value.
pub open spec fn supported_shape(data: VariantData) -> bool {
    match data {
        VariantData::Unit => true,
        VariantData::Tuple(fields) => fields@.len() == 1,
        VariantData::Struct(_) => false,
    }
}

pub open spec fn declares_copy(attrs: Seq<Attribute>) -> bool {
    exists|i: int| 0 <= i < attrs.len() && is_copy_attr_spec(#[trigger] attrs[i])
}

/// The first reason, if any, why the shape of `d` cannot be lowered.
pub open spec fn shape_error(d: DeriveInput) -> Option<AnalysisError> {
    match d.body {
        Body::Struct => Some(AnalysisError::NotAnEnum),
        Body::Enum(vs) => if is_generic_spec(d.generics) {
            Some(AnalysisError::GenericNotSupported)
        } else if exists|i: int| 0 <= i < vs@.len() && !supported_shape(#[trigger] vs@[i].data) {
            Some(AnalysisError::UnsupportedVariantShape)
        } else if !declares_copy(d.attrs@) {
            Some(AnalysisError::NotTriviallyCopyable)
        } else {
            None
        },
    }
}

/// `s` is the validated form of the supported variant `v`.
pub open spec fn spec_of(s: VariantSpec, v: Variant) -> bool {
    &&& s.name@ == v.ident@
    &&& match v.data {
        VariantData::Unit => s.payload is None,
        VariantData::Tuple(fields) => s.payload matches Some(t) && t@ == fields@[0]@,
        VariantData::Struct(_) => false,
    }
}

/// A variant as the analysis sees it: its name and its payload type, if any.
pub struct VariantView {
    pub name: Seq<char>,
    pub payload: Option<Seq<char>>,
}

impl View for VariantSpec {
    type V = VariantView;

    open spec fn view(&self) -> VariantView {
        VariantView {
            name: self.name@,
            payload: match self.payload {
                Some(t) => Some(t@),
                None => None,
            },
        }
    }
}

/// The view of a supported variant.
pub open spec fn variant_view(v: Variant) -> VariantView {
    VariantView {
        name: v.ident@,
        payload: match v.data {
            VariantData::Tuple(fields) => Some(fields@[0]@),
            _ => None,
        },
    }
}

pub open spec fn specs_view(s: Seq<VariantSpec>) -> Seq<VariantView> {
    s.map_values(|x: VariantSpec| x@)
}

pub open spec fn variants_view(vs: Seq<Variant>) -> Seq<VariantView> {
    vs.map_values(|v: Variant| variant_view(v))
}

/// The payload type that groups a variant: its own, or the unit type.
pub open spec fn payload_key(s: VariantView) -> Seq<char> {
    match s.payload {
        Some(t) => t,
        None => unit_type(),
    }
}

/// Whether an attribute is `#[derive(..)]` with `Copy` among its words.
pub fn is_copy_attr(attr: &Attribute) -> (r: bool)
    ensures
        r == is_copy_attr_spec(*attr),
{
    match &attr.value {
        MetaItem::List(name, items) => {
            let derive = String::from_str("derive");
            if !name.eq(&derive) {
                return false;
            }
            let copy = String::from_str("Copy");
            let mut i: usize = 0;
            while i < items.len()
                invariant
                    0 <= i <= items@.len(),
                    copy@ == "Copy"@,
                    name@ == "derive"@,
                    attr.value == MetaItem::List(*name, *items),
                    forall|j: int| 0 <= j < i ==> !is_copy_word(#[trigger] items@[j]),
                decreases items@.len() - i,
            {
                if let NestedMetaItem::Word(w) = &items[i] {
                    if w.eq(&copy) {
                        assert(is_copy_word(items@[i as int]));
                        assert(attr.value->List_1@ == items@);
                        assert(is_copy_word(attr.value->List_1@[i as int]));
                        return true;
                    }
                }
                i += 1;
            }
            false
        },
        _ => false,
    }
}

/// Whether the type declares a lifetime, a type parameter or a `where` clause.
pub fn is_generic(gen: &Generics) -> (r: bool)
    ensures
        r == is_generic_spec(*gen),
{
    gen.lifetimes != 0 || gen.ty_params != 0 || gen.where_predicates != 0
}

/// Checks that `input` is a non-generic, `Copy` enum whose variants carry at
/// most one positional value each, and returns its variants in order.
pub fn validate(input: &DeriveInput) -> (r: Result<Vec<VariantSpec>, AnalysisError>)
    ensures
        r is Err <==> shape_error(*input) is Some,
        r matches Err(e) ==> shape_error(*input) == Some(e),
        r matches Ok(specs) ==> input.body matches Body::Enum(vs) && specs@.len() == vs@.len()
            && forall|i: int| 0 <= i < vs@.len() ==> spec_of(#[trigger] specs@[i], vs@[i])
            && specs_view(specs@) == variants_view(vs@),
{
    let variants = match &input.body {
        Body::Struct => return Err(AnalysisError::NotAnEnum),
        Body::Enum(vs) => vs,
    };
    if is_generic(&input.generics) {
        return Err(AnalysisError::GenericNotSupported);
    }
    let mut specs: Vec<VariantSpec> = Vec::new();
    let mut i: usize = 0;
    while i < variants.len()
        invariant
            0 <= i <= variants@.len(),
            specs@.len() == i,
            input.body == Body::Enum(*variants),
            !is_generic_spec(input.generics),
            forall|j: int| 0 <= j < i ==> spec_of(#[trigger] specs@[j], variants@[j]),
            forall|j: int| 0 <= j < i ==> supported_shape(#[trigger] variants@[j].data),
        decreases variants@.len() - i,
    {
        let v = &variants[i];
        let payload = match &v.data {
            VariantData::Unit => None,
            VariantData::Tuple(fields) => {
                if fields.len() != 1 {
                    assert(!supported_shape(variants@[i as int].data));
                    return Err(AnalysisError::UnsupportedVariantShape);
                }
                Some(fields[0].clone())
            },
            VariantData::Struct(_) => {
                assert(!supported_shape(variants@[i as int].data));
                return Err(AnalysisError::UnsupportedVariantShape);
            },
        };
        specs.push(VariantSpec { name: v.ident.clone(), payload });
        i += 1;
    }
    let mut k: usize = 0;
    while k < input.attrs.len()
        invariant
            0 <= k <= input.attrs@.len(),
            input.body == Body::Enum(*variants),
            !is_generic_spec(input.generics),
            specs@.len() == variants@.len(),
            forall|j: int| 0 <= j < variants@.len() ==> spec_of(#[trigger] specs@[j], variants@[j]),
            forall|j: int| 0 <= j < variants@.len() ==> supported_shape(#[trigger] variants@[j].data),
            forall|j: int| 0 <= j < k ==> !is_copy_attr_spec(#[trigger] input.attrs@[j]),
        decreases input.attrs@.len() - k,
    {
        if is_copy_attr(&input.attrs[k]) {
            assert(is_copy_attr_spec(input.attrs@[k as int]));
            assert(specs_view(specs@) =~= variants_view(variants@));
            return Ok(specs);
        }
        k += 1;
    }
    Err(AnalysisError::NotTriviallyCopyable)
}

} // verus!
