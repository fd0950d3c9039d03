//! The whole analysis: from a type description to the declarations of its
//! tagged-union form.
use vstd::prelude::*;
use crate::conversion::{Conversion, generate_tagged_union_impl, is_arm_of};
use crate::layout::{TaggedDecl, UnionDecl, generate_tagged, is_field_of, union_codegen};
use crate::names::{constant_name_spec, tagged_name_spec, union_name_spec, upper_of};
use crate::shape::{AnalysisError, Body, DeriveInput, shape_error, specs_view, validate, variants_view};
use crate::tags::{Tag, generate_tags, is_tag_of, tags_distinct};
use crate::typemap::{TypeMap, lemma_typemap_grows, typemap_for, typemap_spec};

verus! {

/// Everything generated for one sum type: the tag constants, the type map,
/// the raw union, the tagged record and the conversions.
#[derive(Debug, Clone, PartialEq)]
pub struct Expansion {
    pub name: String,
    pub tags: Vec<Tag>,
    pub typemap: TypeMap,
    pub the_union: UnionDecl,
    pub the_struct: TaggedDecl,
    pub conversion: Conversion,
}

/// The name of the tag constant of `variant` in the type `enum_name`.
pub open spec fn tag_name_of(enum_name: Seq<char>, variant: Seq<char>) -> Seq<char> {
    constant_name_spec(upper_of(enum_name), upper_of(variant))
}

/// Two variants of `d` would get the same tag constant name.
pub open spec fn duplicate_tag_names(d: DeriveInput) -> bool {
    match d.body {
        Body::Enum(vs) => exists|a: int, b: int|
            0 <= a < vs@.len() && 0 <= b < vs@.len() && a != b && #[trigger] tag_name_of(
                d.ident@,
                vs@[a].ident@,
            ) == #[trigger] tag_name_of(d.ident@, vs@[b].ident@),
        Body::Struct => false,
    }
}

/// The first reason, if any, why `d` cannot be lowered.
pub open spec fn analysis_error(d: DeriveInput) -> Option<AnalysisError> {
    if shape_error(d) is Some {
        shape_error(d)
    } else if duplicate_tag_names(d) {
        Some(AnalysisError::DuplicateTagName)
    } else {
        None
    }
}

/// `x` holds what is generated for the enum `d`.
pub open spec fn is_expansion_of(x: Expansion, d: DeriveInput) -> bool {
    &&& d.body is Enum
    &&& {
        let vs = d.body->Enum_0@;
        let views = variants_view(vs);
        let m = typemap_spec(views);
        &&& x.name@ == d.ident@
        &&& x.tags@.len() == vs.len()
        &&& forall|i: int| 0 <= i < vs.len() ==> is_tag_of(#[trigger] x.tags@[i], d.ident@, vs[i].ident@, i)
        &&& x.typemap@ == m
        &&& x.the_union.name@ == union_name_spec(d.ident@)
        &&& x.the_union.fields@.len() == m.len()
        &&& forall|k: int| 0 <= k < m.len() ==> is_field_of(#[trigger] x.the_union.fields@[k], m[k])
        &&& x.the_struct.name@ == tagged_name_spec(d.ident@)
        &&& x.the_struct.union_name@ == union_name_spec(d.ident@)
        &&& x.conversion.arms@.len() == vs.len()
        &&& forall|i: int|
            0 <= i < vs.len() ==> is_arm_of(#[trigger] x.conversion.arms@[i], views[i], x.tags@[i], m)
    }
}

/// Analyses `input` and derives its tag constants, its raw union, its tagged
/// record and its conversions; fails with the first reason it cannot.
pub fn expand(input: &DeriveInput) -> (r: Result<Expansion, AnalysisError>)
    requires
        input.body matches Body::Enum(vs) ==> vs@.len() <= u32::MAX as nat + 1,
    ensures
        r is Err <==> analysis_error(*input) is Some,
        r matches Err(e) ==> analysis_error(*input) == Some(e),
        r matches Ok(x) ==> is_expansion_of(x, *input) && x.conversion.wf(),
{
    let specs = match validate(input) {
        Ok(specs) => specs,
        Err(e) => return Err(e),
    };
    let variants = match &input.body {
        Body::Enum(vs) => vs,
        Body::Struct => return Err(AnalysisError::NotAnEnum),
    };
    let base_name = input.ident.as_str();
    let tags = generate_tags(base_name, variants);
    if !tags_distinct(&tags) {
        proof {
            let (a, b) = choose|a: int, b: int|
                0 <= a < tags@.len() && 0 <= b < tags@.len() && a != b
                    && tags@[a].constant_tag@ == tags@[b].constant_tag@;
            assert(tag_name_of(input.ident@, variants@[a].ident@) == tag_name_of(
                input.ident@,
                variants@[b].ident@,
            ));
        }
        return Err(AnalysisError::DuplicateTagName);
    }
    proof {
        assert(!duplicate_tag_names(*input)) by {
            if duplicate_tag_names(*input) {
                let (a, b) = choose|a: int, b: int|
                    0 <= a < variants@.len() && 0 <= b < variants@.len() && a != b
                        && #[trigger] tag_name_of(input.ident@, variants@[a].ident@)
                        == #[trigger] tag_name_of(input.ident@, variants@[b].ident@);
                assert(is_tag_of(tags@[a], input.ident@, variants@[a].ident@, a));
                assert(is_tag_of(tags@[b], input.ident@, variants@[b].ident@, b));
            }
        }
    }
    let typemap = typemap_for(&specs);
    proof {
        lemma_typemap_grows(specs_view(specs@));
        assert forall|i: int| 0 <= i < specs@.len() implies crate::typemap::has_key(
            typemap@,
            crate::shape::payload_key(#[trigger] specs_view(specs@)[i]),
        ) by {
            let e = choose|e: int|
                0 <= e < typemap@.len() && typemap@[e].0 == crate::shape::payload_key(
                    #[trigger] specs_view(specs@)[i],
                ) && typemap@[e].1.contains(specs_view(specs@)[i].name);
            assert(typemap@[e].0 == crate::shape::payload_key(specs_view(specs@)[i]));
        }
    }
    let the_union = union_codegen(base_name, &typemap);
    let the_struct = generate_tagged(base_name);
    let conversion = generate_tagged_union_impl(&specs, &tags, &typemap);
    let x = Expansion { name: input.ident.clone(), tags, typemap, the_union, the_struct, conversion };
    proof {
        let views = variants_view(variants@);
        assert forall|i: int| 0 <= i < variants@.len() implies is_arm_of(
            #[trigger] x.conversion.arms@[i],
            views[i],
            x.tags@[i],
            x.typemap@,
        ) by {
            assert(specs@[i]@ == specs_view(specs@)[i]);
        }
        assert forall|i: int| 0 <= i < x.conversion.arms@.len() implies #[trigger] x.conversion.arms@[i].number == i by {
            assert(is_tag_of(x.tags@[i], input.ident@, variants@[i].ident@, i));
            assert(is_arm_of(x.conversion.arms@[i], views[i], x.tags@[i], x.typemap@));
        }
    }
    Ok(x)
}

/// Two expansions of one type description agree on every generated name and
/// on the order of the union's fields.
pub proof fn lemma_naming_deterministic(x1: Expansion, x2: Expansion, d: DeriveInput)
    requires
        is_expansion_of(x1, d),
        is_expansion_of(x2, d),
    ensures
        x1.name@ == x2.name@,
        x1.tags@.len() == x2.tags@.len(),
        forall|i: int| 0 <= i < x1.tags@.len() ==> (#[trigger] x1.tags@[i]).constant_tag@ == x2.tags@[i].constant_tag@
            && x1.tags@[i].number == x2.tags@[i].number,
        x1.the_union.name@ == x2.the_union.name@,
        x1.the_union.fields@.len() == x2.the_union.fields@.len(),
        forall|k: int| 0 <= k < x1.the_union.fields@.len() ==> (#[trigger] x1.the_union.fields@[k]).name@
            == x2.the_union.fields@[k].name@ && x1.the_union.fields@[k].ty@ == x2.the_union.fields@[k].ty@,
        x1.the_struct.name@ == x2.the_struct.name@,
        x1.typemap@ == x2.typemap@,
{
    let vs = d.body->Enum_0@;
    let m = typemap_spec(variants_view(vs));
    assert forall|i: int| 0 <= i < x1.tags@.len() implies (#[trigger] x1.tags@[i]).constant_tag@ == x2.tags@[i].constant_tag@
        && x1.tags@[i].number == x2.tags@[i].number by {
        assert(is_tag_of(x1.tags@[i], d.ident@, vs[i].ident@, i));
        assert(is_tag_of(x2.tags@[i], d.ident@, vs[i].ident@, i));
    }
    assert forall|k: int| 0 <= k < x1.the_union.fields@.len() implies (#[trigger] x1.the_union.fields@[k]).name@
        == x2.the_union.fields@[k].name@ && x1.the_union.fields@[k].ty@ == x2.the_union.fields@[k].ty@ by {
        assert(is_field_of(x1.the_union.fields@[k], m[k]));
        assert(is_field_of(x2.the_union.fields@[k], m[k]));
    }
}

} // verus!
