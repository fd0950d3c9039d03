//! Tag numbers and the names of the tag constants.
use vstd::prelude::*;
use crate::names::{constant_name, constant_name_spec, to_upper, upper_of};
use crate::shape::Variant;

verus! {

/// The tag of one variant: its name, the name of its constant and its number.
#[derive(Debug, Clone, PartialEq)]
pub struct Tag {
    pub original_name: String,
    pub constant_tag: String,
    pub number: u32,
}

/// `t` is the tag of variant `variant` at position `i` of the type `enum_name`.
pub open spec fn is_tag_of(t: Tag, enum_name: Seq<char>, variant: Seq<char>, i: int) -> bool {
    &&& t.original_name@ == variant
    &&& t.constant_tag@ == constant_name_spec(upper_of(enum_name), upper_of(variant))
    &&& t.number == i
}

/// No two tags share a constant name.
pub open spec fn tag_names_distinct(tags: Seq<Tag>) -> bool {
    forall|i: int, j: int|
        0 <= i < tags.len() && 0 <= j < tags.len() && i != j ==> tags[i].constant_tag@
            != tags[j].constant_tag@
}

impl Tag {
    /// The tag numbered `number` for variant `field_name`, whose constant is
    /// `prefix` and the upper-cased variant name joined by `_`.
    pub fn new(prefix: &str, field_name: &str, number: u32) -> (r: Tag)
        ensures
            r.original_name@ == field_name@,
            r.constant_tag@ == constant_name_spec(prefix@, upper_of(field_name@)),
            r.number == number,
    {
        let original_name = String::from_str(field_name);
        let upper = to_upper(field_name);
        let constant_tag = constant_name(prefix, upper.as_str());
        Tag { original_name, constant_tag, number }
    }
}

/// Numbers the variants from zero in declaration order.
pub fn generate_tags(enum_name: &str, variants: &Vec<Variant>) -> (r: Vec<Tag>)
    requires
        variants@.len() <= u32::MAX as nat + 1,
    ensures
        r@.len() == variants@.len(),
        forall|i: int|
            0 <= i < variants@.len() ==> is_tag_of(#[trigger] r@[i], enum_name@, variants@[i].ident@, i),
{
    let prefix = to_upper(enum_name);
    let mut tags: Vec<Tag> = Vec::new();
    let mut i: usize = 0;
    while i < variants.len()
        invariant
            0 <= i <= variants@.len() <= u32::MAX as nat + 1,
            prefix@ == upper_of(enum_name@),
            tags@.len() == i,
            forall|k: int|
                0 <= k < i ==> is_tag_of(#[trigger] tags@[k], enum_name@, variants@[k].ident@, k),
        decreases variants@.len() - i,
    {
        let tag = Tag::new(prefix.as_str(), variants[i].ident.as_str(), i as u32);
        tags.push(tag);
        i += 1;
    }
    tags
}

/// Whether every tag has a constant name of its own.
pub fn tags_distinct(tags: &Vec<Tag>) -> (r: bool)
    ensures
        r == tag_names_distinct(tags@),
{
    let mut i: usize = 0;
    while i < tags.len()
        invariant
            0 <= i <= tags@.len(),
            forall|a: int, b: int|
                0 <= a < i && 0 <= b < tags@.len() && a != b ==> tags@[a].constant_tag@
                    != tags@[b].constant_tag@,
        decreases tags@.len() - i,
    {
        let mut j: usize = 0;
        while j < tags.len()
            invariant
                0 <= i < tags@.len(),
                0 <= j <= tags@.len(),
                forall|a: int, b: int|
                    0 <= a < i && 0 <= b < tags@.len() && a != b ==> tags@[a].constant_tag@
                        != tags@[b].constant_tag@,
                forall|b: int|
                    0 <= b < j && i != b ==> tags@[i as int].constant_tag@ != tags@[b].constant_tag@,
            decreases tags@.len() - j,
        {
            if i != j && tags[i].constant_tag.eq(&tags[j].constant_tag) {
                return false;
            }
            j += 1;
        }
        i += 1;
    }
    true
}

} // verus!
