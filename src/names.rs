//! Case mapping and the names derived from a sum type's name.
use vstd::prelude::*;
use vstd::string::*;

verus! {

/// What `str::to_uppercase` returns for a string.
pub uninterp spec fn upper_of(s: Seq<char>) -> Seq<char>;

/// What `str::to_lowercase` returns for a string.
pub uninterp spec fn lower_of(s: Seq<char>) -> Seq<char>;

/// Relies on `str::to_uppercase`: the result depends on the characters alone,
/// and the empty string stays empty.
#[verifier::external_body]
pub(crate) fn to_upper(s: &str) -> (r: String)
    ensures
        r@ == upper_of(s@),
        s@.len() == 0 ==> r@.len() == 0,
{
    s.to_uppercase()
}

/// Relies on `str::to_lowercase`: the result depends on the characters alone,
/// and the empty string stays empty.
#[verifier::external_body]
pub(crate) fn to_lower(s: &str) -> (r: String)
    ensures
        r@ == lower_of(s@),
        s@.len() == 0 ==> r@.len() == 0,
{
    s.to_lowercase()
}

/// `prefix + "_" + suffix`, the shape of a tag constant's name.
pub open spec fn constant_name_spec(prefix: Seq<char>, suffix: Seq<char>) -> Seq<char> {
    prefix + seq!['_'] + suffix
}

/// Joins an upper-cased type name and an upper-cased variant name into the
/// name of a tag constant.
pub fn constant_name(prefix: &str, upper_variant: &str) -> (r: String)
    ensures
        r@ == constant_name_spec(prefix@, upper_variant@),
{
    let mut r = String::from_str(prefix);
    proof {
        reveal_strlit("_");
    }
    r.append("_");
    r.append(upper_variant);
    r
}

/// The name of the raw union: `<Name>Kind`.
pub open spec fn union_name_spec(base: Seq<char>) -> Seq<char> {
    base + seq!['K', 'i', 'n', 'd']
}

/// The name of the tag and union record: `Tagged<Name>`.
pub open spec fn tagged_name_spec(base: Seq<char>) -> Seq<char> {
    seq!['T', 'a', 'g', 'g', 'e', 'd'] + base
}

pub fn format_union_name(base_name: &str) -> (r: String)
    ensures
        r@ == union_name_spec(base_name@),
{
    let mut r = String::from_str(base_name);
    proof {
        reveal_strlit("Kind");
    }
    r.append("Kind");
    r
}

pub fn format_tagged_name(base_name: &str) -> (r: String)
    ensures
        r@ == tagged_name_spec(base_name@),
{
    let mut r = String::from_str("Tagged");
    proof {
        reveal_strlit("Tagged");
    }
    r.append(base_name);
    r
}

} // verus!
