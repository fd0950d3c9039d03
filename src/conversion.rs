//! The two conversions between a sum type and its tagged-union form: which
//! tag and which union field each variant uses, and what the conversions do
//! with a value.
use vstd::prelude::*;
use crate::InvalidTag;
use crate::shape::{VariantSpec, VariantView, payload_key, specs_view};
use crate::tags::Tag;
use crate::typemap::{TypeMap, has_key};

verus! {

/// How one variant is converted: its tag constant and number, and the index
/// of the union field that holds its payload.
#[derive(Debug, Clone, PartialEq)]
pub struct ConversionArm {
    pub variant: String,
    pub tag_name: String,
    pub number: u32,
    pub field: usize,
    pub has_payload: bool,
}

/// A value of the sum type: the index of its variant in declaration order,
/// and its payload if the variant carries one.
#[derive(Debug, Clone, PartialEq)]
pub struct SumValue<P> {
    pub variant: usize,
    pub payload: Option<P>,
}

/// The raw union: the field last written, and what it holds (nothing for
/// the unit field).
#[derive(Debug, Clone, PartialEq)]
pub struct RawKind<P> {
    pub field: usize,
    pub payload: Option<P>,
}

/// The record of a tag and the raw union.
#[derive(Debug, Clone, PartialEq)]
pub struct TaggedValue<P> {
    pub tag: u32,
    pub kind: RawKind<P>,
}

/// The conversions of one sum type, one arm per variant in declaration order.
#[derive(Debug, Clone, PartialEq)]
pub struct Conversion {
    pub arms: Vec<ConversionArm>,
}

/// `a` converts the variant `s`, whose tag is `t`, through field `field` of
/// the type map `m`.
pub open spec fn is_arm_of(
    a: ConversionArm,
    s: VariantView,
    t: Tag,
    m: Seq<(Seq<char>, Seq<Seq<char>>)>,
) -> bool {
    &&& a.variant@ == s.name
    &&& a.tag_name@ == t.constant_tag@
    &&& a.number == t.number
    &&& a.field < m.len()
    &&& m[a.field as int].0 == payload_key(s)
    &&& a.has_payload == s.payload is Some
}

impl Conversion {
    /// Arm `i` carries tag number `i`.
    pub open spec fn wf(&self) -> bool {
        &&& self.arms@.len() <= u32::MAX as nat + 1
        &&& forall|i: int| 0 <= i < self.arms@.len() ==> #[trigger] self.arms@[i].number == i
    }

    /// `v` is a value of the sum type: a known variant, with a payload exactly
    /// when the variant carries one.
    pub open spec fn fits<P>(&self, v: SumValue<P>) -> bool {
        &&& v.variant < self.arms@.len()
        &&& (v.payload is Some <==> self.arms@[v.variant as int].has_payload)
    }

    /// The tag of `t` is known and the union field it selects is the one
    /// written, holding a value if the variant carries one.
    pub open spec fn readable<P>(&self, t: TaggedValue<P>) -> bool {
        t.tag < self.arms@.len() ==> {
            let a = self.arms@[t.tag as int];
            &&& t.kind.field == a.field
            &&& (a.has_payload ==> t.kind.payload is Some)
        }
    }

    pub open spec fn as_tagged_spec<P>(&self, v: SumValue<P>) -> TaggedValue<P> {
        let a = self.arms@[v.variant as int];
        TaggedValue { tag: a.number, kind: RawKind { field: a.field, payload: v.payload } }
    }

    pub open spec fn invalid_tag_spec(&self, got: u32) -> InvalidTag {
        InvalidTag { got, possible_tags: core::ops::Range { start: 0, end: self.arms@.len() as usize } }
    }

    pub open spec fn from_tagged_spec<P>(&self, t: TaggedValue<P>) -> Result<SumValue<P>, InvalidTag> {
        if t.tag < self.arms@.len() {
            let a = self.arms@[t.tag as int];
            Ok(
                SumValue {
                    variant: t.tag as usize,
                    payload: if a.has_payload {
                        t.kind.payload
                    } else {
                        None
                    },
                },
            )
        } else {
            Err(self.invalid_tag_spec(t.tag))
        }
    }

    /// The tag number of a value.
    pub fn tag<P>(&self, v: &SumValue<P>) -> (r: u32)
        requires
            self.wf(),
            self.fits(*v),
        ensures
            r == v.variant,
    {
        self.arms[v.variant].number
    }

    /// The tagged form of a value: its tag, and its payload in its union field.
    pub fn as_tagged<P>(&self, v: SumValue<P>) -> (r: TaggedValue<P>)
        requires
            self.wf(),
            self.fits(v),
        ensures
            r == self.as_tagged_spec(v),
            self.readable(r),
    {
        let a = &self.arms[v.variant];
        TaggedValue { tag: a.number, kind: RawKind { field: a.field, payload: v.payload } }
    }

    /// The value a tagged form stands for, or `InvalidTag` for an unknown tag.
    pub fn from_tagged<P>(&self, t: TaggedValue<P>) -> (r: Result<SumValue<P>, InvalidTag>)
        requires
            self.wf(),
            self.readable(t),
        ensures
            r == self.from_tagged_spec(t),
    {
        let n = self.arms.len();
        if (t.tag as usize) < n {
            let a = &self.arms[t.tag as usize];
            let payload = if a.has_payload {
                t.kind.payload
            } else {
                None
            };
            Ok(SumValue { variant: t.tag as usize, payload })
        } else {
            Err(InvalidTag { got: t.tag, possible_tags: core::ops::Range { start: 0, end: n } })
        }
    }

    /// Converting a value to its tagged form and back gives the value again.
    pub proof fn lemma_round_trip<P>(&self, v: SumValue<P>)
        requires
            self.wf(),
            self.fits(v),
        ensures
            self.readable(self.as_tagged_spec(v)),
            self.from_tagged_spec(self.as_tagged_spec(v)) == Ok::<SumValue<P>, InvalidTag>(v),
    {
        assert(self.arms@[v.variant as int].number == v.variant);
    }

    /// A tag outside `0..N` is refused with that tag and the range `0..N`,
    /// whatever the union holds.
    pub proof fn lemma_invalid_tag<P>(&self, t: TaggedValue<P>)
        requires
            self.wf(),
            t.tag >= self.arms@.len(),
        ensures
            self.readable(t),
            self.from_tagged_spec(t) == Err::<SumValue<P>, InvalidTag>(
                InvalidTag {
                    got: t.tag,
                    possible_tags: core::ops::Range { start: 0, end: self.arms@.len() as usize },
                },
            ),
    {
    }
}

/// The arms for the validated variants, their tags and their type map.
pub fn generate_tagged_union_impl(
    specs: &Vec<VariantSpec>,
    tags: &Vec<Tag>,
    typemap: &TypeMap,
) -> (r: Conversion)
    requires
        tags@.len() == specs@.len(),
        forall|i: int| 0 <= i < specs@.len() ==> has_key(typemap@, payload_key(#[trigger] specs_view(specs@)[i])),
    ensures
        r.arms@.len() == specs@.len(),
        forall|i: int|
            0 <= i < specs@.len() ==> is_arm_of(#[trigger] r.arms@[i], specs@[i]@, tags@[i], typemap@),
{
    let mut arms: Vec<ConversionArm> = Vec::new();
    let unit = String::from_str("()");
    proof {
        reveal_strlit("()");
    }
    let mut i: usize = 0;
    while i < specs.len()
        invariant
            0 <= i <= specs@.len() == tags@.len(),
            unit@ == crate::shape::unit_type(),
            typemap@.len() == typemap.entries@.len(),
            forall|k: int| 0 <= k < specs@.len() ==> has_key(typemap@, payload_key(#[trigger] specs_view(specs@)[k])),
            arms@.len() == i,
            forall|k: int| 0 <= k < i ==> is_arm_of(#[trigger] arms@[k], specs@[k]@, tags@[k], typemap@),
        decreases specs@.len() - i,
    {
        let s = &specs[i];
        let key = match &s.payload {
            Some(t) => t,
            None => &unit,
        };
        assert(key@ == payload_key(specs@[i as int]@));
        assert(specs_view(specs@)[i as int] == specs@[i as int]@);
        assert(has_key(typemap@, key@));
        let mut j: usize = 0;
        while j < typemap.entries.len() && !typemap.entries[j].ty.eq(key)
            invariant
                0 <= j <= typemap.entries@.len() == typemap@.len(),
                has_key(typemap@, key@),
                forall|k: int| 0 <= k < j ==> typemap@[k].0 != key@,
            decreases typemap.entries@.len() - j,
        {
            j += 1;
        }
        assert(j < typemap@.len()) by {
            if j >= typemap@.len() {
                let c = choose|c: int| 0 <= c < typemap@.len() && #[trigger] typemap@[c].0 == key@;
                assert(typemap@[c].0 != key@);
            }
        }
        arms.push(
            ConversionArm {
                variant: s.name.clone(),
                tag_name: tags[i].constant_tag.clone(),
                number: tags[i].number,
                field: j,
                has_payload: s.payload.is_some(),
            },
        );
        i += 1;
    }
    Conversion { arms }
}

} // verus!
