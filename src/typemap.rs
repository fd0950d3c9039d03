//! Grouping of variants by the type of their payload.
use vstd::prelude::*;
use vstd::string::*;
use crate::shape::{VariantSpec, VariantView, payload_key, specs_view, unit_type};

verus! {

/// One payload type and the variants that carry it, in declaration order.
#[derive(Debug, Clone, PartialEq)]
pub struct TypeMapEntry {
    pub ty: String,
    pub variants: Vec<String>,
}

/// Payload types in order of first appearance, each with its variants.
#[derive(Debug, Clone, PartialEq)]
pub struct TypeMap {
    pub entries: Vec<TypeMapEntry>,
}

pub open spec fn entry_view(e: TypeMapEntry) -> (Seq<char>, Seq<Seq<char>>) {
    (e.ty@, e.variants@.map_values(|s: String| s@))
}

impl View for TypeMap {
    type V = Seq<(Seq<char>, Seq<Seq<char>>)>;

    open spec fn view(&self) -> Seq<(Seq<char>, Seq<Seq<char>>)> {
        self.entries@.map_values(|e: TypeMapEntry| entry_view(e))
    }
}

pub open spec fn has_key(m: Seq<(Seq<char>, Seq<Seq<char>>)>, ty: Seq<char>) -> bool {
    exists|i: int| 0 <= i < m.len() && #[trigger] m[i].0 == ty
}

/// Every entry holds at least one variant.
pub open spec fn entries_nonempty(m: Seq<(Seq<char>, Seq<Seq<char>>)>) -> bool {
    forall|i: int| 0 <= i < m.len() ==> #[trigger] m[i].1.len() > 0
}

pub open spec fn keys_distinct(m: Seq<(Seq<char>, Seq<Seq<char>>)>) -> bool {
    forall|i: int, j: int| 0 <= i < m.len() && 0 <= j < m.len() && i != j ==> m[i].0 != m[j].0
}

/// Appends `name` to the entry of `ty`, or opens a new last entry for it.
pub open spec fn group_insert(
    m: Seq<(Seq<char>, Seq<Seq<char>>)>,
    ty: Seq<char>,
    name: Seq<char>,
) -> Seq<(Seq<char>, Seq<Seq<char>>)> {
    if has_key(m, ty) {
        let i = choose|i: int| 0 <= i < m.len() && #[trigger] m[i].0 == ty;
        m.update(i, (ty, m[i].1.push(name)))
    } else {
        m.push((ty, seq![name]))
    }
}

/// The type map of a variant list: each variant in turn, grouped by payload type.
pub open spec fn typemap_spec(vs: Seq<VariantView>) -> Seq<(Seq<char>, Seq<Seq<char>>)>
    decreases vs.len(),
{
    if vs.len() == 0 {
        seq![]
    } else {
        group_insert(typemap_spec(vs.drop_last()), payload_key(vs.last()), vs.last().name)
    }
}

/// Each name in the map is the name of a variant whose payload type is the
/// entry's key.
pub open spec fn entries_sound(m: Seq<(Seq<char>, Seq<Seq<char>>)>, vs: Seq<VariantView>) -> bool {
    forall|e: int, k: int|
        0 <= e < m.len() && 0 <= k < m[e].1.len() ==> exists|j: int|
            0 <= j < vs.len() && vs[j].name == #[trigger] m[e].1[k] && payload_key(vs[j]) == m[e].0
}

/// Each variant is listed under its payload type.
pub open spec fn entries_cover(m: Seq<(Seq<char>, Seq<Seq<char>>)>, vs: Seq<VariantView>) -> bool {
    forall|j: int|
        0 <= j < vs.len() ==> exists|e: int|
            0 <= e < m.len() && m[e].0 == payload_key(#[trigger] vs[j]) && m[e].1.contains(vs[j].name)
}

pub(crate) proof fn lemma_typemap_grows(vs: Seq<VariantView>)
    ensures
        keys_distinct(typemap_spec(vs)),
        entries_nonempty(typemap_spec(vs)),
        entries_sound(typemap_spec(vs), vs),
        entries_cover(typemap_spec(vs), vs),
    decreases vs.len(),
{
    if vs.len() > 0 {
        let p = vs.drop_last();
        lemma_typemap_grows(p);
        let m = typemap_spec(p);
        let ty = payload_key(vs.last());
        let name = vs.last().name;
        let m2 = typemap_spec(vs);
        let last = vs.len() - 1;
        assert(m2 == group_insert(m, ty, name));
        let i = if has_key(m, ty) {
            choose|i: int| 0 <= i < m.len() && #[trigger] m[i].0 == ty
        } else {
            m.len() as int
        };
        assert(0 <= i < m2.len() && m2[i].0 == ty && m2[i].1.last() == name);
        assert(forall|e: int| 0 <= e < m.len() && e != i ==> #[trigger] m2[e] == m[e]);
        assert(forall|e: int| 0 <= e < m.len() ==> #[trigger] m2[e].0 == m[e].0);
        assert(i < m.len() ==> m2[i].1 == m[i].1.push(name));
        assert(i == m.len() ==> m2[i].1 == seq![name]);
        assert forall|e: int, k: int| 0 <= e < m2.len() && 0 <= k < m2[e].1.len() implies exists|j: int|
            0 <= j < vs.len() && vs[j].name == #[trigger] m2[e].1[k] && payload_key(vs[j]) == m2[e].0 by {
            if e == i && k == m2[e].1.len() - 1 {
                assert(vs[last].name == m2[e].1[k]);
            } else {
                assert(m2[e].1[k] == m[e].1[k]);
                let j = choose|j: int|
                    0 <= j < p.len() && p[j].name == #[trigger] m[e].1[k] && payload_key(p[j]) == m[e].0;
                assert(vs[j] == p[j]);
            }
        }
        assert forall|j: int| 0 <= j < vs.len() implies exists|e: int|
            0 <= e < m2.len() && m2[e].0 == payload_key(#[trigger] vs[j]) && m2[e].1.contains(vs[j].name) by {
            if j == last {
                assert(m2[i].1[m2[i].1.len() - 1] == name);
            } else {
                assert(vs[j] == p[j]);
                let e = choose|e: int|
                    0 <= e < m.len() && m[e].0 == payload_key(#[trigger] p[j]) && m[e].1.contains(p[j].name);
                let k = choose|k: int| 0 <= k < m[e].1.len() && m[e].1[k] == p[j].name;
                assert(m2[e].1[k] == p[j].name);
            }
        }
        assert(keys_distinct(m2)) by {
            assert forall|a: int, b: int| 0 <= a < m2.len() && 0 <= b < m2.len() && a != b implies m2[a].0 != m2[b].0 by {
                if a == m.len() {
                    assert(m2[b].0 == m[b].0);
                } else if b == m.len() {
                    assert(m2[a].0 == m[a].0);
                }
            }
        }
        assert(entries_nonempty(m2)) by {
            assert forall|e: int| 0 <= e < m2.len() implies #[trigger] m2[e].1.len() > 0 by {
                if e != i {
                    assert(m2[e] == m[e]);
                }
            }
        }
    }
}

/// Every variant is listed in exactly one entry, the one of its payload
/// type, and every name listed is a variant's: the entries together hold
/// exactly the variants.
pub proof fn lemma_typemap_complete(vs: Seq<VariantView>)
    requires
        forall|a: int, b: int| 0 <= a < vs.len() && 0 <= b < vs.len() && a != b ==> vs[a].name != vs[b].name,
    ensures
        forall|j: int| 0 <= j < vs.len() ==> exists|e: int|
            0 <= e < typemap_spec(vs).len() && typemap_spec(vs)[e].0 == payload_key(#[trigger] vs[j])
                && typemap_spec(vs)[e].1.contains(vs[j].name) && forall|f: int|
                0 <= f < typemap_spec(vs).len() && typemap_spec(vs)[f].1.contains(vs[j].name) ==> f == e,
        forall|e: int, k: int|
            0 <= e < typemap_spec(vs).len() && 0 <= k < typemap_spec(vs)[e].1.len() ==> exists|j: int|
                0 <= j < vs.len() && vs[j].name == #[trigger] typemap_spec(vs)[e].1[k],
{
    lemma_typemap_grows(vs);
    let m = typemap_spec(vs);
    assert forall|j: int| 0 <= j < vs.len() implies exists|e: int|
        0 <= e < m.len() && m[e].0 == payload_key(#[trigger] vs[j]) && m[e].1.contains(vs[j].name)
            && forall|f: int| 0 <= f < m.len() && m[f].1.contains(vs[j].name) ==> f == e by {
        let e = choose|e: int| 0 <= e < m.len() && m[e].0 == payload_key(vs[j]) && m[e].1.contains(vs[j].name);
        assert forall|f: int| 0 <= f < m.len() && m[f].1.contains(vs[j].name) implies f == e by {
            let k = choose|k: int| 0 <= k < m[f].1.len() && m[f].1[k] == vs[j].name;
            let j2 = choose|j2: int|
                0 <= j2 < vs.len() && vs[j2].name == #[trigger] m[f].1[k] && payload_key(vs[j2]) == m[f].0;
            assert(j2 == j);
        }
    }
}

/// Groups the validated variants by payload type; a variant without a payload
/// is grouped under the unit type.
pub fn typemap_for(variants: &Vec<VariantSpec>) -> (r: TypeMap)
    ensures
        r@ == typemap_spec(specs_view(variants@)),
        keys_distinct(r@),
        entries_nonempty(r@),
{
    let mut map = TypeMap { entries: Vec::new() };
    let unit = String::from_str("()");
    proof {
        reveal_strlit("()");
        assert(specs_view(variants@).take(0) =~= seq![]);
    }
    let mut i: usize = 0;
    while i < variants.len()
        invariant
            0 <= i <= variants@.len(),
            unit@ == unit_type(),
            map@ == typemap_spec(specs_view(variants@).take(i as int)),
            keys_distinct(map@),
            entries_nonempty(map@),
        decreases variants@.len() - i,
    {
        let v = &variants[i];
        let key = match &v.payload {
            Some(t) => t.clone(),
            None => unit.clone(),
        };
        let name = v.name.clone();
        assert(key@ == payload_key(variants@[i as int]@));
        assert(specs_view(variants@).take(i + 1).drop_last() =~= specs_view(variants@).take(i as int));
        assert(specs_view(variants@).take(i + 1).last() == variants@[i as int]@);
        let ghost before = map@;
        let mut j: usize = 0;
        let mut found = false;
        while j < map.entries.len() && !found
            invariant
                0 <= j <= map.entries@.len(),
                map@ == before,
                forall|k: int| 0 <= k < j ==> map.entries@[k].ty@ != key@,
                found ==> j < map.entries@.len() && map.entries@[j as int].ty@ == key@,
            decreases map.entries@.len() - j + (if found { 0int } else { 1int }),
        {
            if map.entries[j].ty.eq(&key) {
                found = true;
            } else {
                j += 1;
            }
        }
        if found {
            let mut e = map.entries.remove(j);
            e.variants.push(name);
            map.entries.insert(j, e);
            proof {
                assert(before[j as int].0 == key@);
                assert(has_key(before, key@));
                let c = choose|c: int| 0 <= c < before.len() && #[trigger] before[c].0 == key@;
                assert(c == j);
                assert(entry_view(e).1 =~= before[j as int].1.push(name@));
                assert(map@ =~= before.update(j as int, (key@, before[j as int].1.push(name@))));
            }
        } else {
            let ghost old_entries = map.entries@;
            let e = TypeMapEntry { ty: key, variants: vec![name] };
            assert(entry_view(e).1 =~= seq![name@]);
            map.entries.push(e);
            proof {
                assert(!has_key(before, key@)) by {
                    if has_key(before, key@) {
                        let c = choose|c: int| 0 <= c < before.len() && #[trigger] before[c].0 == key@;
                        assert(old_entries[c].ty@ == key@);
                    }
                }
                assert(map@ =~= before.push((key@, seq![name@])));
            }
        }
        i += 1;
    }
    proof {
        assert(specs_view(variants@).take(i as int) =~= specs_view(variants@));
    }
    map
}

} // verus!
