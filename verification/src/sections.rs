//! Entries grouped by section name, sections kept in the order of their
//! names, as an ordered map from section names to entry lists would keep them.
use vstd::prelude::*;
use vstd::utf8::encode_utf8;
use crate::text::{
    lemma_bytes_lt_irrefl, lemma_bytes_lt_total, lemma_bytes_lt_trans, lemma_encode_injective,
    str_lt, str_order, StrOrder,
};

verus! {

pub open spec fn section_name<E>(s: (&'static str, Vec<E>)) -> Seq<char> {
    s.0@
}

/// Sections come in strictly increasing order of their names, and none is empty.
pub open spec fn sections_wf<E>(v: Seq<(&'static str, Vec<E>)>) -> bool {
    &&& forall|i: int, j: int|
        0 <= i < j < v.len() ==> str_lt(#[trigger] section_name(v[i]), #[trigger] section_name(v[j]))
    &&& forall|i: int| 0 <= i < v.len() ==> (#[trigger] v[i]).1@.len() > 0
}


/// The sections as mathematical values.
pub open spec fn sections_view<E>(v: Seq<(&'static str, Vec<E>)>) -> Seq<(Seq<char>, Seq<E>)> {
    v.map_values(|s: (&'static str, Vec<E>)| (s.0@, s.1@))
}

/// The first position whose section name is not below `name`.
pub open spec fn lower_bound<E>(v: Seq<(Seq<char>, Seq<E>)>, name: Seq<char>, i: int) -> int
    decreases v.len() - i,
{
    if i < 0 || i >= v.len() || !str_lt(v[i].0, name) {
        i
    } else {
        lower_bound(v, name, i + 1)
    }
}

/// The sections after listing `entry` under `name`: appended to that
/// section's entries, or in a new section put in its place by name.
pub open spec fn spec_add_entry<E>(v: Seq<(Seq<char>, Seq<E>)>, name: Seq<char>, entry: E) -> Seq<
    (Seq<char>, Seq<E>),
> {
    let k = lower_bound(v, name, 0);
    if k < v.len() && v[k].0 == name {
        v.update(k, (name, v[k].1.push(entry)))
    } else {
        v.insert(k, (name, seq![entry]))
    }
}

pub open spec fn view_wf<E>(v: Seq<(Seq<char>, Seq<E>)>) -> bool {
    &&& forall|i: int, j: int| 0 <= i < j < v.len() ==> str_lt(#[trigger] v[i].0, #[trigger] v[j].0)
    &&& forall|i: int| 0 <= i < v.len() ==> (#[trigger] v[i]).1.len() > 0
}

pub proof fn lemma_wf_view<E>(v: Seq<(&'static str, Vec<E>)>)
    ensures
        sections_wf(v) <==> view_wf(sections_view(v)),
{
    let w = sections_view(v);
    assert(forall|i: int| 0 <= i < v.len() ==> #[trigger] w[i] == (v[i].0@, v[i].1@));
    if sections_wf(v) {
        assert forall|i: int, j: int| 0 <= i < j < w.len() implies str_lt(#[trigger] w[i].0, #[trigger] w[j].0) by {
            assert(str_lt(section_name(v[i]), section_name(v[j])));
        }
        assert forall|i: int| 0 <= i < w.len() implies (#[trigger] w[i]).1.len() > 0 by {
            assert(v[i].1@.len() > 0);
        }
    }
    if view_wf(w) {
        assert forall|i: int, j: int| 0 <= i < j < v.len() implies str_lt(#[trigger] section_name(v[i]), #[trigger] section_name(v[j])) by {
            assert(str_lt(w[i].0, w[j].0));
        }
        assert forall|i: int| 0 <= i < v.len() implies (#[trigger] v[i]).1@.len() > 0 by {
            assert(w[i].1.len() > 0);
        }
    }
}

pub proof fn lemma_lower_bound<E>(v: Seq<(Seq<char>, Seq<E>)>, name: Seq<char>, i: int)
    requires
        0 <= i <= v.len(),
        forall|j: int| 0 <= j < i ==> str_lt(#[trigger] v[j].0, name),
    ensures
        i <= lower_bound(v, name, i) <= v.len(),
        forall|j: int| 0 <= j < lower_bound(v, name, i) ==> str_lt(#[trigger] v[j].0, name),
        lower_bound(v, name, i) < v.len() ==> !str_lt(v[lower_bound(v, name, i)].0, name),
    decreases v.len() - i,
{
    if i < v.len() && str_lt(v[i].0, name) {
        lemma_lower_bound(v, name, i + 1);
    }
}

/// Listing an entry keeps the sections ordered and non-empty.
pub proof fn lemma_add_entry_wf<E>(v: Seq<(Seq<char>, Seq<E>)>, name: Seq<char>, entry: E)
    requires
        view_wf(v),
    ensures
        view_wf(spec_add_entry(v, name, entry)),
{
    lemma_lower_bound(v, name, 0);
    let k = lower_bound(v, name, 0);
    let r = spec_add_entry(v, name, entry);
    if k < v.len() && v[k].0 == name {
        assert forall|i: int, j: int| 0 <= i < j < r.len() implies str_lt(#[trigger] r[i].0, #[trigger] r[j].0) by {
            assert(r[i].0 == v[i].0 && r[j].0 == v[j].0);
        }
    } else {
        if k < v.len() {
            lemma_bytes_lt_total(encode_utf8(v[k].0), encode_utf8(name));
            lemma_encode_injective(v[k].0, name);
        }
        assert forall|i: int, j: int| 0 <= i < j < r.len() implies str_lt(#[trigger] r[i].0, #[trigger] r[j].0) by {
            if j == k {
                assert(r[i].0 == v[i].0);
            } else if i == k {
                assert(r[j].0 == v[j - 1].0);
                if j - 1 > k {
                    lemma_bytes_lt_trans(encode_utf8(name), encode_utf8(v[k].0), encode_utf8(v[j - 1].0));
                }
            } else if i < k {
                if j < k {
                    assert(r[i].0 == v[i].0 && r[j].0 == v[j].0);
                } else {
                    assert(r[i].0 == v[i].0 && r[j].0 == v[j - 1].0);
                }
            } else {
                assert(r[i].0 == v[i - 1].0 && r[j].0 == v[j - 1].0);
            }
        }
        assert forall|i: int| 0 <= i < r.len() implies (#[trigger] r[i]).1.len() > 0 by {
            if i < k {
                assert(r[i] == v[i]);
            } else if i > k {
                assert(r[i] == v[i - 1]);
            }
        }
    }
}

/// Lists `entry` under `section`: after the entries already there, or in a
/// new section put in its place by name.
pub fn add_to_sections<E>(store: &mut Vec<(&'static str, Vec<E>)>, section: &'static str, entry: E)
    requires
        sections_wf(old(store)@),
    ensures
        sections_wf(final(store)@),
        sections_view(final(store)@) == spec_add_entry(sections_view(old(store)@), section@, entry),
{
    let ghost v = sections_view(store@);
    proof {
        lemma_wf_view(store@);
        lemma_lower_bound(v, section@, 0);
    }
    let mut k: usize = 0;
    let mut found = false;
    while k < store.len()
        invariant_except_break
            !found,
        invariant
            sections_view(store@) == v,
            k <= v.len(),
            lower_bound(v, section@, 0) == lower_bound(v, section@, k as int),
        ensures
            k <= v.len(),
            lower_bound(v, section@, 0) == k,
            found <==> (k < v.len() && v[k as int].0 == section@),
        decreases store.len() - k,
    {
        assert(v[k as int].0 == store@[k as int].0@);
        match str_order(store[k].0, section) {
            StrOrder::Less => {
                k += 1;
            },
            StrOrder::Equal => {
                found = true;
                break;
            },
            StrOrder::Greater => {
                proof {
                    lemma_bytes_lt_irrefl(encode_utf8(section@));
                    lemma_bytes_lt_total(encode_utf8(section@), encode_utf8(v[k as int].0));
                    lemma_encode_injective(v[k as int].0, section@);
                    if str_lt(v[k as int].0, section@) {
                        lemma_bytes_lt_trans(
                            encode_utf8(v[k as int].0),
                            encode_utf8(section@),
                            encode_utf8(v[k as int].0),
                        );
                        lemma_bytes_lt_irrefl(encode_utf8(v[k as int].0));
                    }
                }
                break;
            },
        }
    }
    let ghost e = entry;
    if found {
        let mut entries = store.remove(k);
        entries.1.push(entry);
        store.insert(k, entries);
    } else {
        let mut entries = Vec::new();
        entries.push(entry);
        store.insert(k, (section, entries));
    }
    proof {
        let r = spec_add_entry(v, section@, e);
        assert(sections_view(store@) =~= r);
        lemma_add_entry_wf(v, section@, e);
        lemma_wf_view(store@);
    }
}

} // verus!
