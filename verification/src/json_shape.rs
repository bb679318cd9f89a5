//! Where the reader puts each value of a document that is an array or a
//! structure: the root comes first and is the only value without a parent,
//! array elements are numbered by their earlier siblings, member keys point
//! at quoted text followed by a colon, containers start with their bracket,
//! and source ranges come in document order, each nested in its container
//! once that container is closed.
use vstd::prelude::*;
use vstd::utf8::valid_utf8;
use crate::json_format::spec_render;
use crate::json_viewer::{
    is_container, is_filled_container, node_wf, spec_depth, wf_list, JsonMetadataIndex, NameOrIndex,
    ObjectMeta, ObjectType,
};
use crate::json_parse::{
    initial_state, lemma_escaped_scan_bound, lemma_number_len_bound,
    lemma_skip_ws_lenient_bound, lemma_skip_ws_strict_bound, number_len,
    spec_add, spec_close, spec_create, spec_escaped_len_at, spec_open, spec_parse, spec_push,
    spec_quoted, spec_run, spec_scalar, spec_step, has_literal, lit_false, lit_null, lit_true,
    ParseState, ParsingState,
};
use crate::json_laws::{
    at_line_start, lemma_parsed_utf8_renders, lemma_render_lines, line_head, spaces_of, add_shape, lemma_add_inv, lemma_open_chain_below, lemma_open_chain_frame, lemma_step_inv, open_chain,
    state_inv,
};

verus! {

pub open spec fn is_array_ty(ty: ObjectType) -> bool {
    ty == ObjectType::Array || ty == ObjectType::EmptyArray
}

pub open spec fn is_struct_ty(ty: ObjectType) -> bool {
    ty == ObjectType::Structure || ty == ObjectType::EmptyStructure
}

/// How many entries before position `k` have the parent `parent`.
pub open spec fn count_children(l: Seq<ObjectMeta>, k: int, parent: Option<JsonMetadataIndex>) -> nat
    decreases k,
{
    if k <= 0 {
        0
    } else {
        count_children(l, k - 1, parent) + if l[k - 1].parent == parent {
            1nat
        } else {
            0nat
        }
    }
}

/// A quoted key of `len` bytes stands at `start`, and a colon follows it.
pub open spec fn key_at(c: Seq<u8>, start: int, len: int) -> bool {
    &&& 0 <= start
    &&& 2 <= len
    &&& start + len < c.len()
    &&& c[start] == 0x22
    &&& c[start + len - 1] == 0x22
    &&& c[start + len] == 0x3a
}

/// Where the source of a value ends.
pub open spec fn end_of(m: ObjectMeta) -> int {
    m.source_start + m.source_len
}

/// `j` is the open container `par` or one of its ancestors.
pub open spec fn on_chain(l: Seq<ObjectMeta>, par: Option<JsonMetadataIndex>, j: int) -> bool {
    match par {
        Some(p) => open_chain(l, p.0 as int, j),
        None => false,
    }
}

/// What holds of entry `k` while the reader is at `cur` with the innermost
/// open container `par`.
pub open spec fn entry_inv(
    c: Seq<u8>,
    l: Seq<ObjectMeta>,
    k: int,
    cur: int,
    par: Option<JsonMetadataIndex>,
) -> bool {
    let m = l[k];
    &&& (k == 0 ==> m.parent.is_none() && m.prev.is_none() && m.expanded)
    &&& (k > 0 ==> m.parent.is_some() && !m.expanded)
    &&& m.source_start < c.len()
    &&& (is_array_ty(m.ty) <==> c[m.source_start as int] == 0x5b)
    &&& (is_struct_ty(m.ty) <==> c[m.source_start as int] == 0x7b)
    &&& (m.name_or_index matches NameOrIndex::Name { start, len } ==> key_at(
        c,
        start as int,
        len as int,
    ))
    &&& (m.parent matches Some(p) ==> {
        &&& (is_array_ty(l[p.0 as int].ty) ==> (m.name_or_index matches NameOrIndex::Index(i) && i
            == count_children(l, k, m.parent)))
        &&& (is_struct_ty(l[p.0 as int].ty) ==> m.name_or_index is Name)
        &&& (l[p.0 as int].source_len > 0 ==> end_of(m) < end_of(l[p.0 as int]))
    })
    &&& m.source_start < cur
    &&& (if on_chain(l, par, k) {
        m.source_len == 0
    } else {
        end_of(m) <= cur && (is_container(m.ty) ==> m.source_len > 0)
    })
    &&& (m.prev matches Some(q) ==> end_of(l[q.0 as int]) <= m.source_start)
}

/// What holds of the reader's state, on top of `state_inv`, when the input
/// starts with a bracket.
pub open spec fn shape_inv(c: Seq<u8>, s: ParseState) -> bool {
    &&& c.len() > 0
    &&& (c[0] == 0x5b || c[0] == 0x7b)
    &&& (s.out.len() == 0 ==> {
        &&& s.cursor == 0
        &&& s.state == ParsingState::TopLevel
        &&& s.parent.is_none()
        &&& s.prev.is_none()
    })
    &&& (s.out.len() > 0 ==> s.state != ParsingState::TopLevel)
    &&& (s.state matches ParsingState::InStructWithName { start, len } ==> key_at(
        c,
        start as int,
        len as int,
    ))
    &&& (s.parent matches Some(p) ==> {
        &&& (is_array_ty(s.out[p.0 as int].ty) <==> s.state is InArray)
        &&& (is_struct_ty(s.out[p.0 as int].ty) <==> (s.state is InStructWithName
            || s.state is InStructWithoutName))
        &&& (s.state matches ParsingState::InArray { index } ==> index == count_children(
            s.out,
            s.out.len() as int,
            s.parent,
        ))
    })
    &&& forall|x: int, j: int|
        #![trigger on_chain(s.out, s.parent, x), s.out[j]]
        on_chain(s.out, s.parent, x) && x < j < s.out.len() ==> (s.out[j].parent matches Some(q)
            && q.0 >= x)
    &&& forall|j: int, k: int|
        #![trigger s.out[j], s.out[k]]
        0 <= j < k < s.out.len() ==> s.out[j].source_start < s.out[k].source_start
    &&& forall|k: int|
        0 <= k < s.out.len() ==> #[trigger] entry_inv(c, s.out, k, s.cursor, s.parent)
}

pub proof fn lemma_count_frame(a: Seq<ObjectMeta>, b: Seq<ObjectMeta>, k: int, parent: Option<JsonMetadataIndex>)
    requires
        forall|i: int| 0 <= i < k ==> #[trigger] a[i].parent == b[i].parent,
    ensures
        count_children(a, k, parent) == count_children(b, k, parent),
    decreases k,
{
    if k > 0 {
        lemma_count_frame(a, b, k - 1, parent);
    }
}

pub proof fn lemma_count_none(l: Seq<ObjectMeta>, a: int, b: int, parent: Option<JsonMetadataIndex>)
    requires
        0 <= a <= b,
        forall|i: int| a <= i < b ==> #[trigger] l[i].parent != parent,
    ensures
        count_children(l, b, parent) == count_children(l, a, parent),
    decreases b - a,
{
    if a < b {
        lemma_count_none(l, a, b - 1, parent);
    }
}

/// The entry a successful append makes, and what becomes of the state.
pub proof fn lemma_add_meta(s: ParseState, ty: ObjectType, len: usize)
    requires
        s.parent matches Some(p) ==> p.0 < s.out.len(),
        s.prev matches Some(q) ==> q.0 < s.out.len(),
    ensures
        spec_add(s, ty, len) matches Some((ni, s2)) ==> {
            let n = s.out.len() as int;
            let m = s2.out[n];
            &&& m.expanded == (s.state == ParsingState::TopLevel)
            &&& (s.state == ParsingState::TopLevel ==> m.name_or_index == NameOrIndex::Index(0))
            &&& (s.state matches ParsingState::InArray { index } ==> {
                &&& m.name_or_index == NameOrIndex::Index(index)
                &&& s2.state == ParsingState::InArray { index: (index + 1) as u64 }
            })
            &&& (s.state matches ParsingState::InStructWithName { .. } ==> m.name_or_index is Name)
            &&& (s.state != ParsingState::TopLevel ==> s.parent is Some)
            &&& (s.parent matches Some(p) ==> {
                &&& (is_array_ty(s2.out[p.0 as int].ty) <==> is_array_ty(s.out[p.0 as int].ty))
                &&& (is_struct_ty(s2.out[p.0 as int].ty) <==> is_struct_ty(s.out[p.0 as int].ty))
                &&& s2.out[p.0 as int].source_len == s.out[p.0 as int].source_len
            })
        },
{
    if let Some((meta, s1)) = spec_create(s, ty, len) {
        if let Some((ni, s2)) = spec_push(s1, meta) {
            let n = s.out.len() as int;
            assert(s2.out[n] == meta);
            if let Some(p) = s.parent {
                assert(s1.out[p.0 as int].source_len == s.out[p.0 as int].source_len);
            }
        }
    }
}

/// After an append, the open containers are the same as before among the
/// old entries, whether or not the new entry is opened.
pub proof fn lemma_chain_after_add(
    c: Seq<u8>,
    s: ParseState,
    ty: ObjectType,
    len: usize,
    ni: JsonMetadataIndex,
    s2: ParseState,
    par2: Option<JsonMetadataIndex>,
    x: int,
)
    requires
        state_inv(c, s),
        add_shape(s, ty, len, ni, s2),
        par2 == s.parent || par2 == Some(ni),
        x < s.out.len(),
    ensures
        on_chain(s2.out, par2, x) == on_chain(s.out, s.parent, x),
        on_chain(s2.out, s.parent, x) == on_chain(s.out, s.parent, x),
{
    let n = s.out.len() as int;
    if let Some(p) = s.parent {
        assert forall|i: int| 0 <= i <= p.0 implies #[trigger] s2.out[i].parent == s.out[i].parent by {}
        lemma_open_chain_frame(s.out, s2.out, p.0 as int, x);
    }
    if par2 == Some(ni) && par2 != s.parent {
        assert(s2.out[n].parent == s.parent);
        lemma_open_chain_below(s2.out, n, x);
    }
}

/// An old entry keeps its invariant through an append that moves the cursor
/// forward.
pub proof fn lemma_add_old_entry(
    c: Seq<u8>,
    s: ParseState,
    ty: ObjectType,
    len: usize,
    ni: JsonMetadataIndex,
    s2: ParseState,
    cur2: int,
    par2: Option<JsonMetadataIndex>,
    k: int,
)
    requires
        state_inv(c, s),
        shape_inv(c, s),
        spec_add(s, ty, len) == Some((ni, s2)),
        add_shape(s, ty, len, ni, s2),
        s.cursor < cur2,
        par2 == s.parent || par2 == Some(ni),
        0 <= k < s.out.len(),
    ensures
        entry_inv(c, s2.out, k, cur2, par2),
{
    let n = s.out.len() as int;
    let out = s.out;
    let out2 = s2.out;
    assert(entry_inv(c, out, k, s.cursor, s.parent));
    lemma_add_meta(s, ty, len);
    lemma_chain_after_add(c, s, ty, len, ni, s2, par2, k);
    assert(out2[k].parent == out[k].parent);
    if let Some(pp) = out[k].parent {
        assert(node_wf(out, k));
        let p = pp.0 as int;
        if s.parent != Some(pp) {
            assert(out2[p].ty == out[p].ty);
        }
        assert(out2[p].source_len == out[p].source_len);
        assert forall|i: int| 0 <= i < k implies #[trigger] out[i].parent == out2[i].parent by {}
        lemma_count_frame(out, out2, k, out[k].parent);
    }
    if s.parent != Some(JsonMetadataIndex(k as u32)) {
        assert(out2[k].ty == out[k].ty);
    }
    if let Some(q) = out[k].prev {
        assert(node_wf(out, k));
        assert(out2[q.0 as int].source_len == out[q.0 as int].source_len);
    }
}

/// The new entry of an append satisfies the invariant at the new cursor.
pub proof fn lemma_add_new_entry(
    c: Seq<u8>,
    s: ParseState,
    ty: ObjectType,
    len: usize,
    ni: JsonMetadataIndex,
    s2: ParseState,
    cur2: int,
    par2: Option<JsonMetadataIndex>,
)
    requires
        state_inv(c, s),
        shape_inv(c, s),
        s.cursor < c.len(),
        spec_add(s, ty, len) == Some((ni, s2)),
        add_shape(s, ty, len, ni, s2),
        s.cursor < cur2,
        is_array_ty(ty) <==> c[s.cursor] == 0x5b,
        is_struct_ty(ty) <==> c[s.cursor] == 0x7b,
        is_container(ty) ==> par2 == Some(ni) && len == 0,
        !is_container(ty) ==> par2 == s.parent && s.cursor + len <= cur2,
    ensures
        entry_inv(c, s2.out, s.out.len() as int, cur2, par2),
{
    let n = s.out.len() as int;
    let out = s.out;
    let out2 = s2.out;
    lemma_add_meta(s, ty, len);
    let m = out2[n];
    if let Some(pp) = s.parent {
        let p = pp.0 as int;
        assert(open_chain(out, p, p));
        assert(entry_inv(c, out, p, s.cursor, s.parent));
        assert forall|i: int| 0 <= i < n implies #[trigger] out[i].parent == out2[i].parent by {}
        lemma_count_frame(out, out2, n, s.parent);
        if !is_container(ty) {
            lemma_open_chain_below(out2, p, n);
        }
    }
    if let Some(q) = s.prev {
        let qi = q.0 as int;
        assert(entry_inv(c, out, qi, s.cursor, s.parent));
        if let Some(pp) = s.parent {
            assert(node_wf(out, qi));
            lemma_open_chain_below(out, pp.0 as int, qi);
        }
        assert(out2[qi].source_len == out[qi].source_len);
    }
    if is_container(ty) {
        assert(open_chain(out2, n, n));
    }
}

/// After an append the entries keep their invariant and their order, and
/// the open containers still own every entry that follows them.
pub proof fn lemma_add_entries(
    c: Seq<u8>,
    s: ParseState,
    ty: ObjectType,
    len: usize,
    ni: JsonMetadataIndex,
    s2: ParseState,
    cur2: int,
    par2: Option<JsonMetadataIndex>,
)
    requires
        state_inv(c, s),
        shape_inv(c, s),
        s.cursor < c.len(),
        spec_add(s, ty, len) == Some((ni, s2)),
        add_shape(s, ty, len, ni, s2),
        s.cursor < cur2,
        is_array_ty(ty) <==> c[s.cursor] == 0x5b,
        is_struct_ty(ty) <==> c[s.cursor] == 0x7b,
        is_container(ty) ==> par2 == Some(ni) && len == 0,
        !is_container(ty) ==> par2 == s.parent && s.cursor + len <= cur2,
    ensures
        forall|k: int| 0 <= k < s2.out.len() ==> #[trigger] entry_inv(c, s2.out, k, cur2, par2),
        forall|j: int, k: int|
            #![trigger s2.out[j], s2.out[k]]
            0 <= j < k < s2.out.len() ==> s2.out[j].source_start < s2.out[k].source_start,
        forall|x: int, j: int|
            #![trigger on_chain(s2.out, par2, x), s2.out[j]]
            on_chain(s2.out, par2, x) && x < j < s2.out.len() ==> (s2.out[j].parent matches Some(
                q,
            ) && q.0 >= x),
{
    let n = s.out.len() as int;
    let out = s.out;
    let out2 = s2.out;
    assert forall|k: int| 0 <= k < out2.len() implies #[trigger] entry_inv(c, out2, k, cur2, par2) by {
        if k < n {
            lemma_add_old_entry(c, s, ty, len, ni, s2, cur2, par2, k);
        } else {
            lemma_add_new_entry(c, s, ty, len, ni, s2, cur2, par2);
        }
    }
    assert forall|j: int, k: int|
        #![trigger out2[j], out2[k]]
        0 <= j < k < out2.len() implies out2[j].source_start
        < out2[k].source_start by {
        if k < n {
            assert(out[j].source_start < out[k].source_start);
        } else {
            assert(entry_inv(c, out, j, s.cursor, s.parent));
        }
    }
    assert forall|x: int, j: int|
        #![trigger on_chain(out2, par2, x), out2[j]]
        on_chain(out2, par2, x) && x < j < out2.len() implies (out2[j].parent
        matches Some(q) && q.0 >= x) by {
        if x < n {
            lemma_chain_after_add(c, s, ty, len, ni, s2, par2, x);
            if j < n {
                if let Some(p) = s.parent {
                    lemma_open_chain_below(out, p.0 as int, x);
                }
                assert(on_chain(out, s.parent, x) && x < j < out.len());
                assert(out[j].parent == out2[j].parent);
            } else {
                let p = s.parent.unwrap();
                lemma_open_chain_below(out, p.0 as int, x);
            }
        } else {
            if par2 == s.parent {
                let p = s.parent.unwrap();
                lemma_open_chain_below(out2, p.0 as int, x);
                assert(p.0 < n);
            } else {
                lemma_open_chain_below(out2, n, x);
            }
        }
    }
}

/// An entry's invariant still holds once the cursor moves forward.
pub proof fn lemma_entry_later(
    c: Seq<u8>,
    l: Seq<ObjectMeta>,
    k: int,
    cur: int,
    cur2: int,
    par: Option<JsonMetadataIndex>,
)
    requires
        entry_inv(c, l, k, cur, par),
        cur <= cur2,
    ensures
        entry_inv(c, l, k, cur2, par),
{
}

/// Reading a scalar value keeps the shape.
pub proof fn lemma_scalar_shape(c: Seq<u8>, s: ParseState, ty: ObjectType, len: int)
    requires
        state_inv(c, s),
        shape_inv(c, s),
        s.cursor < c.len(),
        1 <= len,
        s.cursor + len <= c.len(),
        c[s.cursor] < 0x80,
        c[s.cursor + len - 1] < 0x80,
        !is_container(ty),
        c[s.cursor] != 0x5b,
        c[s.cursor] != 0x7b,
    ensures
        spec_scalar(c, s, ty, len) matches Some(s3) ==> shape_inv(c, s3),
{
    lemma_add_inv(c, s, ty, len as usize);
    lemma_add_meta(s, ty, len as usize);
    lemma_skip_ws_strict_bound(c, s.cursor + len);
    lemma_skip_ws_strict_bound(c, s.cursor + len + 1);
    if let Some(s3) = spec_scalar(c, s, ty, len) {
        let (ni, s2) = spec_add(s, ty, len as usize)->0;
        let k = s3.cursor;
        let n = s.out.len() as int;
        lemma_add_entries(c, s, ty, len as usize, ni, s2, k, s.parent);
        assert(s3.out == s2.out && s3.parent == s.parent && s3.state == s2.state);
        if let Some(pp) = s.parent {
            assert forall|i: int| 0 <= i < n implies #[trigger] s.out[i].parent == s2.out[i].parent by {}
            lemma_count_frame(s.out, s2.out, n, s.parent);
        }
    }
}

/// Reading an opening bracket keeps the shape.
pub proof fn lemma_open_shape(c: Seq<u8>, s: ParseState, is_array: bool)
    requires
        state_inv(c, s),
        shape_inv(c, s),
        s.cursor < c.len(),
        c[s.cursor] == (if is_array { 0x5bu8 } else { 0x7bu8 }),
    ensures
        spec_open(c, s, is_array) matches Some(s3) ==> shape_inv(c, s3),
{
    let ty = if is_array {
        ObjectType::EmptyArray
    } else {
        ObjectType::EmptyStructure
    };
    lemma_add_inv(c, s, ty, 0);
    lemma_add_meta(s, ty, 0);
    lemma_skip_ws_strict_bound(c, s.cursor + 1);
    if let Some(s3) = spec_open(c, s, is_array) {
        let (ni, s2) = spec_add(s, ty, 0)->0;
        let k = s3.cursor;
        let n = s.out.len() as int;
        lemma_add_entries(c, s, ty, 0, ni, s2, k, Some(ni));
        assert(s3.out == s2.out);
        assert forall|i: int| 0 <= i < n + 1 implies #[trigger] s2.out[i].parent != Some(ni) by {
            if i < n {
                assert(node_wf(s2.out, i));
            }
        }
        lemma_count_none(s2.out, 0, n + 1, Some(ni));
    }
}

/// Reading a member key keeps the shape.
pub proof fn lemma_key_shape(c: Seq<u8>, s: ParseState)
    requires
        state_inv(c, s),
        shape_inv(c, s),
        s.cursor < c.len(),
        c[s.cursor] == 0x22,
        s.state == ParsingState::InStructWithoutName,
    ensures
        spec_quoted(c, s) matches Some(s2) ==> shape_inv(c, s2),
{
    lemma_escaped_scan_bound(c, s.cursor + 1, false);
    if let Some(s2) = spec_quoted(c, s) {
        let len = spec_escaped_len_at(c, s.cursor)->0;
        lemma_skip_ws_strict_bound(c, s.cursor + len + 1);
        assert(key_at(c, s.cursor, len));
        assert forall|k: int| 0 <= k < s2.out.len() implies #[trigger] entry_inv(
            c,
            s2.out,
            k,
            s2.cursor,
            s2.parent,
        ) by {
            assert(entry_inv(c, s.out, k, s.cursor, s.parent));
            lemma_entry_later(c, s.out, k, s.cursor, s2.cursor, s.parent);
        }
    }
}

/// Closing the innermost container leaves its ancestors open, and nothing else.
pub proof fn lemma_close_chain(c: Seq<u8>, s: ParseState, s2: ParseState, x: int)
    requires
        state_inv(c, s),
        s.cursor < c.len(),
        spec_close(c, s) == Some(s2),
    ensures
        on_chain(s2.out, s2.parent, x) <==> (on_chain(s.out, s.parent, x) && x != s.parent.unwrap().0),
{
    let p = s.parent.unwrap().0 as int;
    let out = s.out;
    let out2 = s2.out;
    assert(node_wf(out, p));
    assert forall|i: int| 0 <= i <= p implies #[trigger] out2[i].parent == out[i].parent by {}
    if let Some(g) = out[p].parent {
        lemma_open_chain_frame(out, out2, g.0 as int, x);
        lemma_open_chain_below(out, g.0 as int, x);
    }
}

/// Each entry keeps its invariant when the innermost container closes.
pub proof fn lemma_close_entry(c: Seq<u8>, s: ParseState, s2: ParseState, k: int)
    requires
        state_inv(c, s),
        shape_inv(c, s),
        s.cursor < c.len(),
        spec_close(c, s) == Some(s2),
        0 <= k < s2.out.len(),
    ensures
        entry_inv(c, s2.out, k, s2.cursor, s2.parent),
{
    let pp = s.parent.unwrap();
    let p = pp.0 as int;
    let out = s.out;
    let out2 = s2.out;
    let kc = s.cursor + 1;
    lemma_skip_ws_lenient_bound(c, kc);
    if kc < c.len() {
        lemma_skip_ws_lenient_bound(c, kc + 1);
    }
    assert(s.cursor + 1 <= s2.cursor);
    lemma_close_chain(c, s, s2, k);
    assert(entry_inv(c, out, k, s.cursor, s.parent));
    assert(open_chain(out, p, p));
    assert(entry_inv(c, out, p, s.cursor, s.parent));
    assert forall|i: int| 0 <= i < k implies #[trigger] out[i].parent == out2[i].parent by {}
    if let Some(pk) = out[k].parent {
        lemma_count_frame(out, out2, k, out[k].parent);
        assert(node_wf(out, k));
        if pk.0 == p {
            lemma_open_chain_below(out, p, k);
        } else if k == p {
            assert(open_chain(out, pk.0 as int, pk.0 as int));
            assert(open_chain(out, p, pk.0 as int));
            assert(entry_inv(c, out, pk.0 as int, s.cursor, s.parent));
        }
    }
    if let Some(q) = out[k].prev {
        assert(node_wf(out, k));
        if q.0 == p {
            assert(out[p].next.is_none());
        }
    }
}

/// Reading a closing bracket keeps the shape.
pub proof fn lemma_close_shape(c: Seq<u8>, s: ParseState)
    requires
        state_inv(c, s),
        shape_inv(c, s),
        s.cursor < c.len(),
    ensures
        spec_close(c, s) matches Some(s2) ==> shape_inv(c, s2),
{
    if let Some(s2) = spec_close(c, s) {
        let pp = s.parent.unwrap();
        let p = pp.0 as int;
        let out = s.out;
        let out2 = s2.out;
        let n = out.len() as int;
        let kc = s.cursor + 1;
        lemma_skip_ws_lenient_bound(c, kc);
        if kc < c.len() {
            lemma_skip_ws_lenient_bound(c, kc + 1);
        }
        assert forall|k: int| 0 <= k < out2.len() implies #[trigger] entry_inv(
            c,
            out2,
            k,
            s2.cursor,
            s2.parent,
        ) by {
            lemma_close_entry(c, s, s2, k);
        }
        assert forall|x: int, j: int|
            #![trigger on_chain(out2, s2.parent, x), out2[j]]
            on_chain(out2, s2.parent, x) && x < j < out2.len() implies (out2[j].parent matches Some(
                q,
            ) && q.0 >= x) by {
            lemma_close_chain(c, s, s2, x);
            lemma_open_chain_below(out, p, x);
            assert(out2[j].parent == out[j].parent);
        }
        assert forall|j: int, k: int|
            #![trigger out2[j], out2[k]]
            0 <= j < k < out2.len() implies out2[j].source_start < out2[k].source_start by {
            assert(out[j].source_start < out[k].source_start);
        }
        assert(open_chain(out, p, p));
        assert(entry_inv(c, out, p, s.cursor, s.parent));
        assert(node_wf(out, p));
        if let Some(g) = out[p].parent {
            let gi = g.0 as int;
            assert(out2[gi] == out[gi]);
            assert forall|i: int| 0 <= i < n implies #[trigger] out[i].parent == out2[i].parent by {}
            lemma_count_frame(out, out2, n, Some(g));
            assert forall|i: int| p + 1 <= i < n implies #[trigger] out[i].parent != Some(g) by {
                assert(on_chain(out, s.parent, p) && p < i < n);
                assert(out[i].parent matches Some(q) && q.0 >= p);
            }
            lemma_count_none(out, p + 1, n, Some(g));
        }
    }
}

/// One step keeps the shape.
pub proof fn lemma_step_shape(c: Seq<u8>, s: ParseState)
    requires
        state_inv(c, s),
        shape_inv(c, s),
        s.cursor < c.len(),
    ensures
        spec_step(c, s) matches Some(s2) ==> shape_inv(c, s2),
{
    let b = c[s.cursor];
    if b == 0x5b {
        lemma_open_shape(c, s, true);
    } else if b == 0x7b {
        lemma_open_shape(c, s, false);
    } else if b == 0x5d || b == 0x7d {
        lemma_close_shape(c, s);
    } else if b == 0x22 {
        lemma_escaped_scan_bound(c, s.cursor + 1, false);
        if let Some(len) = spec_escaped_len_at(c, s.cursor) {
            if s.state == ParsingState::InStructWithoutName {
                lemma_key_shape(c, s);
            } else {
                lemma_scalar_shape(c, s, ObjectType::String, len);
            }
        }
    } else if b == 0x2d || (0x30 <= b <= 0x39) {
        lemma_number_len_bound(c, s.cursor);
        if let Some(n) = number_len(c, s.cursor) {
            lemma_scalar_shape(c, s, ObjectType::Number, n);
        }
    } else if b == 0x6e {
        if has_literal(c, s.cursor, lit_null()) {
            assert(c.subrange(s.cursor, s.cursor + 4)[3] == c[s.cursor + 3]);
            lemma_scalar_shape(c, s, ObjectType::Null, 4);
        }
    } else if b == 0x74 {
        if has_literal(c, s.cursor, lit_true()) {
            assert(c.subrange(s.cursor, s.cursor + 4)[3] == c[s.cursor + 3]);
            lemma_scalar_shape(c, s, ObjectType::Bool, 4);
        }
    } else if b == 0x66 {
        if has_literal(c, s.cursor, lit_false()) {
            assert(c.subrange(s.cursor, s.cursor + 5)[4] == c[s.cursor + 4]);
            lemma_scalar_shape(c, s, ObjectType::Bool, 5);
        }
    }
}

pub proof fn lemma_run_shape(c: Seq<u8>, s: ParseState)
    requires
        state_inv(c, s),
        shape_inv(c, s),
    ensures
        spec_run(c, s) matches Some(s2) ==> state_inv(c, s2) && shape_inv(c, s2) && s2.cursor
            == c.len(),
    decreases c.len() - s.cursor,
{
    if 0 <= s.cursor < c.len() {
        lemma_step_inv(c, s);
        lemma_step_shape(c, s);
        if let Some(s2) = spec_step(c, s) {
            if s.cursor < s2.cursor <= c.len() {
                lemma_run_shape(c, s2);
            }
        }
    }
}

/// The final list of a document that starts with a bracket, with the
/// invariants that hold of it.
proof fn lemma_parse_shape(c: Seq<u8>)
    requires
        c.len() <= usize::MAX,
        c.len() > 0,
        c[0] == 0x5b || c[0] == 0x7b,
    ensures
        spec_run(c, initial_state()) matches Some(s) ==> {
            &&& state_inv(c, s)
            &&& shape_inv(c, s)
            &&& s.cursor == c.len()
            &&& s.out.len() > 0
        },
{
    let s0 = initial_state();
    assert(state_inv(c, s0));
    assert(shape_inv(c, s0));
    lemma_run_shape(c, s0);
}

/// The first value of a document that starts with a bracket is its root: it
/// has no parent and no siblings, and is shown expanded; every later value
/// has an earlier parent and is shown collapsed.
pub proof fn lemma_parse_root(c: Seq<u8>)
    requires
        c.len() <= usize::MAX,
        c.len() > 0,
        c[0] == 0x5b || c[0] == 0x7b,
    ensures
        spec_parse(c) matches Some(l) ==> root_first(l),
{
    lemma_parse_shape(c);
    if let Some(s) = spec_run(c, initial_state()) {
        let l = s.out;
        assert(entry_inv(c, l, 0, s.cursor, s.parent));
        assert(node_wf(l, 0));
        if let Some(r) = l[0].next {
            assert(node_wf(l, r.0 as int));
            assert(entry_inv(c, l, r.0 as int, s.cursor, s.parent));
        }
        assert forall|k: int| 0 < k < l.len() implies ((#[trigger] l[k]).parent matches Some(p) && p.0
            < k && !l[k].expanded) by {
            assert(node_wf(l, k));
            assert(entry_inv(c, l, k, s.cursor, s.parent));
        }
    }
}

/// The first entry is the root: no parent, no siblings, expanded; every later
/// entry has an earlier parent and is collapsed.
pub open spec fn root_first(l: Seq<ObjectMeta>) -> bool {
    &&& l.len() >= 1
    &&& l[0].parent.is_none()
    &&& l[0].prev.is_none()
    &&& l[0].next.is_none()
    &&& l[0].expanded
    &&& forall|k: int|
        0 < k < l.len() ==> ((#[trigger] l[k]).parent matches Some(p) && p.0 < k
            && !l[k].expanded)
}

/// An element of an array is numbered by how many siblings come before it;
/// a member of a structure is named by a quoted key that a colon follows.
pub open spec fn children_named(c: Seq<u8>, l: Seq<ObjectMeta>) -> bool {
    forall|k: int|
        0 <= k < l.len() ==> (#[trigger] l[k].parent matches Some(p) ==> {
            &&& (l[p.0 as int].ty == ObjectType::Array ==> (l[k].name_or_index matches NameOrIndex::Index(
                i,
            ) && i == count_children(l, k, l[k].parent)))
            &&& (l[p.0 as int].ty == ObjectType::Structure ==> (l[k].name_or_index matches NameOrIndex::Name {
                start,
                len,
            } && key_at(c, start as int, len as int)))
        })
}

/// A value has children exactly when it is a filled container, and it is an
/// array, or a structure, exactly when its source starts with `[`, or `{`.
pub open spec fn containers_marked(c: Seq<u8>, l: Seq<ObjectMeta>) -> bool {
    forall|p: int|
        0 <= p < l.len() ==> {
            &&& ((exists|k: int|
                0 <= k < l.len() && #[trigger] l[k].parent == Some(JsonMetadataIndex(p as u32)))
                <==> is_filled_container(#[trigger] l[p].ty))
            &&& (is_array_ty(l[p].ty) <==> c[l[p].source_start as int] == 0x5b)
            &&& (is_struct_ty(l[p].ty) <==> c[l[p].source_start as int] == 0x7b)
        }
}

/// Values come in document order, each starts after its previous sibling
/// ends, and each lies strictly inside its container once that is closed.
pub open spec fn in_document_order(l: Seq<ObjectMeta>) -> bool {
    &&& forall|j: int, k: int|
        #![trigger l[j], l[k]]
        0 <= j < k < l.len() ==> l[j].source_start < l[k].source_start
    &&& forall|k: int|
        0 <= k < l.len() ==> (#[trigger] l[k].prev matches Some(q) ==> end_of(
            l[q.0 as int],
        ) <= l[k].source_start)
    &&& forall|k: int|
        0 <= k < l.len() ==> (#[trigger] l[k].parent matches Some(p) ==> (l[p.0 as int].source_len
            > 0 ==> l[p.0 as int].source_start < l[k].source_start && end_of(l[k]) < end_of(
            l[p.0 as int],
        )))
}

/// What remains of an entry's invariant once the whole input is read.
spec fn final_entry(c: Seq<u8>, l: Seq<ObjectMeta>, k: int) -> bool {
    let m = l[k];
    &&& m.source_start < c.len()
    &&& (is_array_ty(m.ty) <==> c[m.source_start as int] == 0x5b)
    &&& (is_struct_ty(m.ty) <==> c[m.source_start as int] == 0x7b)
    &&& (m.name_or_index matches NameOrIndex::Name { start, len } ==> key_at(
        c,
        start as int,
        len as int,
    ))
    &&& (m.parent matches Some(p) ==> {
        &&& (is_array_ty(l[p.0 as int].ty) ==> (m.name_or_index matches NameOrIndex::Index(i) && i
            == count_children(l, k, m.parent)))
        &&& (is_struct_ty(l[p.0 as int].ty) ==> m.name_or_index is Name)
        &&& (l[p.0 as int].source_len > 0 ==> end_of(m) < end_of(l[p.0 as int]))
    })
    &&& (m.prev matches Some(q) ==> end_of(l[q.0 as int]) <= m.source_start)
}

/// The list of a document that starts with a bracket is well formed, in
/// document order, and each entry keeps what `final_entry` says.
proof fn lemma_parse_final(c: Seq<u8>)
    requires
        c.len() <= usize::MAX,
        c.len() > 0,
        c[0] == 0x5b || c[0] == 0x7b,
    ensures
        spec_parse(c) matches Some(l) ==> {
            &&& wf_list(l)
            &&& forall|k: int| 0 <= k < l.len() ==> #[trigger] final_entry(c, l, k)
            &&& forall|j: int, k: int|
                #![trigger l[j], l[k]]
                0 <= j < k < l.len() ==> l[j].source_start < l[k].source_start
        },
{
    lemma_parse_shape(c);
    if let Some(s) = spec_run(c, initial_state()) {
        let l = s.out;
        assert forall|k: int| 0 <= k < l.len() implies #[trigger] final_entry(c, l, k) by {
            assert(entry_inv(c, l, k, s.cursor, s.parent));
        }
    }
}

/// In a document that starts with a bracket, an element of an array is
/// numbered by how many siblings come before it, and a member of a
/// structure is named by a quoted key that a colon follows.
pub proof fn lemma_parse_names(c: Seq<u8>)
    requires
        c.len() <= usize::MAX,
        c.len() > 0,
        c[0] == 0x5b || c[0] == 0x7b,
    ensures
        spec_parse(c) matches Some(l) ==> children_named(c, l),
{
    lemma_parse_final(c);
    if let Some(l) = spec_parse(c) {
        assert forall|k: int| 0 <= k < l.len() implies (#[trigger] l[k].parent matches Some(p) ==> {
            &&& (l[p.0 as int].ty == ObjectType::Array ==> (l[k].name_or_index matches NameOrIndex::Index(
                i,
            ) && i == count_children(l, k, l[k].parent)))
            &&& (l[p.0 as int].ty == ObjectType::Structure ==> (l[k].name_or_index matches NameOrIndex::Name {
                start,
                len,
            } && key_at(c, start as int, len as int)))
        }) by {
            assert(final_entry(c, l, k));
        }
    }
}

/// In a document that starts with a bracket, a value has children exactly
/// when it is a filled array or structure, and a value is an array, or a
/// structure, exactly when its source starts with `[`, or `{`.
pub proof fn lemma_parse_containers(c: Seq<u8>)
    requires
        c.len() <= usize::MAX,
        c.len() > 0,
        c[0] == 0x5b || c[0] == 0x7b,
    ensures
        spec_parse(c) matches Some(l) ==> containers_marked(c, l),
{
    lemma_parse_final(c);
    if let Some(l) = spec_parse(c) {
        assert forall|p: int| 0 <= p < l.len() implies {
            &&& ((exists|k: int|
                0 <= k < l.len() && #[trigger] l[k].parent == Some(JsonMetadataIndex(p as u32)))
                <==> is_filled_container(#[trigger] l[p].ty))
            &&& (is_array_ty(l[p].ty) <==> c[l[p].source_start as int] == 0x5b)
            &&& (is_struct_ty(l[p].ty) <==> c[l[p].source_start as int] == 0x7b)
        } by {
            assert(final_entry(c, l, p));
            assert(node_wf(l, p));
            if is_filled_container(l[p].ty) {
                assert(l[p + 1].parent == Some(JsonMetadataIndex(p as u32)));
            }
            assert forall|k: int|
                0 <= k < l.len() && #[trigger] l[k].parent == Some(JsonMetadataIndex(p as u32)) implies
                is_filled_container(l[p].ty) by {
                assert(node_wf(l, k));
            }
        }
    }
}

/// In a document that starts with a bracket, values come in document
/// order; a value starts after its previous sibling ends; and once its
/// container is closed (its length is no longer 0), a value lies strictly
/// inside it.
pub proof fn lemma_parse_order(c: Seq<u8>)
    requires
        c.len() <= usize::MAX,
        c.len() > 0,
        c[0] == 0x5b || c[0] == 0x7b,
    ensures
        spec_parse(c) matches Some(l) ==> in_document_order(l),
{
    lemma_parse_final(c);
    if let Some(l) = spec_parse(c) {
        assert forall|k: int| 0 <= k < l.len() implies (#[trigger] l[k].prev matches Some(q) ==> end_of(
            l[q.0 as int],
        ) <= l[k].source_start) by {
            assert(final_entry(c, l, k));
        }
        assert forall|k: int| 0 <= k < l.len() implies (#[trigger] l[k].parent matches Some(p) ==> (
        l[p.0 as int].source_len > 0 ==> l[p.0 as int].source_start < l[k].source_start && end_of(l[k])
            < end_of(l[p.0 as int]))) by {
            assert(final_entry(c, l, k));
            assert(node_wf(l, k));
            if let Some(p) = l[k].parent {
                assert(l[p.0 as int].source_start < l[k].source_start);
            }
        }
    }
}

/// The input starts with an opening bracket: it is an array or a structure.
pub open spec fn starts_with_bracket(c: Seq<u8>) -> bool {
    c.len() > 0 && (c[0] == 0x5b || c[0] == 0x7b)
}

/// The laws of the reader on a document that starts with a bracket.
pub proof fn lemma_parse_laws(c: Seq<u8>)
    requires
        c.len() <= usize::MAX,
        starts_with_bracket(c),
    ensures
        spec_parse(c) matches Some(l) ==> {
            &&& root_first(l)
            &&& children_named(c, l)
            &&& containers_marked(c, l)
            &&& in_document_order(l)
        },
{
    lemma_parse_root(c);
    lemma_parse_names(c);
    lemma_parse_containers(c);
    lemma_parse_order(c);
}

/// In the printed form of a document that starts with a bracket and is
/// valid UTF-8, every value has a line of its own that starts with exactly
/// two spaces per ancestor, followed by its key and its opening bracket or
/// source text.
pub proof fn lemma_parsed_render_lines(c: Seq<u8>, j: int)
    requires
        c.len() <= usize::MAX,
        starts_with_bracket(c),
        valid_utf8(c),
        spec_parse(c) is Some,
        0 <= j < spec_parse(c)->0.len(),
    ensures
        spec_render(c, spec_parse(c)->0) is Some,
        exists|x: Seq<u8>, y: Seq<u8>|
            at_line_start(x) && spec_render(c, spec_parse(c)->0)->0 == x + spaces_of(
                spec_depth(spec_parse(c)->0, j),
            ) + line_head(c, spec_parse(c)->0, j) + y,
{
    let l = spec_parse(c)->0;
    lemma_parse_laws(c);
    lemma_parse_final(c);
    lemma_parsed_utf8_renders(c);
    assert forall|k: int| 0 < k < l.len() implies (#[trigger] l[k]).parent is Some by {
        assert(root_first(l));
    }
    lemma_render_lines(c, l, j);
}

} // verus!
