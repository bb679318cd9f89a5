//! What every metadata list the reader produces satisfies, and what the
//! printer makes of it.
use vstd::prelude::*;
use crate::json_viewer::{
    is_container, is_filled_container, node_wf, spec_depth, wf_list, JsonMetadataIndex, NameOrIndex,
    ObjectMeta, ObjectType,
};
use crate::json_parse::{
    after_close, after_value, digits_end, initial_state, lemma_escaped_scan_bound,
    lemma_number_len_bound, lemma_skip_ws_lenient_bound, lemma_skip_ws_strict_bound,
    lemma_step_advances, number_len, spec_add, spec_close, spec_create, spec_escaped_len_at,
    spec_literal, spec_open, spec_parse, spec_push, spec_quoted, spec_run, spec_scalar, spec_step,
    has_literal, lit_false, lit_null, lit_true, ParseState, ParsingState,
};

use crate::json_format::{
    close_bracket, indent, key_prefix, open_bracket, render_children, render_node, spec_render, text,
};
use vstd::utf8::{
    is_char_boundary, is_char_boundary_iff_not_is_continuation_byte,
    is_char_boundary_start_end_of_seq, pop_first_scalar, valid_utf8, valid_utf8_split,
};

verus! {

/// Every value and every member key lies inside the input, and starts and
/// ends with an ASCII byte.
pub open spec fn sources_in(c: Seq<u8>, out: Seq<ObjectMeta>) -> bool {
    forall|j: int| 0 <= j < out.len() ==> #[trigger] source_in(c, out[j])
}

pub open spec fn source_in(c: Seq<u8>, m: ObjectMeta) -> bool {
    &&& m.source_start < c.len()
    &&& c[m.source_start as int] < 0x80
    &&& m.source_start + m.source_len <= c.len()
    &&& (m.source_len > 0 ==> c[m.source_start + m.source_len - 1] < 0x80)
    &&& (m.name_or_index matches NameOrIndex::Name { start, len } ==> {
        &&& 2 <= len
        &&& start + len <= c.len()
        &&& c[start as int] < 0x80
        &&& c[start + len - 1] < 0x80
    })
}

/// `j` is `p` or one of its ancestors.
pub open spec fn open_chain(out: Seq<ObjectMeta>, p: int, j: int) -> bool
    decreases p,
{
    if p < 0 {
        false
    } else {
        j == p || match out[p].parent {
            Some(q) => q.0 < p && open_chain(out, q.0 as int, j),
            None => false,
        }
    }
}

/// What holds of the reader's state between steps.
pub open spec fn state_inv(c: Seq<u8>, s: ParseState) -> bool {
    &&& c.len() <= usize::MAX
    &&& 0 <= s.cursor <= c.len()
    &&& wf_list(s.out)
    &&& sources_in(c, s.out)
    &&& (s.state == ParsingState::TopLevel ==> s.parent.is_none())
    &&& (s.state matches ParsingState::InStructWithName { start, len } ==> {
        &&& 2 <= len
        &&& start + len <= c.len()
        &&& c[start as int] < 0x80
        &&& c[start + len - 1] < 0x80
    })
    &&& (s.parent matches Some(p) ==> {
        &&& p.0 < s.out.len()
        &&& is_container(s.out[p.0 as int].ty)
        &&& (s.prev.is_none() <==> !is_filled_container(s.out[p.0 as int].ty))
        &&& (s.prev.is_none() ==> s.out.len() == p.0 + 1)
        &&& forall|j: int| open_chain(s.out, p.0 as int, j) ==> #[trigger] s.out[j].next.is_none()
    })
    &&& (s.prev matches Some(q) ==> {
        &&& q.0 < s.out.len()
        &&& s.out[q.0 as int].next.is_none()
        &&& s.out[q.0 as int].parent == s.parent
    })
}

pub proof fn lemma_open_chain_below(out: Seq<ObjectMeta>, p: int, j: int)
    ensures
        open_chain(out, p, j) ==> 0 <= j <= p,
    decreases p,
{
    if p >= 0 {
        if let Some(q) = out[p].parent {
            if q.0 < p {
                lemma_open_chain_below(out, q.0 as int, j);
            }
        }
    }
}

/// The ancestor chain of `p` only reads the parent links of positions up to `p`.
pub proof fn lemma_open_chain_frame(a: Seq<ObjectMeta>, b: Seq<ObjectMeta>, p: int, j: int)
    requires
        forall|i: int| 0 <= i <= p ==> #[trigger] a[i].parent == b[i].parent,
    ensures
        open_chain(a, p, j) == open_chain(b, p, j),
    decreases p,
{
    if p >= 0 {
        if let Some(q) = a[p].parent {
            if q.0 < p {
                lemma_open_chain_frame(a, b, q.0 as int, j);
            }
        }
    }
}

/// What appending an entry does to the list, field by field.
pub open spec fn add_shape(
    s: ParseState,
    ty: ObjectType,
    source_len: usize,
    ni: JsonMetadataIndex,
    s2: ParseState,
) -> bool {
    let n = s.out.len() as int;
    let out = s.out;
    let out2 = s2.out;
    &&& ni.0 == n
    &&& out2.len() == n + 1
    &&& out2[n].ty == ty
    &&& out2[n].parent == s.parent
    &&& out2[n].prev == s.prev
    &&& out2[n].next.is_none()
    &&& out2[n].source_start == s.cursor
    &&& out2[n].source_len == source_len
    &&& (out2[n].name_or_index matches NameOrIndex::Name { start, len } ==> s.state
        == ParsingState::InStructWithName { start, len })
    &&& (s.parent matches Some(p) ==> is_filled_container(out2[p.0 as int].ty))
    &&& forall|i: int|
        0 <= i < n ==> {
            &&& (#[trigger] out2[i]).parent == out[i].parent
            &&& out2[i].prev == out[i].prev
            &&& out2[i].source_start == out[i].source_start
            &&& out2[i].source_len == out[i].source_len
            &&& out2[i].name_or_index == out[i].name_or_index
            &&& out2[i].next == (if s.prev == Some(JsonMetadataIndex(i as u32)) {
                Some(ni)
            } else {
                out[i].next
            })
            &&& (s.parent != Some(JsonMetadataIndex(i as u32)) ==> out2[i].ty == out[i].ty)
        }
    &&& s2.parent == s.parent
    &&& s2.cursor == s.cursor
    &&& s2.prev == Some(ni)
    &&& (s.state matches ParsingState::InStructWithName { .. } ==> s2.state
        == ParsingState::InStructWithoutName)
    &&& (s.state matches ParsingState::InArray { .. } ==> s2.state is InArray)
    &&& (s.state == ParsingState::TopLevel ==> s2.state == ParsingState::TopLevel && s.parent.is_none())
    &&& (s.state == ParsingState::InStructWithoutName ==> false)
}

pub proof fn lemma_add_shape(c: Seq<u8>, s: ParseState, ty: ObjectType, source_len: usize)
    requires
        state_inv(c, s),
    ensures
        spec_add(s, ty, source_len) matches Some((ni, s2)) ==> add_shape(
            s,
            ty,
            source_len,
            ni,
            s2,
        ),
{
    if let Some((meta, s1)) = spec_create(s, ty, source_len) {
        assert(s1.out.len() == s.out.len());
        if let Some((ni, s2)) = spec_push(s1, meta) {
            let n = s.out.len() as int;
            assert(s2.out[n] == meta);
            assert forall|i: int| 0 <= i < n implies {
                &&& (#[trigger] s2.out[i]).parent == s.out[i].parent
                &&& s2.out[i].prev == s.out[i].prev
                &&& s2.out[i].source_start == s.out[i].source_start
                &&& s2.out[i].source_len == s.out[i].source_len
                &&& s2.out[i].name_or_index == s.out[i].name_or_index
                &&& s2.out[i].next == (if s.prev == Some(JsonMetadataIndex(i as u32)) {
                    Some(ni)
                } else {
                    s.out[i].next
                })
                &&& (s.parent != Some(JsonMetadataIndex(i as u32)) ==> s2.out[i].ty == s.out[i].ty)
            } by {
                if let Some(q) = s.prev {
                    if q.0 == i {
                        assert(s.prev == Some(JsonMetadataIndex(i as u32)));
                    } else {
                        assert(s.prev != Some(JsonMetadataIndex(i as u32)));
                    }
                }
                if let Some(p) = s.parent {
                    if p.0 != i {
                        assert(s1.out[i] == s.out[i]);
                    }
                }
            }
        }
    }
}

/// One entry of the list after an append is well formed.
pub proof fn lemma_add_node(
    c: Seq<u8>,
    s: ParseState,
    ty: ObjectType,
    source_len: usize,
    ni: JsonMetadataIndex,
    s2: ParseState,
    i: int,
)
    requires
        state_inv(c, s),
        s.cursor < c.len(),
        s.cursor + source_len <= c.len(),
        c[s.cursor] < 0x80,
        source_len > 0 ==> c[s.cursor + source_len - 1] < 0x80,
        !is_filled_container(ty),
        add_shape(s, ty, source_len, ni, s2),
        0 <= i < s2.out.len(),
    ensures
        node_wf(s2.out, i),
        source_in(c, s2.out[i]),
{
    let n = s.out.len() as int;
    let out = s.out;
    let out2 = s2.out;
    if i < n {
        assert(node_wf(out, i));
        assert(source_in(c, out[i]));
        let m = out[i];
        assert(out2[i].parent == m.parent);
        if let Some(p) = m.parent {
            assert(out2[p.0 as int].ty == out[p.0 as int].ty || s.parent == Some(p));
        }
        if let Some(q) = m.prev {
            assert(out2[q.0 as int].parent == out[q.0 as int].parent);
            if s.prev == Some(q) {
                assert(out[q.0 as int].next.is_none());
            }
        }
        if let Some(r) = m.next {
            if s.prev == Some(JsonMetadataIndex(i as u32)) {
                assert(out[i].next.is_none());
            }
            assert(out2[r.0 as int].prev == out[r.0 as int].prev);
        }
        if is_filled_container(out2[i].ty) {
            if s.parent == Some(JsonMetadataIndex(i as u32)) && !is_filled_container(out[i].ty) {
                assert(s.prev.is_none());
                assert(i + 1 == n);
            } else {
                assert(is_filled_container(out[i].ty));
                assert(out2[i + 1].parent == out[i + 1].parent || i + 1 == n);
                if i + 1 == n {
                    assert(s.parent == Some(JsonMetadataIndex(i as u32)));
                    assert(s.prev.is_none());
                }
            }
        }
    } else {
        if let Some(q) = s.prev {
            assert(out2[q.0 as int].next == Some(ni));
            assert(out2[q.0 as int].parent == out[q.0 as int].parent);
        }
        if let Some(p) = s.parent {
            if s.prev.is_none() {
                assert(n == p.0 + 1);
            }
        }
    }
}

/// Creating and appending an entry keeps the invariant.
pub proof fn lemma_add_inv(c: Seq<u8>, s: ParseState, ty: ObjectType, source_len: usize)
    requires
        state_inv(c, s),
        s.cursor < c.len(),
        s.cursor + source_len <= c.len(),
        c[s.cursor] < 0x80,
        source_len > 0 ==> c[s.cursor + source_len - 1] < 0x80,
        !is_filled_container(ty),
    ensures
        spec_add(s, ty, source_len) matches Some((ni, s2)) ==> {
            &&& state_inv(c, s2)
            &&& add_shape(s, ty, source_len, ni, s2)
        },
{
    lemma_add_shape(c, s, ty, source_len);
    if let Some((ni, s2)) = spec_add(s, ty, source_len) {
        let n = s.out.len() as int;
        let out = s.out;
        let out2 = s2.out;
        assert forall|i: int| 0 <= i < out2.len() implies #[trigger] node_wf(out2, i) by {
            lemma_add_node(c, s, ty, source_len, ni, s2, i);
        }
        assert forall|j: int| 0 <= j < out2.len() implies #[trigger] source_in(c, out2[j]) by {
            lemma_add_node(c, s, ty, source_len, ni, s2, j);
        }
        if let Some(p) = s.parent {
            assert forall|i: int| 0 <= i <= p.0 implies #[trigger] out2[i].parent
                == out[i].parent by {}
            assert forall|j: int| open_chain(out2, p.0 as int, j) implies #[trigger] out2[j].next.is_none() by {
                lemma_open_chain_frame(out, out2, p.0 as int, j);
                lemma_open_chain_below(out, p.0 as int, j);
                if let Some(q) = s.prev {
                    assert(out[q.0 as int].parent == s.parent);
                    assert(node_wf(out, q.0 as int));
                }
            }
        }
    }
}

/// Reading a scalar value keeps the invariant.
pub proof fn lemma_scalar_inv(c: Seq<u8>, s: ParseState, ty: ObjectType, len: int)
    requires
        state_inv(c, s),
        s.cursor < c.len(),
        1 <= len,
        s.cursor + len <= c.len(),
        c[s.cursor] < 0x80,
        c[s.cursor + len - 1] < 0x80,
        !is_filled_container(ty),
    ensures
        spec_scalar(c, s, ty, len) matches Some(s2) ==> state_inv(c, s2) && s.cursor < s2.cursor,
{
    lemma_add_inv(c, s, ty, len as usize);
    lemma_skip_ws_strict_bound(c, s.cursor + len);
    lemma_skip_ws_strict_bound(c, s.cursor + len + 1);
}

/// One step keeps the invariant.
pub proof fn lemma_step_inv(c: Seq<u8>, s: ParseState)
    requires
        state_inv(c, s),
        s.cursor < c.len(),
    ensures
        spec_step(c, s) matches Some(s2) ==> state_inv(c, s2),
{
    lemma_step_advances(c, s);
    let b = c[s.cursor];
    if b == 0x5b || b == 0x7b {
        let is_array = b == 0x5b;
        let ty = if is_array {
            ObjectType::EmptyArray
        } else {
            ObjectType::EmptyStructure
        };
        lemma_add_inv(c, s, ty, 0);
        if let Some((ni, s1)) = spec_add(s, ty, 0) {
            if let Some(s2) = spec_open(c, s, is_array) {
                let out = s1.out;
                assert(node_wf(out, ni.0 as int));
                assert forall|j: int| open_chain(out, ni.0 as int, j) implies #[trigger] out[j].next.is_none() by {
                    if j != ni.0 {
                        if let Some(p) = s.parent {
                            assert(open_chain(out, p.0 as int, j));
                        }
                    }
                }
            }
        }
    } else if b == 0x5d || b == 0x7d {
        if let Some(s2) = spec_close(c, s) {
            let p = s.parent.unwrap();
            let out = s.out;
            let pm = out[p.0 as int];
            let k = s.cursor + 1;
            let out2 = s2.out;
            lemma_skip_ws_lenient_bound(c, k);
            if k < c.len() {
                lemma_skip_ws_lenient_bound(c, k + 1);
            }
            assert(node_wf(out, p.0 as int));
            assert forall|i: int| 0 <= i < out2.len() implies #[trigger] node_wf(out2, i) by {
                assert(node_wf(out, i));
            }
            assert forall|j: int| 0 <= j < out2.len() implies #[trigger] source_in(c, out2[j]) by {
                assert(source_in(c, out[j]));
            }
            assert(open_chain(out, p.0 as int, p.0 as int));
            if let Some(gp) = pm.parent {
                assert forall|i: int| 0 <= i <= gp.0 implies #[trigger] out2[i].parent
                    == out[i].parent by {}
                assert forall|j: int| open_chain(out2, gp.0 as int, j) implies #[trigger] out2[j].next.is_none() by {
                    lemma_open_chain_frame(out, out2, gp.0 as int, j);
                    lemma_open_chain_below(out, gp.0 as int, j);
                    assert(open_chain(out, p.0 as int, j));
                    assert(out[j].next.is_none());
                }
            }
        }
    } else if b == 0x22 {
        lemma_escaped_scan_bound(c, s.cursor + 1, false);
        if let Some(len) = spec_escaped_len_at(c, s.cursor) {
            if s.state == ParsingState::InStructWithoutName {
                lemma_skip_ws_strict_bound(c, s.cursor + len + 1);
            } else {
                lemma_scalar_inv(c, s, ObjectType::String, len);
            }
        }
    } else if b == 0x2d || (0x30 <= b <= 0x39) {
        lemma_number_len_bound(c, s.cursor);
        if let Some(n) = number_len(c, s.cursor) {
            lemma_scalar_inv(c, s, ObjectType::Number, n);
        }
    } else if b == 0x6e {
        if has_literal(c, s.cursor, lit_null()) {
            assert(c.subrange(s.cursor, s.cursor + 4)[3] == c[s.cursor + 3]);
            lemma_scalar_inv(c, s, ObjectType::Null, 4);
        }
    } else if b == 0x74 {
        if has_literal(c, s.cursor, lit_true()) {
            assert(c.subrange(s.cursor, s.cursor + 4)[3] == c[s.cursor + 3]);
            lemma_scalar_inv(c, s, ObjectType::Bool, 4);
        }
    } else if b == 0x66 {
        if has_literal(c, s.cursor, lit_false()) {
            assert(c.subrange(s.cursor, s.cursor + 5)[4] == c[s.cursor + 4]);
            lemma_scalar_inv(c, s, ObjectType::Bool, 5);
        }
    }
}

pub proof fn lemma_run_inv(c: Seq<u8>, s: ParseState)
    requires
        state_inv(c, s),
    ensures
        spec_run(c, s) matches Some(s2) ==> state_inv(c, s2),
    decreases c.len() - s.cursor,
{
    if 0 <= s.cursor < c.len() {
        lemma_step_inv(c, s);
        if let Some(s2) = spec_step(c, s) {
            if s.cursor < s2.cursor <= c.len() {
                lemma_run_inv(c, s2);
            }
        }
    }
}

/// Every list the reader produces is a well-formed forest whose values and
/// keys lie inside the input.
pub proof fn lemma_parse_wf(c: Seq<u8>)
    requires
        c.len() <= usize::MAX,
    ensures
        spec_parse(c) matches Some(out) ==> wf_list(out) && sources_in(c, out),
{
    let s0 = initial_state();
    assert(state_inv(c, s0));
    lemma_run_inv(c, s0);
}

/// In valid UTF-8 text, the position just after an ASCII byte starts a
/// character or ends the text.
proof fn lemma_after_ascii_boundary(c: Seq<u8>, k: int)
    requires
        valid_utf8(c),
        0 < k <= c.len(),
        c[k - 1] < 0x80,
    ensures
        is_char_boundary(c, k),
{
    if k == c.len() {
        is_char_boundary_start_end_of_seq(c);
    } else {
        is_char_boundary_iff_not_is_continuation_byte(c, k - 1);
        valid_utf8_split(c, k - 1);
        let t = c.subrange(k - 1, c.len() as int);
        assert(t[0] == c[k - 1]);
        let u = c.subrange(k, c.len() as int);
        assert(pop_first_scalar(t) =~= u);
        assert(valid_utf8(u));
        assert(u[0] == c[k]);
        is_char_boundary_iff_not_is_continuation_byte(c, k);
    }
}

/// A stretch of valid UTF-8 text that starts and ends with ASCII bytes is
/// valid UTF-8 itself.
proof fn lemma_ascii_bounded_valid(c: Seq<u8>, a: int, b: int)
    requires
        valid_utf8(c),
        0 <= a <= b <= c.len(),
        a < b ==> c[a] < 0x80 && c[b - 1] < 0x80,
    ensures
        valid_utf8(c.subrange(a, b)),
{
    if a == b {
        assert(c.subrange(a, b) =~= Seq::<u8>::empty());
    } else {
        lemma_after_ascii_boundary(c, b);
        valid_utf8_split(c, b);
        let pre = c.subrange(0, b);
        assert(pre[a] == c[a]);
        is_char_boundary_iff_not_is_continuation_byte(c, a);
        is_char_boundary_iff_not_is_continuation_byte(pre, a);
        valid_utf8_split(pre, a);
        assert(pre.subrange(a, b) =~= c.subrange(a, b));
    }
}

proof fn lemma_render_node_some(c: Seq<u8>, l: Seq<ObjectMeta>, i: int, ind: nat)
    requires
        valid_utf8(c),
        wf_list(l),
        sources_in(c, l),
        0 <= i < l.len(),
    ensures
        render_node(c, l, i, ind) is Some,
    decreases l.len() - i, 0int,
{
    assert(node_wf(l, i));
    assert(source_in(c, l[i]));
    let m = l[i];
    if let NameOrIndex::Name { start, len } = m.name_or_index {
        lemma_ascii_bounded_valid(c, start as int, start + len);
    }
    assert(key_prefix(c, l, i) is Some);
    if is_filled_container(m.ty) {
        lemma_render_children_some(c, l, i + 1, ind + 1);
    } else {
        lemma_ascii_bounded_valid(c, m.source_start as int, m.source_start + m.source_len);
        assert(text(c, m.source_start as int, m.source_start + m.source_len) is Some);
    }
}

proof fn lemma_render_children_some(c: Seq<u8>, l: Seq<ObjectMeta>, j: int, ind: nat)
    requires
        valid_utf8(c),
        wf_list(l),
        sources_in(c, l),
        0 <= j < l.len(),
    ensures
        render_children(c, l, j, ind) is Some,
    decreases l.len() - j, 1int,
{
    assert(node_wf(l, j));
    lemma_render_node_some(c, l, j, ind);
    if let Some(r) = l[j].next {
        lemma_render_children_some(c, l, r.0 as int, ind);
    }
}

/// Every document the reader accepts can be printed when it is valid UTF-8
/// and holds a value: the printer then never meets a key or a value that is
/// out of range or not valid UTF-8.
pub proof fn lemma_parsed_utf8_renders(c: Seq<u8>)
    requires
        c.len() <= usize::MAX,
        valid_utf8(c),
    ensures
        spec_parse(c) matches Some(out) ==> (out.len() > 0 ==> spec_render(c, out) is Some),
{
    lemma_parse_wf(c);
    if let Some(out) = spec_parse(c) {
        if out.len() > 0 {
            lemma_render_node_some(c, out, 0, 0);
        }
    }
}

/// How many of the positions below `n` hold `i` or one of its ancestors.
pub open spec fn chain_count(l: Seq<ObjectMeta>, i: int, n: int) -> nat
    decreases n,
{
    if n <= 0 {
        0
    } else {
        chain_count(l, i, n - 1) + if open_chain(l, i, n - 1) {
            1nat
        } else {
            0nat
        }
    }
}

proof fn lemma_chain_count_split(l: Seq<ObjectMeta>, i: int, n: int)
    requires
        wf_list(l),
        0 <= i < l.len(),
        0 <= n,
    ensures
        chain_count(l, i, n) == (if i < n { 1nat } else { 0nat }) + match l[i].parent {
            Some(p) => chain_count(l, p.0 as int, n),
            None => 0nat,
        },
    decreases n,
{
    assert(node_wf(l, i));
    if n > 0 {
        lemma_chain_count_split(l, i, n - 1);
        let j = n - 1;
        if let Some(p) = l[i].parent {
            lemma_open_chain_below(l, p.0 as int, j);
        }
    }
}

/// In a well-formed list the depth of a value is the number of its
/// ancestors: the values met going up from it by parent links, itself
/// excluded.
pub proof fn lemma_depth_counts_ancestors(l: Seq<ObjectMeta>, i: int)
    requires
        wf_list(l),
        0 <= i < l.len(),
    ensures
        spec_depth(l, i) + 1 == chain_count(l, i, l.len() as int),
    decreases i,
{
    assert(node_wf(l, i));
    lemma_chain_count_split(l, i, l.len() as int);
    if let Some(p) = l[i].parent {
        lemma_depth_counts_ancestors(l, p.0 as int);
    }
}

/// `2 * n` spaces.
pub open spec fn spaces_of(n: nat) -> Seq<u8> {
    Seq::new(2 * n, |_k: int| 0x20u8)
}

proof fn lemma_indent_spaces(n: nat)
    ensures
        indent(n) == spaces_of(n),
    decreases n,
{
    if n > 0 {
        lemma_indent_spaces((n - 1) as nat);
        assert(indent(n) =~= spaces_of(n));
    }
}

/// What begins the line of the value `j` after its indentation: its key,
/// then its opening bracket or its source text.
pub open spec fn line_head(c: Seq<u8>, l: Seq<ObjectMeta>, j: int) -> Seq<u8> {
    key_prefix(c, l, j)->0 + if is_filled_container(l[j].ty) {
        seq![open_bracket(l[j].ty)]
    } else {
        text(c, l[j].source_start as int, l[j].source_start + l[j].source_len)->0
    }
}

/// `x` is empty or ends a line.
pub open spec fn at_line_start(x: Seq<u8>) -> bool {
    x.len() == 0 || x.last() == 0x0a
}

proof fn lemma_node_ends_line(c: Seq<u8>, l: Seq<ObjectMeta>, i: int, ind: nat)
    ensures
        render_node(c, l, i, ind) matches Some(b) ==> b.len() > 0 && b.last() == 0x0a,
{
}

/// The lines of a child of `p` stand in the lines of `p`'s children, at the
/// start of a line.
proof fn lemma_child_in_children(c: Seq<u8>, l: Seq<ObjectMeta>, p: int, j: int, e: nat)
    requires
        wf_list(l),
        0 <= p < j < l.len(),
        l[j].parent == Some(JsonMetadataIndex(p as u32)),
        render_children(c, l, p + 1, e) is Some,
    ensures
        render_children(c, l, j, e) is Some,
        exists|pre: Seq<u8>|
            at_line_start(pre) && render_children(c, l, p + 1, e)->0 == pre + render_children(
                c,
                l,
                j,
                e,
            )->0,
    decreases j,
{
    assert(node_wf(l, j));
    let all = render_children(c, l, p + 1, e)->0;
    match l[j].prev {
        None => {
            assert(j == p + 1);
            assert(all == Seq::<u8>::empty() + all);
            assert(at_line_start(Seq::<u8>::empty()));
        },
        Some(q) => {
            let qi = q.0 as int;
            assert(node_wf(l, qi));
            lemma_child_in_children(c, l, p, qi, e);
            let pre_q = choose|pre: Seq<u8>|
                at_line_start(pre) && all == pre + render_children(c, l, qi, e)->0;
            let first = render_node(c, l, qi, e)->0;
            lemma_node_ends_line(c, l, qi, e);
            let rest = render_children(c, l, j, e)->0;
            assert(render_children(c, l, qi, e)->0 == first + rest);
            let pre = pre_q + first;
            assert(all =~= pre + rest);
            assert(at_line_start(pre));
        },
    }
}

/// The lines of a filled container: its opening line, its children one
/// level deeper, and its closing line.
proof fn lemma_container_lines(c: Seq<u8>, l: Seq<ObjectMeta>, p: int, d: nat)
    requires
        0 <= p < l.len(),
        is_filled_container(l[p].ty),
        render_node(c, l, p, d) is Some,
    ensures
        render_children(c, l, p + 1, d + 1) is Some,
        render_node(c, l, p, d)->0 == indent(d) + key_prefix(c, l, p)->0 + seq![
            open_bracket(l[p].ty),
            0x0au8,
        ] + render_children(c, l, p + 1, d + 1)->0 + indent(d) + seq![
            close_bracket(l[p].ty),
            0x0au8,
        ],
{
}

/// The lines of `j` and its following siblings start with the lines of `j`.
proof fn lemma_children_first(c: Seq<u8>, l: Seq<ObjectMeta>, j: int, e: nat)
    requires
        render_children(c, l, j, e) is Some,
    ensures
        render_node(c, l, j, e) is Some,
        render_children(c, l, j, e)->0 == render_node(c, l, j, e)->0 + render_children(
            c,
            l,
            j,
            e,
        )->0.subrange(render_node(c, l, j, e)->0.len() as int, render_children(c, l, j, e)->0.len() as int),
{
    let rest = render_children(c, l, j, e)->0;
    let bj = render_node(c, l, j, e)->0;
    assert(rest =~= bj + rest.subrange(bj.len() as int, rest.len() as int));
}

proof fn lemma_nested_block(
    out: Seq<u8>,
    x: Seq<u8>,
    bp: Seq<u8>,
    y: Seq<u8>,
    a: Seq<u8>,
    kids: Seq<u8>,
    b: Seq<u8>,
    pre: Seq<u8>,
    rest: Seq<u8>,
    bj: Seq<u8>,
    more: Seq<u8>,
)
    requires
        out == x + bp + y,
        bp == a + kids + b,
        kids == pre + rest,
        rest == bj + more,
        a.len() > 0 && a.last() == 0x0a,
        at_line_start(pre),
    ensures
        out == (x + a + pre) + bj + (more + b + y),
        at_line_start(x + a + pre),
{
    assert(out =~= (x + a + pre) + bj + (more + b + y));
}

/// In the printed document of a list whose values all descend from the
/// first, the lines of each value `j`, printed at its depth, stand at the
/// start of a line.
#[verifier::spinoff_prover]
proof fn lemma_block_in_output(c: Seq<u8>, l: Seq<ObjectMeta>, j: int)
    requires
        wf_list(l),
        forall|k: int| 0 < k < l.len() ==> (#[trigger] l[k]).parent is Some,
        spec_render(c, l) is Some,
        0 <= j < l.len(),
    ensures
        render_node(c, l, j, spec_depth(l, j)) is Some,
        exists|x: Seq<u8>, y: Seq<u8>|
            at_line_start(x) && spec_render(c, l)->0 == x + render_node(
                c,
                l,
                j,
                spec_depth(l, j),
            )->0 + y,
    decreases j,
{
    let out = spec_render(c, l)->0;
    assert(node_wf(l, j));
    if j == 0 {
        assert(spec_depth(l, 0) == 0);
        assert(out =~= Seq::<u8>::empty() + out + Seq::<u8>::empty());
        assert(at_line_start(Seq::<u8>::empty()));
    } else {
        let pp = l[j].parent->0;
        let p = pp.0 as int;
        assert(l[j].parent == Some(JsonMetadataIndex(p as u32)));
        assert(node_wf(l, p));
        lemma_block_in_output(c, l, p);
        let dp = spec_depth(l, p);
        assert(spec_depth(l, j) == dp + 1);
        let bp = render_node(c, l, p, dp)->0;
        let (x, y) = choose|x: Seq<u8>, y: Seq<u8>| at_line_start(x) && out == x + bp + y;
        let key = key_prefix(c, l, p)->0;
        let ty = l[p].ty;
        lemma_container_lines(c, l, p, dp);
        let kids = render_children(c, l, p + 1, dp + 1)->0;
        lemma_child_in_children(c, l, p, j, dp + 1);
        let rest = render_children(c, l, j, dp + 1)->0;
        let pre = choose|pre: Seq<u8>| at_line_start(pre) && kids == pre + rest;
        lemma_children_first(c, l, j, dp + 1);
        let bj = render_node(c, l, j, dp + 1)->0;
        let more = rest.subrange(bj.len() as int, rest.len() as int);
        let a = indent(dp) + key + seq![open_bracket(ty), 0x0au8];
        let b = indent(dp) + seq![close_bracket(ty), 0x0au8];
        assert(bp == a + kids + b);
        lemma_nested_block(out, x, bp, y, a, kids, b, pre, rest, bj, more);
    }
}

/// Every value of a printed document whose values all descend from the
/// first has a line of its own that starts with exactly two spaces per
/// ancestor, followed by its key and its opening bracket or source text.
pub proof fn lemma_render_lines(c: Seq<u8>, l: Seq<ObjectMeta>, j: int)
    requires
        wf_list(l),
        forall|k: int| 0 < k < l.len() ==> (#[trigger] l[k]).parent is Some,
        spec_render(c, l) is Some,
        0 <= j < l.len(),
    ensures
        exists|x: Seq<u8>, y: Seq<u8>|
            at_line_start(x) && spec_render(c, l)->0 == x + spaces_of(spec_depth(l, j)) + line_head(
                c,
                l,
                j,
            ) + y,
{
    lemma_block_in_output(c, l, j);
    let d = spec_depth(l, j);
    let out = spec_render(c, l)->0;
    let bj = render_node(c, l, j, d)->0;
    let (x, y) = choose|x: Seq<u8>, y: Seq<u8>| at_line_start(x) && out == x + bj + y;
    lemma_indent_spaces(d);
    let head = line_head(c, l, j);
    let tail = bj.subrange((2 * d + head.len()) as int, bj.len() as int);
    assert(bj =~= indent(d) + head + tail);
    assert(out =~= x + spaces_of(d) + head + (tail + y));
}

} // verus!
