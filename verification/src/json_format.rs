//! Pretty-printing of a JSON document from its metadata list: one value per
//! line, two spaces of indentation per level, member keys before their
//! values, and the source text of every scalar and empty container.
use vstd::prelude::*;
use vstd::utf8::valid_utf8;
use crate::json_viewer::{is_filled_container, wf_list, JsonMetadata, NameOrIndex, ObjectMeta, ObjectType};

verus! {

/// `n` levels of indentation.
pub open spec fn indent(n: nat) -> Seq<u8>
    decreases n,
{
    if n == 0 {
        Seq::empty()
    } else {
        indent((n - 1) as nat) + seq![0x20u8, 0x20u8]
    }
}

/// The bytes `c[a..b]` when they are in range and valid UTF-8.
pub open spec fn text(c: Seq<u8>, a: int, b: int) -> Option<Seq<u8>> {
    if 0 <= a <= b <= c.len() && valid_utf8(c.subrange(a, b)) {
        Some(c.subrange(a, b))
    } else {
        None
    }
}

/// What stands before a value on its line: its key and `: `, except for the
/// root and for array elements.
pub open spec fn key_prefix(c: Seq<u8>, l: Seq<ObjectMeta>, i: int) -> Option<Seq<u8>> {
    if i == 0 {
        Some(Seq::empty())
    } else {
        match l[i].name_or_index {
            NameOrIndex::Name { start, len } => match text(c, start as int, start + len) {
                Some(k) => Some(k + seq![0x3au8, 0x20u8]),
                None => None,
            },
            NameOrIndex::Index(_) => Some(Seq::empty()),
        }
    }
}

pub open spec fn open_bracket(ty: ObjectType) -> u8 {
    if ty == ObjectType::Array {
        0x5b
    } else {
        0x7b
    }
}

pub open spec fn close_bracket(ty: ObjectType) -> u8 {
    if ty == ObjectType::Array {
        0x5d
    } else {
        0x7d
    }
}

/// The lines of the value `i` at indentation `ind`. A filled container
/// gives its opening bracket, its children one level deeper and its closing
/// bracket; any other value gives its source text, followed by a comma when
/// a sibling follows (never for the root). `None` where the printer stops:
/// a key or text out of range or not valid UTF-8.
pub open spec fn render_node(c: Seq<u8>, l: Seq<ObjectMeta>, i: int, ind: nat) -> Option<Seq<u8>>
    decreases l.len() - i, 0int,
{
    if 0 <= i < l.len() {
        match key_prefix(c, l, i) {
            None => None,
            Some(key) => {
                let m = l[i];
                if is_filled_container(m.ty) {
                    if i + 1 < l.len() {
                        match render_children(c, l, i + 1, ind + 1) {
                            None => None,
                            Some(kids) => Some(
                                indent(ind) + key + seq![open_bracket(m.ty), 0x0au8] + kids
                                    + indent(ind) + seq![close_bracket(m.ty), 0x0au8],
                            ),
                        }
                    } else {
                        None
                    }
                } else {
                    match text(c, m.source_start as int, m.source_start + m.source_len) {
                        None => None,
                        Some(src) => Some(
                            indent(ind) + key + src + (if m.next.is_some() && i != 0 {
                                seq![0x2cu8]
                            } else {
                                Seq::empty()
                            }) + seq![0x0au8],
                        ),
                    }
                }
            },
        }
    } else {
        None
    }
}

/// The lines of `j` and of the siblings that follow it.
pub open spec fn render_children(c: Seq<u8>, l: Seq<ObjectMeta>, j: int, ind: nat) -> Option<
    Seq<u8>,
>
    decreases l.len() - j, 1int,
{
    if 0 <= j < l.len() {
        match render_node(c, l, j, ind) {
            None => None,
            Some(first) => match l[j].next {
                None => Some(first),
                Some(r) => if j < r.0 < l.len() {
                    match render_children(c, l, r.0 as int, ind) {
                        None => None,
                        Some(rest) => Some(first + rest),
                    }
                } else {
                    None
                },
            },
        }
    } else {
        None
    }
}

/// The printed document: the lines of the first value.
pub open spec fn spec_render(c: Seq<u8>, l: Seq<ObjectMeta>) -> Option<Seq<u8>> {
    render_node(c, l, 0, 0)
}

/// Whether `bytes` is valid UTF-8, by `std::str::from_utf8`, whose
/// documentation states that it fails exactly on byte sequences that are
/// not valid UTF-8.
#[verifier::external_body]
fn is_valid_utf8(bytes: &[u8]) -> (r: bool)
    ensures
        r == valid_utf8(bytes@),
{
    match std::str::from_utf8(bytes) {
        Ok(_) => true,
        Err(_) => false,
    }
}

fn push_indent(out: &mut Vec<u8>, ind: usize)
    ensures
        final(out)@ == old(out)@ + indent(ind as nat),
{
    let mut k: usize = 0;
    while k < ind
        invariant
            k <= ind,
            out@ == old(out)@ + indent(k as nat),
        decreases ind - k,
    {
        out.push(0x20);
        out.push(0x20);
        k += 1;
        assert(out@ =~= old(out)@ + indent(k as nat));
    }
}

/// Appends `content[a..b]` when it is in range and valid UTF-8.
fn push_text(out: &mut Vec<u8>, content: &[u8], a: usize, len: usize) -> (ok: bool)
    ensures
        ok <==> text(content@, a as int, a + len) is Some,
        ok ==> final(out)@ == old(out)@ + text(content@, a as int, a + len)->0,
{
    if a > content.len() || len > content.len() - a {
        return false;
    }
    let piece = vstd::slice::slice_subrange(content, a, a + len);
    if !is_valid_utf8(piece) {
        return false;
    }
    let mut k: usize = 0;
    while k < len
        invariant
            k <= len,
            a + len <= content@.len(),
            piece@ == content@.subrange(a as int, a + len),
            out@ == old(out)@ + piece@.subrange(0, k as int),
        decreases len - k,
    {
        out.push(piece[k]);
        k += 1;
        assert(out@ =~= old(out)@ + piece@.subrange(0, k as int));
    }
    assert(piece@.subrange(0, len as int) =~= piece@);
    true
}

fn push_key(out: &mut Vec<u8>, content: &[u8], l: &JsonMetadata, i: usize) -> (ok: bool)
    requires
        i < l@.len(),
    ensures
        ok <==> key_prefix(content@, l@, i as int) is Some,
        ok ==> final(out)@ == old(out)@ + key_prefix(content@, l@, i as int)->0,
{
    if i == 0 {
        assert(old(out)@ + Seq::<u8>::empty() =~= old(out)@);
        return true;
    }
    match l.list[i].name_or_index {
        NameOrIndex::Name { start, len } => {
            if push_text(out, content, start, len as usize) {
                out.push(0x3a);
                out.push(0x20);
                assert(out@ =~= old(out)@ + key_prefix(content@, l@, i as int)->0);
                true
            } else {
                false
            }
        },
        NameOrIndex::Index(_) => {
            assert(old(out)@ + Seq::<u8>::empty() =~= old(out)@);
            true
        },
    }
}

fn render_leaf_into(out: &mut Vec<u8>, content: &[u8], m: ObjectMeta, is_root: bool) -> (ok: bool)
    ensures
        ok <==> text(content@, m.source_start as int, m.source_start + m.source_len) is Some,
        ok ==> final(out)@ == old(out)@ + text(
            content@,
            m.source_start as int,
            m.source_start + m.source_len,
        )->0 + (if m.next.is_some() && !is_root {
            seq![0x2cu8]
        } else {
            Seq::empty()
        }) + seq![0x0au8],
{
    let ghost start = out@;
    if !push_text(out, content, m.source_start, m.source_len) {
        return false;
    }
    let ghost mid = out@;
    if m.next.is_some() && !is_root {
        out.push(0x2c);
    }
    out.push(0x0a);
    assert(out@ =~= mid + (if m.next.is_some() && !is_root {
        seq![0x2cu8]
    } else {
        Seq::empty()
    }) + seq![0x0au8]);
    true
}

fn render_node_into(
    out: &mut Vec<u8>,
    content: &[u8],
    l: &JsonMetadata,
    i: usize,
    ind: usize,
) -> (ok: bool)
    requires
        wf_list(l@),
        i < l@.len(),
        ind <= i,
    ensures
        ok <==> render_node(content@, l@, i as int, ind as nat) is Some,
        ok ==> final(out)@ == old(out)@ + render_node(content@, l@, i as int, ind as nat)->0,
    decreases l@.len() - i, 0int,
{
    let ghost start = out@;
    let ghost spec_key = key_prefix(content@, l@, i as int);
    push_indent(out, ind);
    if !push_key(out, content, l, i) {
        return false;
    }
    let ghost after_key = out@;
    assert(after_key == start + indent(ind as nat) + spec_key->0);
    let m = l.list[i];
    if matches!(m.ty, ObjectType::Array | ObjectType::Structure) {
        if i >= l.list.len() - 1 {
            return false;
        }
        let open: u8 = if matches!(m.ty, ObjectType::Array) { 0x5b } else { 0x7b };
        let close: u8 = if matches!(m.ty, ObjectType::Array) { 0x5d } else { 0x7d };
        out.push(open);
        out.push(0x0a);
        let ghost after_open = out@;
        if !render_children_into(out, content, l, i + 1, ind + 1) {
            return false;
        }
        let ghost kids = render_children(content@, l@, i + 1, (ind + 1) as nat)->0;
        let ghost after_kids = out@;
        push_indent(out, ind);
        out.push(close);
        out.push(0x0a);
        assert(out@ =~= start + (indent(ind as nat) + spec_key->0 + seq![open, 0x0au8] + kids
            + indent(ind as nat) + seq![close, 0x0au8]));
        true
    } else {
        if !render_leaf_into(out, content, m, i == 0) {
            return false;
        }
        assert(out@ =~= start + render_node(content@, l@, i as int, ind as nat)->0);
        true
    }
}

fn render_children_into(
    out: &mut Vec<u8>,
    content: &[u8],
    l: &JsonMetadata,
    j: usize,
    ind: usize,
) -> (ok: bool)
    requires
        wf_list(l@),
        j < l@.len(),
        ind <= j,
    ensures
        ok <==> render_children(content@, l@, j as int, ind as nat) is Some,
        ok ==> final(out)@ == old(out)@ + render_children(content@, l@, j as int, ind as nat)->0,
    decreases l@.len() - j, 1int,
{
    let ghost start = out@;
    if !render_node_into(out, content, l, j, ind) {
        return false;
    }
    match l.list[j].next {
        None => true,
        Some(r) => {
            if !(j < r.get() && r.get() < l.list.len()) {
                return false;
            }
            if !render_children_into(out, content, l, r.get(), ind) {
                return false;
            }
            assert(out@ =~= start + render_children(content@, l@, j as int, ind as nat)->0);
            true
        },
    }
}

/// The printed document, or `None` where a key or a scalar's source text is
/// out of range or not valid UTF-8.
pub fn try_render_data(content: &[u8], structure: &JsonMetadata) -> (r: Option<Vec<u8>>)
    requires
        structure.wf(),
    ensures
        r is Some <==> spec_render(content@, structure@) is Some,
        r matches Some(v) ==> spec_render(content@, structure@) == Some(v@),
{
    if structure.list.len() == 0 {
        return None;
    }
    let mut out: Vec<u8> = Vec::new();
    if render_node_into(&mut out, content, structure, 0, 0) {
        assert(out@ =~= Seq::<u8>::empty() + spec_render(content@, structure@)->0);
        Some(out)
    } else {
        None
    }
}

/// Prints a document: each value on a line of its own, indented by two
/// spaces per level, with its key, and with a comma when a sibling follows;
/// containers print their brackets on lines of their own.
pub fn render_data(content: &[u8], structure: &JsonMetadata) -> (r: Vec<u8>)
    requires
        structure.wf(),
        spec_render(content@, structure@) is Some,
    ensures
        spec_render(content@, structure@) == Some(r@),
{
    match try_render_data(content, structure) {
        Some(v) => v,
        None => {
            assert(false);
            Vec::new()
        },
    }
}

} // verus!
